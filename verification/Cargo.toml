[package]
name = "led_banner"
version = "0.1.0"
edition = "2021"
publish = false

[dependencies]
smart-leds = "=0.3.0"
ws2812-pio = "=0.8.0"
waveshare-rp2040-zero = "=0.8.0"
cortex-m = "=0.7.10"
cortex-m-rt = "=0.7.7"
panic-halt = "=0.2.0"
