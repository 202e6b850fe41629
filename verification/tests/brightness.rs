use led_banner::brightness::{scale_frame, scale_pixel};
use led_banner::pixel::{Pixel, STRIP_LEN};

fn grey(level: u8) -> Pixel {
    Pixel { r: level, g: level, b: level }
}

#[test]
fn full_channel_at_one_256th_rounds_down_to_zero() {
    let scaled = scale_pixel(Pixel { r: 255, g: 255, b: 255 }, 1);
    assert_eq!(scaled, Pixel { r: 0, g: 0, b: 0 });
}

#[test]
fn numerator_zero_is_black() {
    for level in 0..=255u8 {
        assert_eq!(scale_pixel(grey(level), 0), grey(0));
    }
}

#[test]
fn exact_scaled_values() {
    assert_eq!(scale_pixel(Pixel { r: 255, g: 128, b: 7 }, 128), Pixel { r: 127, g: 64, b: 3 });
    assert_eq!(scale_pixel(Pixel { r: 255, g: 1, b: 0 }, 255), Pixel { r: 254, g: 0, b: 0 });
    assert_eq!(scale_pixel(Pixel { r: 200, g: 100, b: 50 }, 64), Pixel { r: 50, g: 25, b: 12 });
    assert_eq!(scale_pixel(Pixel { r: 255, g: 129, b: 127 }, 2), Pixel { r: 1, g: 1, b: 0 });
}

#[test]
fn every_channel_is_value_times_numerator_over_256() {
    for numerator in 0..=255u8 {
        for value in 0..=255u8 {
            let expected = (value as u32 * numerator as u32 / 256) as u8;
            let p = Pixel { r: value, g: 255 - value, b: value / 2 };
            let q = scale_pixel(p, numerator);
            assert_eq!(q.r, expected);
            assert_eq!(q.g, ((255 - value) as u32 * numerator as u32 / 256) as u8);
            assert_eq!(q.b, ((value / 2) as u32 * numerator as u32 / 256) as u8);
        }
    }
}

#[test]
fn scaling_is_monotonic_in_the_channel() {
    for numerator in 0..=255u8 {
        let mut previous = 0u8;
        for value in 0..=255u8 {
            let scaled = scale_pixel(grey(value), numerator).r;
            assert!(previous <= scaled);
            previous = scaled;
        }
    }
}

#[test]
fn scaling_is_monotonic_in_the_numerator() {
    for value in 0..=255u8 {
        let mut previous = 0u8;
        for numerator in 0..=255u8 {
            let scaled = scale_pixel(grey(value), numerator).r;
            assert!(previous <= scaled);
            previous = scaled;
        }
    }
}

#[test]
fn scaling_never_brightens() {
    for numerator in 0..=255u8 {
        for value in 0..=255u8 {
            let scaled = scale_pixel(grey(value), numerator).r;
            assert!(scaled <= value);
            assert!(scaled <= numerator);
        }
    }
}

#[test]
fn scaling_gives_the_same_result_every_time() {
    let p = Pixel { r: 201, g: 17, b: 99 };
    assert_eq!(scale_pixel(p, 77), scale_pixel(p, 77));
    assert_eq!(scale_pixel(p, 77), Pixel { r: 60, g: 5, b: 29 });
}

#[test]
fn numerator_n_is_the_dimmer_at_level_n_minus_one() {
    for numerator in 1..=255u8 {
        for value in [0u8, 1, 2, 127, 128, 254, 255] {
            let source = core::iter::once(smart_leds::RGB8 { r: value, g: value, b: value });
            let dimmed = smart_leds::brightness(source, numerator - 1).next();
            let ours = scale_pixel(grey(value), numerator);
            assert_eq!(dimmed.map(|c| (c.r, c.g, c.b)), Some((ours.r, ours.g, ours.b)));
        }
    }
}

#[test]
fn a_frame_is_scaled_pixel_by_pixel() {
    let mut frame = [grey(0); STRIP_LEN];
    for (i, led) in frame.iter_mut().enumerate() {
        *led = Pixel { r: 10 * i as u8, g: 255 - i as u8, b: 5 + i as u8 };
    }
    for numerator in [0u8, 1, 64, 128, 255] {
        let scaled = scale_frame(&frame, numerator);
        for i in 0..STRIP_LEN {
            assert_eq!(scaled[i], scale_pixel(frame[i], numerator));
        }
    }
}

#[test]
fn scaling_a_frame_leaves_the_source_alone() {
    let frame = [Pixel { r: 255, g: 255, b: 255 }; STRIP_LEN];
    let scaled = scale_frame(&frame, 1);
    assert_eq!(scaled, [grey(0); STRIP_LEN]);
    assert_eq!(frame, [grey(255); STRIP_LEN]);
}
