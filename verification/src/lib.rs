//! Scrolling-text renderer for a 5×5 matrix of addressable RGB LEDs.
//!
//! A message scrolls by one character at a time. Each tick, the glyph of the
//! character on show is painted onto the strip in the colour of the moment,
//! and the strip is scaled down to a safe brightness for sending.

pub mod brightness;
pub mod engine;
pub mod font;
pub mod hue;
pub mod pixel;
pub mod raster;

pub use brightness::{scale_frame, scale_pixel};
pub use engine::{char_index, Animation, DEFAULT_BRIGHTNESS, DEFAULT_DWELL_TICKS, TICK_MILLIS};
pub use font::{lookup, Glyph, FONT_5X5};
pub use hue::{arrange, hue_band, HueBand};
pub use pixel::{Pixel, STRIP_LEN};
pub use raster::{paint_glyph, render_ascii};
