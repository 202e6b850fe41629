//! Colour values and the strip they are collected in.

use vstd::prelude::*;

verus! {

/// Number of LEDs on the strip: one per cell of a 5×5 glyph.
pub const STRIP_LEN: usize = 25;

/// One LED's colour: three 8-bit channels.
#[derive(Clone, Copy, Debug, PartialEq, Eq, Structural)]
pub struct Pixel {
    pub r: u8,
    pub g: u8,
    pub b: u8,
}

impl Pixel {
    /// The colour with every channel off.
    pub open spec fn dark() -> Pixel {
        Pixel { r: 0, g: 0, b: 0 }
    }

    /// A pixel with the given red, green and blue levels.
    pub fn new(r: u8, g: u8, b: u8) -> (p: Pixel)
        ensures
            p == (Pixel { r, g, b }),
    {
        Pixel { r, g, b }
    }

    /// A pixel with all three channels off.
    pub fn black() -> (p: Pixel)
        ensures
            p == Pixel::dark(),
    {
        Pixel { r: 0, g: 0, b: 0 }
    }
}

impl From<(u8, u8, u8)> for Pixel {
    /// A pixel from its red, green and blue levels, in that order.
    fn from(rgb: (u8, u8, u8)) -> (p: Pixel) {
        Pixel { r: rgb.0, g: rgb.1, b: rgb.2 }
    }
}

impl vstd::std_specs::convert::FromSpecImpl<(u8, u8, u8)> for Pixel {
    open spec fn obeys_from_spec() -> bool {
        true
    }

    open spec fn from_spec(rgb: (u8, u8, u8)) -> Pixel {
        Pixel { r: rgb.0, g: rgb.1, b: rgb.2 }
    }
}

} // verus!
