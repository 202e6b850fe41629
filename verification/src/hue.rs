//! The colour wheel's six bands.
//!
//! A hue is an angle on the colour wheel. Each 60° band has one channel at
//! the colour's full level, one on its way up or down, and one off. This
//! module picks the band of an angle and puts the three levels on their
//! channels. The levels themselves are the caller's: any value type will do.

use vstd::prelude::*;

verus! {

/// Width of a band in degrees.
pub const BAND_DEGREES: u16 = 60;

/// A sixth of the colour wheel, named after the colour that it starts at.
#[derive(Clone, Copy, Debug, PartialEq, Eq, Structural)]
pub enum HueBand {
    /// 0° up to 60°: red full, green rising.
    Red,
    /// 60° up to 120°: green full, red falling.
    Yellow,
    /// 120° up to 180°: green full, blue rising.
    Green,
    /// 180° up to 240°: blue full, green falling.
    Cyan,
    /// 240° up to 300°: blue full, red rising.
    Blue,
    /// 300° and beyond: red full, blue falling.
    Magenta,
}

/// The band that an angle of `degrees` whole degrees lies in.
pub open spec fn band_at(degrees: int) -> HueBand {
    if degrees < 60 {
        HueBand::Red
    } else if degrees < 120 {
        HueBand::Yellow
    } else if degrees < 180 {
        HueBand::Green
    } else if degrees < 240 {
        HueBand::Cyan
    } else if degrees < 300 {
        HueBand::Blue
    } else {
        HueBand::Magenta
    }
}

/// The red, green and blue levels in `band`, given the level `full` of the
/// channel at full strength, the level `partial` of the channel in between
/// and the level `off` of the remaining channel.
pub open spec fn arranged<T>(band: HueBand, full: T, partial: T, off: T) -> (T, T, T) {
    match band {
        HueBand::Red => (full, partial, off),
        HueBand::Yellow => (partial, full, off),
        HueBand::Green => (off, full, partial),
        HueBand::Cyan => (off, partial, full),
        HueBand::Blue => (partial, off, full),
        HueBand::Magenta => (full, off, partial),
    }
}

/// Neighbouring bands agree where they meet. At 60°, 180° and 300° the
/// channel in between has reached the full level; at 0°, 120° and 240° it
/// has reached the level of the channel that is off.
pub proof fn lemma_bands_meet<T>(full: T, off: T)
    ensures
        arranged(HueBand::Red, full, full, off) == arranged(HueBand::Yellow, full, full, off),
        arranged(HueBand::Yellow, full, off, off) == arranged(HueBand::Green, full, off, off),
        arranged(HueBand::Green, full, full, off) == arranged(HueBand::Cyan, full, full, off),
        arranged(HueBand::Cyan, full, off, off) == arranged(HueBand::Blue, full, off, off),
        arranged(HueBand::Blue, full, full, off) == arranged(HueBand::Magenta, full, full, off),
        arranged(HueBand::Magenta, full, off, off) == arranged(HueBand::Red, full, off, off),
{
}

/// Picks the band of an angle given in whole degrees. Angles of 300° and
/// more, a full turn included, fall in the last band.
pub fn hue_band(degrees: u16) -> (band: HueBand)
    ensures
        band == band_at(degrees as int),
{
    if degrees < BAND_DEGREES {
        HueBand::Red
    } else if degrees < 2 * BAND_DEGREES {
        HueBand::Yellow
    } else if degrees < 3 * BAND_DEGREES {
        HueBand::Green
    } else if degrees < 4 * BAND_DEGREES {
        HueBand::Cyan
    } else if degrees < 5 * BAND_DEGREES {
        HueBand::Blue
    } else {
        HueBand::Magenta
    }
}

/// Puts the three levels of a colour in `band` on their channels, as
/// red, green and blue.
pub fn arrange<T: Copy>(band: HueBand, full: T, partial: T, off: T) -> (rgb: (T, T, T))
    ensures
        rgb == arranged(band, full, partial, off),
{
    match band {
        HueBand::Red => (full, partial, off),
        HueBand::Yellow => (partial, full, off),
        HueBand::Green => (off, full, partial),
        HueBand::Cyan => (off, partial, full),
        HueBand::Blue => (partial, off, full),
        HueBand::Magenta => (full, off, partial),
    }
}

} // verus!
