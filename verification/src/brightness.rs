//! Brightness scaling: every channel is multiplied by a numerator over 256 and
//! rounded down, which caps the current that the strip can draw.

use vstd::prelude::*;
use crate::pixel::{Pixel, STRIP_LEN};

verus! {

/// A channel of value `c` scaled by `numerator / 256`, rounded down.
pub open spec fn scaled_channel(c: u8, numerator: u8) -> int {
    (c as int * numerator as int) / 256
}

/// A pixel with each of its channels scaled by `numerator / 256`.
pub open spec fn scaled_pixel(p: Pixel, numerator: u8) -> Pixel {
    Pixel {
        r: scaled_channel(p.r, numerator) as u8,
        g: scaled_channel(p.g, numerator) as u8,
        b: scaled_channel(p.b, numerator) as u8,
    }
}

/// A strip with every pixel scaled by `numerator / 256`.
pub open spec fn scaled_frame(frame: Seq<Pixel>, numerator: u8) -> Seq<Pixel> {
    Seq::new(frame.len(), |i: int| scaled_pixel(frame[i], numerator))
}

/// Scaling only darkens. A lit channel comes out strictly darker than it went
/// in and strictly below the numerator: the remainder is dropped, so even a
/// full channel does not reach the numerator, and numerator 1 gives 0.
pub proof fn lemma_scaled_channel_bounds(c: u8, numerator: u8)
    ensures
        0 <= scaled_channel(c, numerator) <= c,
        scaled_channel(c, numerator) <= numerator,
        c > 0 ==> scaled_channel(c, numerator) < c,
        numerator > 0 ==> scaled_channel(c, numerator) < numerator,
{
    let scaled = (c as int * numerator as int) / 256;
    assert(0 <= scaled <= c && scaled <= numerator && (c > 0 ==> scaled < c) && (numerator > 0
        ==> scaled < numerator)) by (nonlinear_arith)
        requires
            0 <= c < 256,
            0 <= numerator < 256,
            scaled == (c as int * numerator as int) / 256,
    ;
}

/// Scaling keeps order: a brighter channel or a larger numerator never gives
/// a darker result.
pub proof fn lemma_scaling_monotonic(c1: u8, c2: u8, n1: u8, n2: u8)
    requires
        c1 <= c2,
        n1 <= n2,
    ensures
        scaled_channel(c1, n1) <= scaled_channel(c2, n2),
{
    assert((c1 as int * n1 as int) / 256 <= (c2 as int * n2 as int) / 256) by (nonlinear_arith)
        requires
            0 <= c1 <= c2,
            0 <= n1 <= n2,
    ;
}

/// Dims one pixel with `smart_leds::brightness`, which multiplies each channel
/// by `level + 1`, divides by 256 and drops the remainder. The product is
/// formed in 16 bits, where it always fits.
#[verifier::external_body]
fn dim_to_level(p: Pixel, level: u8) -> (q: Pixel)
    ensures
        q.r as int == p.r as int * (level as int + 1) / 256,
        q.g as int == p.g as int * (level as int + 1) / 256,
        q.b as int == p.b as int * (level as int + 1) / 256,
{
    let source = core::iter::once(smart_leds::RGB8 { r: p.r, g: p.g, b: p.b });
    let c = smart_leds::brightness(source, level).next().unwrap();
    Pixel { r: c.r, g: c.g, b: c.b }
}

/// Scales each channel of `p` by `numerator / 256`, rounding down.
///
/// The dimmer counts its levels from one 256th, so numerator `n` is its level
/// `n - 1`; it has no level for numerator 0, which is black.
pub fn scale_pixel(p: Pixel, numerator: u8) -> (q: Pixel)
    ensures
        q == scaled_pixel(p, numerator),
{
    proof {
        lemma_scaled_channel_bounds(p.r, numerator);
        lemma_scaled_channel_bounds(p.g, numerator);
        lemma_scaled_channel_bounds(p.b, numerator);
    }
    if numerator == 0 {
        Pixel::black()
    } else {
        dim_to_level(p, numerator - 1)
    }
}

/// Returns the strip with every pixel scaled by `numerator / 256`.
pub fn scale_frame(frame: &[Pixel; STRIP_LEN], numerator: u8) -> (out: [Pixel; STRIP_LEN])
    ensures
        out@ == scaled_frame(frame@, numerator),
{
    let mut out: [Pixel; STRIP_LEN] = *frame;
    let mut i: usize = 0;
    while i < STRIP_LEN
        invariant
            i <= STRIP_LEN,
            forall|j: int| 0 <= j < i ==> out@[j] == scaled_pixel(frame@[j], numerator),
        decreases STRIP_LEN - i,
    {
        out[i] = scale_pixel(frame[i], numerator);
        i += 1;
    }
    out
}

} // verus!
