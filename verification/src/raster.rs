//! Painting a glyph onto the strip.
//!
//! The matrix is wired bottom row first: the strip's first five LEDs are the
//! glyph's last row, the next five the row above it, and so on. Within a row
//! the LEDs follow the columns in ascending order.

use vstd::prelude::*;
use crate::font::{bit_set, font_rows, lookup, Glyph, GLYPH_COLS, GLYPH_ROWS};
use crate::pixel::{Pixel, STRIP_LEN};

verus! {

/// The glyph row shown by the LED at strip position `i`.
pub open spec fn cell_row(i: int) -> int {
    GLYPH_ROWS - 1 - i / (GLYPH_COLS as int)
}

/// The glyph column shown by the LED at strip position `i`.
pub open spec fn cell_col(i: int) -> int {
    i % (GLYPH_COLS as int)
}

/// Whether a glyph with the given rows lights the LED at strip position `i`.
pub open spec fn cell_lit(rows: Seq<u8>, i: int) -> bool {
    bit_set(rows[cell_row(i)], cell_col(i))
}

/// The colour of one LED after painting: the foreground where the glyph is
/// lit; elsewhere the background, or what was there if there is none.
pub open spec fn painted_cell(before: Pixel, lit: bool, fg: Pixel, bg: Option<Pixel>) -> Pixel {
    if lit {
        fg
    } else {
        match bg {
            Some(fill) => fill,
            None => before,
        }
    }
}

/// The strip after a glyph with the given rows is painted over `before`.
pub open spec fn painted(before: Seq<Pixel>, rows: Seq<u8>, fg: Pixel, bg: Option<Pixel>) -> Seq<
    Pixel,
> {
    Seq::new(before.len(), |i: int| painted_cell(before[i], cell_lit(rows, i), fg, bg))
}

/// Paints `glyph` onto the strip in colour `fg`.
///
/// With a background, every LED is overwritten. Without one, the LEDs where
/// the glyph is off keep their colour, so glyphs can be laid over each other.
pub fn paint_glyph(leds: &mut [Pixel; STRIP_LEN], glyph: &Glyph, fg: Pixel, bg: Option<Pixel>)
    ensures
        final(leds)@ == painted(old(leds)@, glyph@, fg, bg),
{
    let mut led_idx: usize = 0;
    let mut line: usize = GLYPH_ROWS;
    while line > 0
        invariant
            line <= GLYPH_ROWS,
            led_idx == (GLYPH_ROWS - line) * GLYPH_COLS,
            forall|i: int| 0 <= i < led_idx ==> leds@[i] == painted(old(leds)@, glyph@, fg, bg)[i],
            forall|i: int| led_idx <= i < STRIP_LEN ==> leds@[i] == old(leds)@[i],
        decreases line,
    {
        line -= 1;
        let scan_line: u8 = glyph.rows[line];
        let mut pixel_idx: usize = 0;
        while pixel_idx < GLYPH_COLS
            invariant
                line < GLYPH_ROWS,
                pixel_idx <= GLYPH_COLS,
                scan_line == glyph@[line as int],
                led_idx == (GLYPH_ROWS - 1 - line) * GLYPH_COLS + pixel_idx,
                forall|i: int|
                    0 <= i < led_idx ==> leds@[i] == painted(old(leds)@, glyph@, fg, bg)[i],
                forall|i: int| led_idx <= i < STRIP_LEN ==> leds@[i] == old(leds)@[i],
            decreases GLYPH_COLS - pixel_idx,
        {
            assert(cell_row(led_idx as int) == line && cell_col(led_idx as int) == pixel_idx);
            if scan_line & (1u8 << pixel_idx) != 0 {
                leds[led_idx] = fg;
            } else if let Some(fill) = bg {
                leds[led_idx] = fill;
            }
            led_idx += 1;
            pixel_idx += 1;
        }
    }
}

/// Paints the font's glyph for `ascii_sym` onto the strip in colour `fg_color`.
///
/// Where the glyph is on, the LED takes `fg_color`. Where it is off, the LED
/// takes `bg_color` if there is one and is left as it was otherwise.
pub fn render_ascii(
    leds: &mut [Pixel; STRIP_LEN],
    ascii_sym: u8,
    fg_color: Pixel,
    bg_color: Option<Pixel>,
)
    ensures
        final(leds)@ == painted(old(leds)@, font_rows(ascii_sym), fg_color, bg_color),
        forall|i: int|
            0 <= i < STRIP_LEN && cell_lit(font_rows(ascii_sym), i) ==> final(leds)@[i] == fg_color,
        forall|i: int|
            0 <= i < STRIP_LEN && !cell_lit(font_rows(ascii_sym), i) ==> final(leds)@[i] == (
            match bg_color {
                Some(fill) => fill,
                None => old(leds)@[i],
            }),
{
    let glyph = lookup(ascii_sym);
    paint_glyph(leds, &glyph, fg_color, bg_color);
}

} // verus!
