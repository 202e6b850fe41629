//! The 5×5 dot-matrix font: one glyph for every byte value.

use vstd::prelude::*;

verus! {

/// Rows in a glyph, top row first.
pub const GLYPH_ROWS: usize = 5;

/// Columns in a glyph. Column `c` of a row is bit `c` of that row's byte.
pub const GLYPH_COLS: usize = 5;

/// The font, indexed by byte value. Each entry lists a glyph's rows from top
/// to bottom; the low five bits of a row are its cells.
///
/// Codes 32 to 126 are drawn letterforms. Every other code carries a striped
/// filler pattern, so that any byte can be shown.
pub const FONT_5X5: [[u8; 5]; 256] = [
    [0b11111, 0b00000, 0b11111, 0b00000, 0b11111],  // 0x00
    [0b00000, 0b11111, 0b00000, 0b11111, 0b00000],  // 0x01
    [0b11111, 0b00000, 0b11111, 0b00000, 0b11111],  // 0x02
    [0b00000, 0b11111, 0b00000, 0b11111, 0b00000],  // 0x03
    [0b11111, 0b00000, 0b11111, 0b00000, 0b11111],  // 0x04
    [0b00000, 0b11111, 0b00000, 0b11111, 0b00000],  // 0x05
    [0b11111, 0b00000, 0b11111, 0b00000, 0b11111],  // 0x06
    [0b00000, 0b11111, 0b00000, 0b11111, 0b00000],  // 0x07
    [0b11111, 0b00000, 0b11111, 0b00000, 0b11111],  // 0x08
    [0b00000, 0b11111, 0b00000, 0b11111, 0b00000],  // 0x09
    [0b11111, 0b00000, 0b11111, 0b00000, 0b11111],  // 0x0A
    [0b00000, 0b11111, 0b00000, 0b11111, 0b00000],  // 0x0B
    [0b11111, 0b00000, 0b11111, 0b00000, 0b11111],  // 0x0C
    [0b00000, 0b11111, 0b00000, 0b11111, 0b00000],  // 0x0D
    [0b11111, 0b00000, 0b11111, 0b00000, 0b11111],  // 0x0E
    [0b00000, 0b11111, 0b00000, 0b11111, 0b00000],  // 0x0F
    [0b11111, 0b00000, 0b11111, 0b00000, 0b11111],  // 0x10
    [0b00000, 0b11111, 0b00000, 0b11111, 0b00000],  // 0x11
    [0b11111, 0b00000, 0b11111, 0b00000, 0b11111],  // 0x12
    [0b00000, 0b11111, 0b00000, 0b11111, 0b00000],  // 0x13
    [0b11111, 0b00000, 0b11111, 0b00000, 0b11111],  // 0x14
    [0b00000, 0b11111, 0b00000, 0b11111, 0b00000],  // 0x15
    [0b11111, 0b00000, 0b11111, 0b00000, 0b11111],  // 0x16
    [0b00000, 0b11111, 0b00000, 0b11111, 0b00000],  // 0x17
    [0b11111, 0b00000, 0b11111, 0b00000, 0b11111],  // 0x18
    [0b00000, 0b11111, 0b00000, 0b11111, 0b00000],  // 0x19
    [0b11111, 0b00000, 0b11111, 0b00000, 0b11111],  // 0x1A
    [0b00000, 0b11111, 0b00000, 0b11111, 0b00000],  // 0x1B
    [0b11111, 0b00000, 0b11111, 0b00000, 0b11111],  // 0x1C
    [0b00000, 0b11111, 0b00000, 0b11111, 0b00000],  // 0x1D
    [0b11111, 0b00000, 0b11111, 0b00000, 0b11111],  // 0x1E
    [0b00000, 0b00000, 0b00000, 0b00000, 0b11111],  // 0x1F
    [0b00000, 0b00000, 0b00000, 0b00000, 0b00000],  // space
    [0b00100, 0b00100, 0b00100, 0b00000, 0b00100],  // !
    [0b01010, 0b01010, 0b00000, 0b00000, 0b00000],  // "
    [0b01010, 0b11111, 0b01010, 0b11111, 0b01010],  // #
    [0b00100, 0b01111, 0b10100, 0b01011, 0b00100],  // $
    [0b11001, 0b11010, 0b00100, 0b01011, 0b10011],  // %
    [0b01100, 0b10010, 0b10101, 0b01000, 0b10100],  // &
    [0b00100, 0b00100, 0b00000, 0b00000, 0b00000],  // '
    [0b00010, 0b00100, 0b01000, 0b00100, 0b00010],  // (
    [0b01000, 0b00100, 0b00010, 0b00100, 0b01000],  // )
    [0b00100, 0b10101, 0b01110, 0b10101, 0b00100],  // *
    [0b00000, 0b00100, 0b01110, 0b00100, 0b00000],  // +
    [0b00000, 0b00000, 0b00000, 0b00100, 0b01000],  // ,
    [0b00000, 0b00000, 0b01110, 0b00000, 0b00000],  // -
    [0b00000, 0b00000, 0b00000, 0b00100, 0b00000],  // .
    [0b00001, 0b00010, 0b00100, 0b01000, 0b10000],  // /
    [0b01110, 0b10001, 0b10001, 0b10001, 0b01110],  // 0
    [0b00100, 0b01100, 0b00100, 0b00100, 0b01110],  // 1
    [0b01110, 0b10001, 0b00110, 0b01000, 0b11111],  // 2
    [0b11111, 0b00010, 0b01110, 0b00001, 0b11110],  // 3
    [0b10001, 0b10001, 0b11111, 0b00001, 0b00001],  // 4
    [0b11111, 0b10000, 0b11110, 0b00001, 0b11110],  // 5
    [0b01110, 0b10000, 0b11110, 0b10001, 0b01110],  // 6
    [0b11111, 0b00001, 0b00010, 0b00100, 0b01000],  // 7
    [0b01110, 0b10001, 0b01110, 0b10001, 0b01110],  // 8
    [0b01110, 0b10001, 0b01111, 0b00001, 0b01110],  // 9
    [0b00000, 0b00100, 0b00000, 0b00100, 0b00000],  // :
    [0b00000, 0b00100, 0b00000, 0b00100, 0b01000],  // ;
    [0b00010, 0b00100, 0b01000, 0b00100, 0b00010],  // <
    [0b00000, 0b01110, 0b00000, 0b01110, 0b00000],  // =
    [0b01000, 0b00100, 0b00010, 0b00100, 0b01000],  // >
    [0b01110, 0b10001, 0b00010, 0b00000, 0b00100],  // ?
    [0b01110, 0b10001, 0b10111, 0b10101, 0b01110],  // @
    [0b01110, 0b10001, 0b11111, 0b10001, 0b10001],  // A
    [0b11110, 0b10001, 0b11110, 0b10001, 0b11110],  // B
    [0b01110, 0b10001, 0b10000, 0b10001, 0b01110],  // C
    [0b11100, 0b10010, 0b10001, 0b10010, 0b11100],  // D
    [0b11111, 0b10000, 0b11100, 0b10000, 0b11111],  // E
    [0b11111, 0b10000, 0b11100, 0b10000, 0b10000],  // F
    [0b01110, 0b10001, 0b10000, 0b10100, 0b01110],  // G
    [0b10001, 0b10001, 0b11111, 0b10001, 0b10001],  // H
    [0b01110, 0b00100, 0b00100, 0b00100, 0b01110],  // I
    [0b00111, 0b00010, 0b00010, 0b10010, 0b01100],  // J
    [0b10001, 0b10010, 0b11000, 0b10010, 0b10001],  // K
    [0b10000, 0b10000, 0b10000, 0b10000, 0b11111],  // L
    [0b10001, 0b11011, 0b10101, 0b10001, 0b10001],  // M
    [0b10001, 0b11001, 0b10101, 0b10011, 0b10001],  // N
    [0b01110, 0b10001, 0b10001, 0b10001, 0b01110],  // O
    [0b11110, 0b10001, 0b11110, 0b10000, 0b10000],  // P
    [0b01110, 0b10001, 0b10101, 0b10010, 0b01101],  // Q
    [0b11110, 0b10001, 0b11110, 0b10010, 0b10001],  // R
    [0b01110, 0b10000, 0b01110, 0b00001, 0b01110],  // S
    [0b11111, 0b00100, 0b00100, 0b00100, 0b00100],  // T
    [0b10001, 0b10001, 0b10001, 0b10001, 0b01110],  // U
    [0b10001, 0b10001, 0b01010, 0b01010, 0b00100],  // V
    [0b10001, 0b10001, 0b10101, 0b11011, 0b10001],  // W
    [0b10001, 0b01010, 0b00100, 0b01010, 0b10001],  // X
    [0b10001, 0b10001, 0b01110, 0b00100, 0b00100],  // Y
    [0b11111, 0b00010, 0b00100, 0b01000, 0b11111],  // Z
    [0b01110, 0b01000, 0b01000, 0b01000, 0b01110],  // [
    [0b10000, 0b01000, 0b00100, 0b00010, 0b00001],  // \
    [0b01110, 0b00010, 0b00010, 0b00010, 0b01110],  // ]
    [0b00100, 0b01010, 0b10001, 0b00000, 0b00000],  // ^
    [0b00000, 0b00000, 0b00000, 0b00000, 0b11111],  // _
    [0b00100, 0b00100, 0b00010, 0b00000, 0b00000],  // `
    [0b00000, 0b00110, 0b01000, 0b01110, 0b10001],  // a
    [0b10000, 0b10000, 0b11100, 0b10010, 0b11100],  // b
    [0b00000, 0b01100, 0b10000, 0b10000, 0b01100],  // c
    [0b00010, 0b00010, 0b01110, 0b10010, 0b01110],  // d
    [0b00000, 0b01100, 0b10100, 0b11000, 0b01100],  // e
    [0b00100, 0b01010, 0b01100, 0b01000, 0b01000],  // f
    [0b00000, 0b01110, 0b10010, 0b01110, 0b00010],  // g
    [0b10000, 0b10000, 0b11100, 0b10010, 0b10010],  // h
    [0b00100, 0b00000, 0b00100, 0b00100, 0b00100],  // i
    [0b00010, 0b00000, 0b00010, 0b00010, 0b10010],  // j
    [0b10000, 0b10010, 0b10100, 0b11000, 0b10100],  // k
    [0b00100, 0b00100, 0b00100, 0b00100, 0b00100],  // l
    [0b00000, 0b11010, 0b10101, 0b10101, 0b10101],  // m
    [0b00000, 0b11100, 0b10010, 0b10010, 0b10010],  // n
    [0b00000, 0b01100, 0b10010, 0b10010, 0b01100],  // o
    [0b00000, 0b11100, 0b10010, 0b11100, 0b10000],  // p
    [0b00000, 0b01110, 0b10010, 0b01110, 0b00010],  // q
    [0b00000, 0b10100, 0b11000, 0b10000, 0b10000],  // r
    [0b00000, 0b01100, 0b00100, 0b00010, 0b01100],  // s
    [0b01000, 0b11100, 0b01000, 0b01000, 0b00100],  // t
    [0b00000, 0b10010, 0b10010, 0b10010, 0b01110],  // u
    [0b00000, 0b10001, 0b10001, 0b01010, 0b00100],  // v
    [0b00000, 0b10001, 0b10101, 0b10101, 0b01010],  // w
    [0b00000, 0b10001, 0b01010, 0b01010, 0b10001],  // x
    [0b00000, 0b10010, 0b10010, 0b01110, 0b00010],  // y
    [0b00000, 0b11110, 0b00100, 0b01000, 0b11110],  // z
    [0b00100, 0b01000, 0b01000, 0b01000, 0b00100],  // {
    [0b00100, 0b00100, 0b00000, 0b00100, 0b00100],  // |
    [0b01000, 0b00100, 0b00100, 0b00100, 0b01000],  // }
    [0b00000, 0b00000, 0b01010, 0b10100, 0b00000],  // ~
    [0b10101, 0b10101, 0b10101, 0b10101, 0b10101],  // 0x7F
    [0b01010, 0b01010, 0b01010, 0b01010, 0b01010],  // 0x80
    [0b10101, 0b10101, 0b10101, 0b10101, 0b10101],  // 0x81
    [0b01010, 0b01010, 0b01010, 0b01010, 0b01010],  // 0x82
    [0b10101, 0b10101, 0b10101, 0b10101, 0b10101],  // 0x83
    [0b01010, 0b01010, 0b01010, 0b01010, 0b01010],  // 0x84
    [0b10101, 0b10101, 0b10101, 0b10101, 0b10101],  // 0x85
    [0b01010, 0b01010, 0b01010, 0b01010, 0b01010],  // 0x86
    [0b10101, 0b10101, 0b10101, 0b10101, 0b10101],  // 0x87
    [0b01010, 0b01010, 0b01010, 0b01010, 0b01010],  // 0x88
    [0b10101, 0b10101, 0b10101, 0b10101, 0b10101],  // 0x89
    [0b01010, 0b01010, 0b01010, 0b01010, 0b01010],  // 0x8A
    [0b10101, 0b10101, 0b10101, 0b10101, 0b10101],  // 0x8B
    [0b01010, 0b01010, 0b01010, 0b01010, 0b01010],  // 0x8C
    [0b10101, 0b10101, 0b10101, 0b10101, 0b10101],  // 0x8D
    [0b01010, 0b01010, 0b01010, 0b01010, 0b01010],  // 0x8E
    [0b10101, 0b10101, 0b10101, 0b10101, 0b10101],  // 0x8F
    [0b01010, 0b01010, 0b01010, 0b01010, 0b01010],  // 0x90
    [0b10101, 0b10101, 0b10101, 0b10101, 0b10101],  // 0x91
    [0b01010, 0b01010, 0b01010, 0b01010, 0b01010],  // 0x92
    [0b10101, 0b10101, 0b10101, 0b10101, 0b10101],  // 0x93
    [0b01010, 0b01010, 0b01010, 0b01010, 0b01010],  // 0x94
    [0b10101, 0b10101, 0b10101, 0b10101, 0b10101],  // 0x95
    [0b01010, 0b01010, 0b01010, 0b01010, 0b01010],  // 0x96
    [0b10101, 0b10101, 0b10101, 0b10101, 0b10101],  // 0x97
    [0b01010, 0b01010, 0b01010, 0b01010, 0b01010],  // 0x98
    [0b10101, 0b10101, 0b10101, 0b10101, 0b10101],  // 0x99
    [0b01010, 0b01010, 0b01010, 0b01010, 0b01010],  // 0x9A
    [0b10101, 0b10101, 0b10101, 0b10101, 0b10101],  // 0x9B
    [0b01010, 0b01010, 0b01010, 0b01010, 0b01010],  // 0x9C
    [0b10101, 0b10101, 0b10101, 0b10101, 0b10101],  // 0x9D
    [0b01010, 0b01010, 0b01010, 0b01010, 0b01010],  // 0x9E
    [0b10101, 0b10101, 0b10101, 0b10101, 0b10101],  // 0x9F
    [0b01010, 0b01010, 0b01010, 0b01010, 0b01010],  // 0xA0
    [0b10101, 0b10101, 0b10101, 0b10101, 0b10101],  // 0xA1
    [0b01010, 0b01010, 0b01010, 0b01010, 0b01010],  // 0xA2
    [0b10101, 0b10101, 0b10101, 0b10101, 0b10101],  // 0xA3
    [0b01010, 0b01010, 0b01010, 0b01010, 0b01010],  // 0xA4
    [0b10101, 0b10101, 0b10101, 0b10101, 0b10101],  // 0xA5
    [0b01010, 0b01010, 0b01010, 0b01010, 0b01010],  // 0xA6
    [0b10101, 0b10101, 0b10101, 0b10101, 0b10101],  // 0xA7
    [0b01010, 0b01010, 0b01010, 0b01010, 0b01010],  // 0xA8
    [0b10101, 0b10101, 0b10101, 0b10101, 0b10101],  // 0xA9
    [0b01010, 0b01010, 0b01010, 0b01010, 0b01010],  // 0xAA
    [0b10101, 0b10101, 0b10101, 0b10101, 0b10101],  // 0xAB
    [0b01010, 0b01010, 0b01010, 0b01010, 0b01010],  // 0xAC
    [0b10101, 0b10101, 0b10101, 0b10101, 0b10101],  // 0xAD
    [0b01010, 0b01010, 0b01010, 0b01010, 0b01010],  // 0xAE
    [0b10101, 0b10101, 0b10101, 0b10101, 0b10101],  // 0xAF
    [0b01010, 0b01010, 0b01010, 0b01010, 0b01010],  // 0xB0
    [0b10101, 0b10101, 0b10101, 0b10101, 0b10101],  // 0xB1
    [0b01010, 0b01010, 0b01010, 0b01010, 0b01010],  // 0xB2
    [0b10101, 0b10101, 0b10101, 0b10101, 0b10101],  // 0xB3
    [0b01010, 0b01010, 0b01010, 0b01010, 0b01010],  // 0xB4
    [0b10101, 0b10101, 0b10101, 0b10101, 0b10101],  // 0xB5
    [0b01010, 0b01010, 0b01010, 0b01010, 0b01010],  // 0xB6
    [0b10101, 0b10101, 0b10101, 0b10101, 0b10101],  // 0xB7
    [0b01010, 0b01010, 0b01010, 0b01010, 0b01010],  // 0xB8
    [0b10101, 0b10101, 0b10101, 0b10101, 0b10101],  // 0xB9
    [0b01010, 0b01010, 0b01010, 0b01010, 0b01010],  // 0xBA
    [0b10101, 0b10101, 0b10101, 0b10101, 0b10101],  // 0xBB
    [0b01010, 0b01010, 0b01010, 0b01010, 0b01010],  // 0xBC
    [0b10101, 0b10101, 0b10101, 0b10101, 0b10101],  // 0xBD
    [0b01010, 0b01010, 0b01010, 0b01010, 0b01010],  // 0xBE
    [0b10101, 0b10101, 0b10101, 0b10101, 0b10101],  // 0xBF
    [0b01010, 0b01010, 0b01010, 0b01010, 0b01010],  // 0xC0
    [0b10101, 0b10101, 0b10101, 0b10101, 0b10101],  // 0xC1
    [0b01010, 0b01010, 0b01010, 0b01010, 0b01010],  // 0xC2
    [0b10101, 0b10101, 0b10101, 0b10101, 0b10101],  // 0xC3
    [0b01010, 0b01010, 0b01010, 0b01010, 0b01010],  // 0xC4
    [0b10101, 0b10101, 0b10101, 0b10101, 0b10101],  // 0xC5
    [0b01010, 0b01010, 0b01010, 0b01010, 0b01010],  // 0xC6
    [0b10101, 0b10101, 0b10101, 0b10101, 0b10101],  // 0xC7
    [0b01010, 0b01010, 0b01010, 0b01010, 0b01010],  // 0xC8
    [0b10101, 0b10101, 0b10101, 0b10101, 0b10101],  // 0xC9
    [0b01010, 0b01010, 0b01010, 0b01010, 0b01010],  // 0xCA
    [0b10101, 0b10101, 0b10101, 0b10101, 0b10101],  // 0xCB
    [0b01010, 0b01010, 0b01010, 0b01010, 0b01010],  // 0xCC
    [0b10101, 0b10101, 0b10101, 0b10101, 0b10101],  // 0xCD
    [0b01010, 0b01010, 0b01010, 0b01010, 0b01010],  // 0xCE
    [0b10101, 0b10101, 0b10101, 0b10101, 0b10101],  // 0xCF
    [0b01010, 0b01010, 0b01010, 0b01010, 0b01010],  // 0xD0
    [0b10101, 0b10101, 0b10101, 0b10101, 0b10101],  // 0xD1
    [0b01010, 0b01010, 0b01010, 0b01010, 0b01010],  // 0xD2
    [0b10101, 0b10101, 0b10101, 0b10101, 0b10101],  // 0xD3
    [0b01010, 0b01010, 0b01010, 0b01010, 0b01010],  // 0xD4
    [0b10101, 0b10101, 0b10101, 0b10101, 0b10101],  // 0xD5
    [0b01010, 0b01010, 0b01010, 0b01010, 0b01010],  // 0xD6
    [0b10101, 0b10101, 0b10101, 0b10101, 0b10101],  // 0xD7
    [0b01010, 0b01010, 0b01010, 0b01010, 0b01010],  // 0xD8
    [0b10101, 0b10101, 0b10101, 0b10101, 0b10101],  // 0xD9
    [0b01010, 0b01010, 0b01010, 0b01010, 0b01010],  // 0xDA
    [0b10101, 0b10101, 0b10101, 0b10101, 0b10101],  // 0xDB
    [0b01010, 0b01010, 0b01010, 0b01010, 0b01010],  // 0xDC
    [0b10101, 0b10101, 0b10101, 0b10101, 0b10101],  // 0xDD
    [0b01010, 0b01010, 0b01010, 0b01010, 0b01010],  // 0xDE
    [0b10101, 0b10101, 0b10101, 0b10101, 0b10101],  // 0xDF
    [0b01010, 0b01010, 0b01010, 0b01010, 0b01010],  // 0xE0
    [0b10101, 0b10101, 0b10101, 0b10101, 0b10101],  // 0xE1
    [0b01010, 0b01010, 0b01010, 0b01010, 0b01010],  // 0xE2
    [0b10101, 0b10101, 0b10101, 0b10101, 0b10101],  // 0xE3
    [0b01010, 0b01010, 0b01010, 0b01010, 0b01010],  // 0xE4
    [0b10101, 0b10101, 0b10101, 0b10101, 0b10101],  // 0xE5
    [0b01010, 0b01010, 0b01010, 0b01010, 0b01010],  // 0xE6
    [0b10101, 0b10101, 0b10101, 0b10101, 0b10101],  // 0xE7
    [0b01010, 0b01010, 0b01010, 0b01010, 0b01010],  // 0xE8
    [0b10101, 0b10101, 0b10101, 0b10101, 0b10101],  // 0xE9
    [0b01010, 0b01010, 0b01010, 0b01010, 0b01010],  // 0xEA
    [0b10101, 0b10101, 0b10101, 0b10101, 0b10101],  // 0xEB
    [0b01010, 0b01010, 0b01010, 0b01010, 0b01010],  // 0xEC
    [0b10101, 0b10101, 0b10101, 0b10101, 0b10101],  // 0xED
    [0b01010, 0b01010, 0b01010, 0b01010, 0b01010],  // 0xEE
    [0b10101, 0b10101, 0b10101, 0b10101, 0b10101],  // 0xEF
    [0b01010, 0b01010, 0b01010, 0b01010, 0b01010],  // 0xF0
    [0b10101, 0b10101, 0b10101, 0b10101, 0b10101],  // 0xF1
    [0b01010, 0b01010, 0b01010, 0b01010, 0b01010],  // 0xF2
    [0b10101, 0b10101, 0b10101, 0b10101, 0b10101],  // 0xF3
    [0b01010, 0b01010, 0b01010, 0b01010, 0b01010],  // 0xF4
    [0b10101, 0b10101, 0b10101, 0b10101, 0b10101],  // 0xF5
    [0b01010, 0b01010, 0b01010, 0b01010, 0b01010],  // 0xF6
    [0b10101, 0b10101, 0b10101, 0b10101, 0b10101],  // 0xF7
    [0b01010, 0b01010, 0b01010, 0b01010, 0b01010],  // 0xF8
    [0b10101, 0b10101, 0b10101, 0b10101, 0b10101],  // 0xF9
    [0b01010, 0b01010, 0b01010, 0b01010, 0b01010],  // 0xFA
    [0b10101, 0b10101, 0b10101, 0b10101, 0b10101],  // 0xFB
    [0b01010, 0b01010, 0b01010, 0b01010, 0b01010],  // 0xFC
    [0b10101, 0b10101, 0b10101, 0b10101, 0b10101],  // 0xFD
    [0b01010, 0b01010, 0b01010, 0b01010, 0b01010],  // 0xFE
    [0b11111, 0b11111, 0b11111, 0b11111, 0b11111],  // 0xFF
];

/// A character's on/off mask: five rows of five cells.
#[derive(Clone, Copy, Debug, PartialEq, Eq)]
pub struct Glyph {
    pub rows: [u8; 5],
}

/// Whether cell `col` is on in a row with bit pattern `bits`.
pub open spec fn bit_set(bits: u8, col: int) -> bool {
    bits & (1u8 << col) != 0
}

/// Cell `col` of a row is the binary digit of weight `2^col` in its byte.
pub proof fn lemma_bit_set_is_binary_digit(bits: u8)
    ensures
        bit_set(bits, 0) <==> bits % 2 == 1,
        bit_set(bits, 1) <==> (bits / 2) % 2 == 1,
        bit_set(bits, 2) <==> (bits / 4) % 2 == 1,
        bit_set(bits, 3) <==> (bits / 8) % 2 == 1,
        bit_set(bits, 4) <==> (bits / 16) % 2 == 1,
{
    assert((bits & (1u8 << 0int) != 0) <==> bits % 2 == 1) by (bit_vector);
    assert((bits & (1u8 << 1int) != 0) <==> (bits / 2) % 2 == 1) by (bit_vector);
    assert((bits & (1u8 << 2int) != 0) <==> (bits / 4) % 2 == 1) by (bit_vector);
    assert((bits & (1u8 << 3int) != 0) <==> (bits / 8) % 2 == 1) by (bit_vector);
    assert((bits & (1u8 << 4int) != 0) <==> (bits / 16) % 2 == 1) by (bit_vector);
}

impl View for Glyph {
    type V = Seq<u8>;

    /// The rows, top first.
    open spec fn view(&self) -> Seq<u8> {
        self.rows@
    }
}

impl Glyph {
    /// Whether the cell in row `row` (0 is the top) and column `col` is on.
    pub open spec fn lit(self, row: int, col: int) -> bool {
        bit_set(self.rows[row], col)
    }

    /// A glyph is well formed when no row uses a bit beyond its five cells.
    pub open spec fn wf(self) -> bool {
        forall|row: int| 0 <= row < GLYPH_ROWS ==> #[trigger] self.rows[row] < 32
    }
}

/// The rows that the font holds for `code`.
pub open spec fn font_rows(code: u8) -> Seq<u8> {
    FONT_5X5[code as int]@
}

/// Whether `code` has a drawn letterform rather than a filler pattern.
pub open spec fn is_printable(code: u8) -> bool {
    32 <= code <= 126
}

/// The stripes that stand in for a code without a letterform.
///
/// Control codes alternate between two patterns of horizontal bars, the codes
/// from 127 up between two patterns of vertical bars; code 31 is a single
/// bottom bar and code 255 a full block.
pub open spec fn filler_rows(code: u8) -> Seq<u8> {
    if code < 31 {
        if code % 2 == 0 {
            seq![0b11111u8, 0b00000, 0b11111, 0b00000, 0b11111]
        } else {
            seq![0b00000u8, 0b11111, 0b00000, 0b11111, 0b00000]
        }
    } else if code == 31 {
        seq![0b00000u8, 0b00000, 0b00000, 0b00000, 0b11111]
    } else if code == 255 {
        seq![0b11111u8, 0b11111, 0b11111, 0b11111, 0b11111]
    } else if code % 2 == 1 {
        seq![0b10101u8, 0b10101, 0b10101, 0b10101, 0b10101]
    } else {
        seq![0b01010u8, 0b01010, 0b01010, 0b01010, 0b01010]
    }
}

/// Every glyph of the font keeps to its five columns.
pub proof fn lemma_font_well_formed(code: u8)
    ensures
        font_rows(code).len() == GLYPH_ROWS,
        forall|row: int| 0 <= row < GLYPH_ROWS ==> #[trigger] font_rows(code)[row] < 32,
{
    let rows = FONT_5X5[code as int];
    assert(rows[0] < 32 && rows[1] < 32 && rows[2] < 32 && rows[3] < 32 && rows[4] < 32);
}

/// A code without a letterform shows its filler stripes.
pub proof fn lemma_filler_glyphs(code: u8)
    requires
        !is_printable(code),
    ensures
        font_rows(code) == filler_rows(code),
{
}

/// Looks up the glyph for `code`. Every byte value has one.
pub fn lookup(code: u8) -> (glyph: Glyph)
    ensures
        glyph@ == font_rows(code),
        glyph.wf(),
{
    proof {
        lemma_font_well_formed(code);
    }
    Glyph { rows: FONT_5X5[code as usize] }
}

} // verus!
