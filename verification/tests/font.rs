use led_banner::font::{lookup, Glyph, FONT_5X5, GLYPH_COLS, GLYPH_ROWS};

#[test]
fn every_byte_has_a_well_formed_glyph() {
    for code in 0..=255u8 {
        let glyph = lookup(code);
        assert_eq!(glyph.rows.len(), 5);
        for row in glyph.rows {
            assert!(row < 32, "code {} uses a bit beyond its five cells", code);
        }
    }
}

#[test]
fn glyph_is_five_by_five() {
    assert_eq!(GLYPH_ROWS, 5);
    assert_eq!(GLYPH_COLS, 5);
    assert_eq!(FONT_5X5.len(), 256);
}

#[test]
fn lookup_reads_the_table() {
    for code in 0..=255u8 {
        assert_eq!(lookup(code), Glyph { rows: FONT_5X5[code as usize] });
    }
}

#[test]
fn space_is_blank() {
    assert_eq!(lookup(b' ').rows, [0, 0, 0, 0, 0]);
}

#[test]
fn letterforms_of_some_printable_characters() {
    assert_eq!(lookup(b'A').rows, [0b01110, 0b10001, 0b11111, 0b10001, 0b10001]);
    assert_eq!(lookup(b'W').rows, [0b10001, 0b10001, 0b10101, 0b11011, 0b10001]);
    assert_eq!(lookup(b'?').rows, [0b01110, 0b10001, 0b00010, 0b00000, 0b00100]);
    assert_eq!(lookup(b'*').rows, [0b00100, 0b10101, 0b01110, 0b10101, 0b00100]);
    assert_eq!(lookup(b'0').rows, [0b01110, 0b10001, 0b10001, 0b10001, 0b01110]);
    assert_eq!(lookup(b'z').rows, [0b00000, 0b11110, 0b00100, 0b01000, 0b11110]);
    assert_eq!(lookup(b'!').rows, [0b00100, 0b00100, 0b00100, 0b00000, 0b00100]);
    assert_eq!(lookup(b'~').rows, [0b00000, 0b00000, 0b01010, 0b10100, 0b00000]);
}

#[test]
fn control_codes_show_horizontal_bars() {
    for code in 0..31u8 {
        let expected = if code % 2 == 0 {
            [0b11111, 0b00000, 0b11111, 0b00000, 0b11111]
        } else {
            [0b00000, 0b11111, 0b00000, 0b11111, 0b00000]
        };
        assert_eq!(lookup(code).rows, expected, "code {}", code);
    }
    assert_eq!(lookup(31).rows, [0b00000, 0b00000, 0b00000, 0b00000, 0b11111]);
}

#[test]
fn codes_from_127_show_vertical_bars() {
    for code in 127..255u8 {
        let expected = if code % 2 == 1 { [0b10101; 5] } else { [0b01010; 5] };
        assert_eq!(lookup(code).rows, expected, "code {}", code);
    }
    assert_eq!(lookup(255).rows, [0b11111; 5]);
}

#[test]
fn first_and_last_printable_codes_are_letterforms() {
    assert_eq!(lookup(32).rows, [0; 5]);
    assert_eq!(lookup(126).rows, [0b00000, 0b00000, 0b01010, 0b10100, 0b00000]);
    assert_ne!(lookup(126).rows, [0b01010; 5]);
    assert_ne!(lookup(32).rows, [0b11111, 0b00000, 0b11111, 0b00000, 0b11111]);
}
