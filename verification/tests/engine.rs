use led_banner::engine::{char_index, Animation, DEFAULT_BRIGHTNESS, DEFAULT_DWELL_TICKS, TICK_MILLIS};
use led_banner::font::lookup;
use led_banner::pixel::{Pixel, STRIP_LEN};

const BANNER: &[u8] = b"* WHAT'S UP, WORLD? * ";
const WHITE: Pixel = Pixel { r: 255, g: 255, b: 255 };
const BLACK: Pixel = Pixel { r: 0, g: 0, b: 0 };

fn is_lit(code: u8, position: usize) -> bool {
    lookup(code).rows[4 - position / 5] >> (position % 5) & 1 == 1
}

#[test]
fn defaults() {
    assert_eq!(DEFAULT_DWELL_TICKS, 30);
    assert_eq!(DEFAULT_BRIGHTNESS, 1);
    assert_eq!(TICK_MILLIS, 16);
    assert_eq!(STRIP_LEN, 25);
}

#[test]
fn char_index_is_ticks_over_dwell_modulo_length() {
    assert_eq!(char_index(0, 30, 22), 0);
    assert_eq!(char_index(29, 30, 22), 0);
    assert_eq!(char_index(30, 30, 22), 1);
    assert_eq!(char_index(59, 30, 22), 1);
    assert_eq!(char_index(60, 30, 22), 2);
    assert_eq!(char_index(659, 30, 22), 21);
    assert_eq!(char_index(660, 30, 22), 0);
    assert_eq!(char_index(1000, 30, 22), 11);
    assert_eq!(char_index(7, 1, 3), 1);
    assert_eq!(char_index(12345, 30, 1), 0);
}

#[test]
fn char_index_returns_to_zero_exactly_every_pass() {
    for len in [1usize, 2, 5, 22] {
        let pass = 30 * len;
        for tick in 0..4 * pass {
            let index = char_index(tick, 30, len);
            assert_eq!(index == 0, tick % pass < 30, "len {} tick {}", len, tick);
            assert_eq!(index, char_index(tick + pass, 30, len));
        }
    }
}

#[test]
fn char_index_visits_every_index_in_order() {
    let len = BANNER.len();
    let mut seen = Vec::new();
    for tick in 0..30 * len {
        let index = char_index(tick, 30, len);
        if seen.last() != Some(&index) {
            seen.push(index);
        }
    }
    let in_order: Vec<usize> = (0..len).collect();
    assert_eq!(seen, in_order);
}

#[test]
fn char_index_moves_by_one_step_at_a_time() {
    for tick in 0..2000usize {
        let here = char_index(tick, 30, 22);
        let next = char_index(tick + 1, 30, 22);
        if (tick + 1) % 30 == 0 {
            assert_eq!(next, (here + 1) % 22);
        } else {
            assert_eq!(next, here);
        }
    }
}

#[test]
fn char_index_at_the_largest_tick_count() {
    let last = usize::MAX;
    assert_eq!(char_index(last, 30, 22), last / 30 % 22);
    assert!(char_index(last, 1, 22) < 22);
}

#[test]
fn a_new_animation_starts_at_the_first_character() {
    let anim = Animation::new(BANNER, 30, 1);
    assert_eq!(anim.iteration(), 0);
    assert_eq!(anim.char_index(), 0);
    assert_eq!(anim.current_symbol(), b'*');
    assert_eq!(anim.message(), BANNER);
    assert_eq!(anim.dwell_ticks(), 30);
    assert_eq!(anim.brightness(), 1);
    assert_eq!(*anim.frame(), [Pixel { r: 0, g: 128, b: 0 }; STRIP_LEN]);
}

#[test]
fn a_tick_emits_the_glyph_in_the_scaled_colour_on_black() {
    let mut anim = Animation::new(b"A", 30, 128);
    let fg = Pixel { r: 255, g: 100, b: 3 };
    let emitted = anim.tick(fg);
    for i in 0..STRIP_LEN {
        let expected = if is_lit(b'A', i) { Pixel { r: 127, g: 50, b: 1 } } else { BLACK };
        assert_eq!(emitted[i], expected, "position {}", i);
    }
}

#[test]
fn a_tick_keeps_the_unscaled_strip() {
    let mut anim = Animation::new(b"A", 30, 128);
    let fg = Pixel { r: 255, g: 100, b: 3 };
    anim.tick(fg);
    for i in 0..STRIP_LEN {
        let expected = if is_lit(b'A', i) { fg } else { BLACK };
        assert_eq!(anim.frame()[i], expected, "position {}", i);
    }
}

#[test]
fn at_the_default_brightness_every_emitted_channel_is_zero() {
    let mut anim = Animation::new(BANNER, DEFAULT_DWELL_TICKS, DEFAULT_BRIGHTNESS);
    for _ in 0..100 {
        assert_eq!(anim.tick(WHITE), [BLACK; STRIP_LEN]);
    }
}

#[test]
fn a_tick_counts_and_moves_on_after_the_dwell_time() {
    let mut anim = Animation::new(BANNER, 30, 255);
    for tick in 0..3 * 30 * BANNER.len() {
        assert_eq!(anim.iteration(), tick);
        assert_eq!(anim.char_index(), tick / 30 % BANNER.len());
        assert_eq!(anim.current_symbol(), BANNER[tick / 30 % BANNER.len()]);
        anim.tick(WHITE);
    }
    assert_eq!(anim.char_index(), 0);
}

#[test]
fn the_banner_scrolls_by_character_by_character() {
    let mut anim = Animation::new(BANNER, 2, 255);
    let mut shown = Vec::new();
    for _ in 0..BANNER.len() {
        shown.push(anim.current_symbol());
        let first = anim.tick(WHITE);
        let second = anim.tick(WHITE);
        assert_eq!(first, second);
    }
    assert_eq!(shown, BANNER);
    assert_eq!(anim.current_symbol(), b'*');
}

#[test]
fn each_tick_shows_the_character_that_was_current() {
    let mut anim = Animation::new(b"LT", 1, 255);
    let bright = Pixel { r: 254, g: 254, b: 254 };
    let first = anim.tick(WHITE);
    let second = anim.tick(WHITE);
    let third = anim.tick(WHITE);
    for i in 0..STRIP_LEN {
        assert_eq!(first[i], if is_lit(b'L', i) { bright } else { BLACK });
        assert_eq!(second[i], if is_lit(b'T', i) { bright } else { BLACK });
    }
    assert_eq!(first, third);
}

#[test]
fn compose_paints_without_counting() {
    let mut anim = Animation::new(b"_", 30, 255);
    anim.compose(WHITE);
    assert_eq!(anim.iteration(), 0);
    for i in 0..STRIP_LEN {
        assert_eq!(anim.frame()[i], if i < 5 { WHITE } else { BLACK });
    }
}

#[test]
fn advance_counts_without_painting() {
    let mut anim = Animation::new(b"ab", 3, 255);
    let before = *anim.frame();
    for tick in 1..=12usize {
        anim.advance();
        assert_eq!(anim.iteration(), tick);
        assert_eq!(anim.char_index(), tick / 3 % 2);
    }
    assert_eq!(*anim.frame(), before);
}

#[test]
fn the_foreground_colour_can_change_from_tick_to_tick() {
    let mut anim = Animation::new(b"#", 30, 255);
    let red = anim.tick(Pixel { r: 255, g: 0, b: 0 });
    let cyan = anim.tick(Pixel { r: 0, g: 255, b: 255 });
    for i in 0..STRIP_LEN {
        if is_lit(b'#', i) {
            assert_eq!(red[i], Pixel { r: 254, g: 0, b: 0 });
            assert_eq!(cyan[i], Pixel { r: 0, g: 254, b: 254 });
        } else {
            assert_eq!(red[i], BLACK);
            assert_eq!(cyan[i], BLACK);
        }
    }
}

#[test]
fn bytes_outside_ascii_are_shown_as_filler() {
    let message = [0u8, 200, 255];
    let mut anim = Animation::new(&message, 1, 255);
    let bright = Pixel { r: 254, g: 254, b: 254 };
    for code in message {
        let emitted = anim.tick(WHITE);
        for i in 0..STRIP_LEN {
            assert_eq!(emitted[i], if is_lit(code, i) { bright } else { BLACK });
        }
    }
}
