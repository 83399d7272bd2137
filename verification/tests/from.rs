#![allow(non_snake_case)]

use quadigit_phat::{Char, Text};

#[test]
fn test_from() {
    let TEST = [
        0b0000_0001,
        0b0001_0010,
        0b1111_1001,
        0b0000_0000,
        0b1110_1101,
        0b0000_0000,
        0b0000_0001,
        0b0001_0010,
    ];

    // Only the first 4 characters fit
    assert_eq!(
        Text::from_chars(&['T', 'E', 'S', 'T', 'I', 'N', 'G', ' ', 'S', 'L', 'I', 'C', 'E']),
        Text::from_chars(&['T', 'E', 'S', 'T'])
    );
    assert_eq!(Text::from_char('T').get(0), Char::from_char('T'));
    assert_eq!(Text::from_str("TEST").to_bytes(), TEST);
}

#[test]
fn short_text_pads_with_blanks() {
    let t = Text::from_str("AB");
    assert_eq!(t.get(0), Char::from_char('A'));
    assert_eq!(t.get(1), Char::from_char('B'));
    assert_eq!(t.get(2), Char::default());
    assert_eq!(t.get(3), Char::default());
}

#[test]
fn set_replaces_one_position() {
    let mut t = Text::from_str("TEST");
    t.set(2, Char::from_char('X'));
    assert_eq!(t.get(0), Char::from_char('T'));
    assert_eq!(t.get(1), Char::from_char('E'));
    assert_eq!(t.get(2), Char::from_char('X'));
    assert_eq!(t.get(3), Char::from_char('T'));
}

#[test]
fn glyph_pair_round_trip() {
    let c = Char::from_pair([0b0000_0001, 0b0001_0010]);
    assert_eq!(c, Char::from_char('T'));
    assert_eq!(c.index(0), 0b0000_0001);
    assert_eq!(c.index(1), 0b0001_0010);
    assert_eq!(c.to_pair(), [0b0000_0001, 0b0001_0010]);
}

#[test]
fn text_from_single_glyph() {
    let t = Text::from_glyph(Char::from_char('Q'));
    assert_eq!(t.get(0), Char::from_char('Q'));
    assert_eq!(t.get(1), Char::default());
}
