use quadigit_phat::fonts::mask::{DIGIT_EIGHT, LETTER_T, QUESTION_MARK};
use quadigit_phat::{ascii, ascii_iter, try_ascii, Char, Error};

#[test]
fn every_printable_byte_has_a_mask() {
    for c in 0x20u8..=0x7e {
        assert_eq!(try_ascii(c), Some(ascii(c)));
        // looking the same byte up twice gives the same mask
        assert_eq!(ascii(c), ascii(c));
    }
}

#[test]
fn strict_lookup_rejects_unprintable_bytes() {
    assert_eq!(try_ascii(0x00), None);
    assert_eq!(try_ascii(0x1f), None);
    assert_eq!(try_ascii(0x7f), None);
    assert_eq!(try_ascii(0xff), None);
}

#[test]
fn unmapped_bytes_fall_back_to_question_mark() {
    assert_eq!(ascii(0x00), QUESTION_MARK);
    assert_eq!(ascii(0x1f), QUESTION_MARK);
    assert_eq!(ascii(0x7f), QUESTION_MARK);
    assert_eq!(ascii(0xff), QUESTION_MARK);
    assert_eq!(ascii(b'?'), QUESTION_MARK);
}

#[test]
fn known_masks_match_the_table() {
    assert_eq!(ascii(b'8'), DIGIT_EIGHT);
    assert_eq!(ascii(b'T'), LETTER_T);
    assert_eq!(ascii(b' '), 0);
}

#[test]
fn ascii_iter_maps_elementwise() {
    assert_eq!(
        ascii_iter("T8?".as_bytes()),
        vec![LETTER_T, DIGIT_EIGHT, QUESTION_MARK]
    );
    assert_eq!(ascii_iter(&[]), Vec::<u16>::new());
}

#[test]
fn every_printable_char_has_a_glyph_pair() {
    for b in 0x20u8..=0x7e {
        let c = b as char;
        assert_eq!(Char::checked_from(c), Ok(Char::from_char(c)));
        // looking the same character up twice gives the same pair
        assert_eq!(Char::from_char(c), Char::from_char(c));
    }
}

#[test]
fn checked_glyph_lookup_names_the_offender() {
    assert_eq!(
        Char::checked_from('\n'),
        Err(Error::NoMapping { character: '\n' })
    );
    assert_eq!(
        Char::checked_from('\u{e9}'),
        Err(Error::NoMapping { character: '\u{e9}' })
    );
}

#[test]
fn unmapped_chars_fall_back_to_question_mark() {
    assert_eq!(Char::from_char('\n'), Char::from_char('?'));
    assert_eq!(Char::from_char('\u{e9}'), Char::from_char('?'));
    assert_eq!(Char::from_char('\u{1f600}'), Char::from_char('?'));
}
