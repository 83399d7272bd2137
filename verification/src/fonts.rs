//! The glyph table: printable ASCII characters as 16-bit segment masks.
//!
//! Every character in the printable range `0x20..=0x7E` has exactly one
//! entry; anything outside that range falls back to the mask of `'?'`.  The
//! table is total, so the hot display-update path never has to handle a
//! per-character error; [`try_ascii`] is the strict variant for callers that
//! want one.

pub mod mask;

use vstd::prelude::*;

verus! {

/// Whether a byte lies in the printable ASCII range covered by the table.
pub open spec fn is_printable(c: u8) -> bool {
    0x20 <= c <= 0x7e
}

/// The segment mask of a byte: its table entry, or the mask of `'?'` for
/// bytes outside the printable range.
pub open spec fn glyph_mask(c: u8) -> u16 {
    match c {
        0x20 => mask::SPACE,
        0x21 => mask::EXCLAMATION_POINT,
        0x22 => mask::QUOTATION_MARK,
        0x23 => mask::NUMBER_SIGN,
        0x24 => mask::DOLLAR_SIGN,
        0x25 => mask::PERCENT_SIGN,
        0x26 => mask::AMPERSAND,
        0x27 => mask::APOSTROPHE,
        0x28 => mask::LEFT_PARENTHESIS,
        0x29 => mask::RIGHT_PARENTHESIS,
        0x2a => mask::ASTERISK,
        0x2b => mask::PLUS_SIGN,
        0x2c => mask::COMMA,
        0x2d => mask::HYPHEN_MINUS,
        0x2e => mask::PERIOD,
        0x2f => mask::SLASH,
        0x30 => mask::DIGIT_ZERO,
        0x31 => mask::DIGIT_ONE,
        0x32 => mask::DIGIT_TWO,
        0x33 => mask::DIGIT_THREE,
        0x34 => mask::DIGIT_FOUR,
        0x35 => mask::DIGIT_FIVE,
        0x36 => mask::DIGIT_SIX,
        0x37 => mask::DIGIT_SEVEN,
        0x38 => mask::DIGIT_EIGHT,
        0x39 => mask::DIGIT_NINE,
        0x3a => mask::COLON,
        0x3b => mask::SEMI_COLON,
        0x3c => mask::LESS_THAN_SIGN,
        0x3d => mask::EQUALS_SIGN,
        0x3e => mask::GREATER_THAN_SIGN,
        0x3f => mask::QUESTION_MARK,
        0x40 => mask::AT_SIGN,
        0x41 => mask::LETTER_A,
        0x42 => mask::LETTER_B,
        0x43 => mask::LETTER_C,
        0x44 => mask::LETTER_D,
        0x45 => mask::LETTER_E,
        0x46 => mask::LETTER_F,
        0x47 => mask::LETTER_G,
        0x48 => mask::LETTER_H,
        0x49 => mask::LETTER_I,
        0x4a => mask::LETTER_J,
        0x4b => mask::LETTER_K,
        0x4c => mask::LETTER_L,
        0x4d => mask::LETTER_M,
        0x4e => mask::LETTER_N,
        0x4f => mask::LETTER_O,
        0x50 => mask::LETTER_P,
        0x51 => mask::LETTER_Q,
        0x52 => mask::LETTER_R,
        0x53 => mask::LETTER_S,
        0x54 => mask::LETTER_T,
        0x55 => mask::LETTER_U,
        0x56 => mask::LETTER_V,
        0x57 => mask::LETTER_W,
        0x58 => mask::LETTER_X,
        0x59 => mask::LETTER_Y,
        0x5a => mask::LETTER_Z,
        0x5b => mask::LEFT_SQUARE_BRACKET,
        0x5c => mask::BACKSLASH,
        0x5d => mask::RIGHT_SQUARE_BRACKET,
        0x5e => mask::CARET,
        0x5f => mask::UNDERSCORE,
        0x60 => mask::GRAVE_ACCENT,
        0x61 => mask::SMALL_LETTER_A,
        0x62 => mask::SMALL_LETTER_B,
        0x63 => mask::SMALL_LETTER_C,
        0x64 => mask::SMALL_LETTER_D,
        0x65 => mask::SMALL_LETTER_E,
        0x66 => mask::SMALL_LETTER_F,
        0x67 => mask::SMALL_LETTER_G,
        0x68 => mask::SMALL_LETTER_H,
        0x69 => mask::SMALL_LETTER_I,
        0x6a => mask::SMALL_LETTER_J,
        0x6b => mask::SMALL_LETTER_K,
        0x6c => mask::SMALL_LETTER_L,
        0x6d => mask::SMALL_LETTER_M,
        0x6e => mask::SMALL_LETTER_N,
        0x6f => mask::SMALL_LETTER_O,
        0x70 => mask::SMALL_LETTER_P,
        0x71 => mask::SMALL_LETTER_Q,
        0x72 => mask::SMALL_LETTER_R,
        0x73 => mask::SMALL_LETTER_S,
        0x74 => mask::SMALL_LETTER_T,
        0x75 => mask::SMALL_LETTER_U,
        0x76 => mask::SMALL_LETTER_V,
        0x77 => mask::SMALL_LETTER_W,
        0x78 => mask::SMALL_LETTER_X,
        0x79 => mask::SMALL_LETTER_Y,
        0x7a => mask::SMALL_LETTER_Z,
        0x7b => mask::LEFT_CURLY_BRACKET,
        0x7c => mask::VERTICAL_LINE,
        0x7d => mask::RIGHT_CURLY_BRACKET,
        0x7e => mask::TILDE,
        _ => mask::QUESTION_MARK,
    }
}

/// What the strict lookup returns: the table entry on the printable range,
/// `None` everywhere else.
pub open spec fn spec_try_ascii(c: u8) -> Option<u16> {
    if is_printable(c) {
        Some(glyph_mask(c))
    } else {
        None
    }
}

/// Strict lookup: the segment mask of `c`, or `None` for a byte outside the
/// printable ASCII range.
pub fn try_ascii(c: u8) -> (r: Option<u16>)
    ensures
        r == spec_try_ascii(c),
{
    if 0x20 <= c && c <= 0x7e {
        Some(ascii(c))
    } else {
        None
    }
}

/// Total lookup: the segment mask of `c`, falling back to the mask of `'?'`
/// for a byte outside the printable ASCII range.
pub fn ascii(c: u8) -> (r: u16)
    ensures
        r == glyph_mask(c),
{
    match c {
        0x20 => mask::SPACE,
        0x21 => mask::EXCLAMATION_POINT,
        0x22 => mask::QUOTATION_MARK,
        0x23 => mask::NUMBER_SIGN,
        0x24 => mask::DOLLAR_SIGN,
        0x25 => mask::PERCENT_SIGN,
        0x26 => mask::AMPERSAND,
        0x27 => mask::APOSTROPHE,
        0x28 => mask::LEFT_PARENTHESIS,
        0x29 => mask::RIGHT_PARENTHESIS,
        0x2a => mask::ASTERISK,
        0x2b => mask::PLUS_SIGN,
        0x2c => mask::COMMA,
        0x2d => mask::HYPHEN_MINUS,
        0x2e => mask::PERIOD,
        0x2f => mask::SLASH,
        0x30 => mask::DIGIT_ZERO,
        0x31 => mask::DIGIT_ONE,
        0x32 => mask::DIGIT_TWO,
        0x33 => mask::DIGIT_THREE,
        0x34 => mask::DIGIT_FOUR,
        0x35 => mask::DIGIT_FIVE,
        0x36 => mask::DIGIT_SIX,
        0x37 => mask::DIGIT_SEVEN,
        0x38 => mask::DIGIT_EIGHT,
        0x39 => mask::DIGIT_NINE,
        0x3a => mask::COLON,
        0x3b => mask::SEMI_COLON,
        0x3c => mask::LESS_THAN_SIGN,
        0x3d => mask::EQUALS_SIGN,
        0x3e => mask::GREATER_THAN_SIGN,
        0x3f => mask::QUESTION_MARK,
        0x40 => mask::AT_SIGN,
        0x41 => mask::LETTER_A,
        0x42 => mask::LETTER_B,
        0x43 => mask::LETTER_C,
        0x44 => mask::LETTER_D,
        0x45 => mask::LETTER_E,
        0x46 => mask::LETTER_F,
        0x47 => mask::LETTER_G,
        0x48 => mask::LETTER_H,
        0x49 => mask::LETTER_I,
        0x4a => mask::LETTER_J,
        0x4b => mask::LETTER_K,
        0x4c => mask::LETTER_L,
        0x4d => mask::LETTER_M,
        0x4e => mask::LETTER_N,
        0x4f => mask::LETTER_O,
        0x50 => mask::LETTER_P,
        0x51 => mask::LETTER_Q,
        0x52 => mask::LETTER_R,
        0x53 => mask::LETTER_S,
        0x54 => mask::LETTER_T,
        0x55 => mask::LETTER_U,
        0x56 => mask::LETTER_V,
        0x57 => mask::LETTER_W,
        0x58 => mask::LETTER_X,
        0x59 => mask::LETTER_Y,
        0x5a => mask::LETTER_Z,
        0x5b => mask::LEFT_SQUARE_BRACKET,
        0x5c => mask::BACKSLASH,
        0x5d => mask::RIGHT_SQUARE_BRACKET,
        0x5e => mask::CARET,
        0x5f => mask::UNDERSCORE,
        0x60 => mask::GRAVE_ACCENT,
        0x61 => mask::SMALL_LETTER_A,
        0x62 => mask::SMALL_LETTER_B,
        0x63 => mask::SMALL_LETTER_C,
        0x64 => mask::SMALL_LETTER_D,
        0x65 => mask::SMALL_LETTER_E,
        0x66 => mask::SMALL_LETTER_F,
        0x67 => mask::SMALL_LETTER_G,
        0x68 => mask::SMALL_LETTER_H,
        0x69 => mask::SMALL_LETTER_I,
        0x6a => mask::SMALL_LETTER_J,
        0x6b => mask::SMALL_LETTER_K,
        0x6c => mask::SMALL_LETTER_L,
        0x6d => mask::SMALL_LETTER_M,
        0x6e => mask::SMALL_LETTER_N,
        0x6f => mask::SMALL_LETTER_O,
        0x70 => mask::SMALL_LETTER_P,
        0x71 => mask::SMALL_LETTER_Q,
        0x72 => mask::SMALL_LETTER_R,
        0x73 => mask::SMALL_LETTER_S,
        0x74 => mask::SMALL_LETTER_T,
        0x75 => mask::SMALL_LETTER_U,
        0x76 => mask::SMALL_LETTER_V,
        0x77 => mask::SMALL_LETTER_W,
        0x78 => mask::SMALL_LETTER_X,
        0x79 => mask::SMALL_LETTER_Y,
        0x7a => mask::SMALL_LETTER_Z,
        0x7b => mask::LEFT_CURLY_BRACKET,
        0x7c => mask::VERTICAL_LINE,
        0x7d => mask::RIGHT_CURLY_BRACKET,
        0x7e => mask::TILDE,
        _ => mask::QUESTION_MARK,
    }
}

/// A byte sequence mapped through the glyph table, element by element.
pub open spec fn glyphs_of(s: Seq<u8>) -> Seq<u16> {
    s.map(|_i: int, c: u8| glyph_mask(c))
}

/// Maps every byte of `input` through the glyph table, in order.
pub fn ascii_iter(input: &[u8]) -> (r: Vec<u16>)
    ensures
        r@ == glyphs_of(input@),
{
    let mut out: Vec<u16> = Vec::new();
    let mut i: usize = 0;
    while i < input.len()
        invariant
            i <= input@.len(),
            out@ == glyphs_of(input@.take(i as int)),
        decreases input@.len() - i,
    {
        out.push(ascii(input[i]));
        proof {
            assert(glyphs_of(input@.take(i as int + 1)) =~= glyphs_of(
                input@.take(i as int),
            ).push(glyph_mask(input@[i as int])));
        }
        i = i + 1;
    }
    proof {
        assert(input@.take(input@.len() as int) =~= input@);
    }
    out
}

/// Every printable ASCII byte has a glyph: the strict lookup succeeds on the
/// whole printable range, and agrees there with the total lookup.
pub proof fn lemma_printable_has_glyph(c: u8)
    requires
        is_printable(c),
    ensures
        spec_try_ascii(c) is Some,
        spec_try_ascii(c)->Some_0 == glyph_mask(c),
{
}

/// The decimal-point mask belongs to `'.'` alone: no other byte's glyph
/// equals it, so the dot-folding encoder can recognise dots in a stream of
/// masks.
pub proof fn lemma_only_dot_is_period(c: u8)
    ensures
        glyph_mask(c) == mask::PERIOD <==> c == 0x2e,
{
}

/// Outside the printable range the total lookup falls back to the glyph of
/// `'?'`: unmapped bytes all display as the unknown-character mask.
pub proof fn lemma_unmapped_falls_back(c: u8)
    requires
        !is_printable(c),
    ensures
        glyph_mask(c) == glyph_mask(0x3f),
{
}

} // verus!
