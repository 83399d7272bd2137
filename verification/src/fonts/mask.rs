//! Named segment masks, one constant per character of the glyph table.
//!
//! Each mask concatenates the two segment-row bytes of a character: the low
//! byte drives rows 0-7, the high byte rows 8-15.  Bit 14 is the decimal
//! point segment ([`PERIOD`]), which no other glyph uses, so it can be OR-ed
//! into any mask without disturbing the character shape.

use vstd::prelude::*;

verus! {

pub const SPACE: u16 = 0b0000_0000_0000_0000;
pub const EXCLAMATION_POINT: u16 = 0b0000_0000_0000_0110;
pub const QUOTATION_MARK: u16 = 0b0000_0010_0010_0000;
pub const NUMBER_SIGN: u16 = 0b0001_0010_1100_1110;
pub const DOLLAR_SIGN: u16 = 0b0001_0010_1110_1101;
pub const PERCENT_SIGN: u16 = 0b0000_1100_0010_0100;
pub const AMPERSAND: u16 = 0b0010_0011_0101_1101;
pub const APOSTROPHE: u16 = 0b0000_0100_0000_0000;
pub const LEFT_PARENTHESIS: u16 = 0b0010_0100_0000_0000;
pub const RIGHT_PARENTHESIS: u16 = 0b0000_1001_0000_0000;
pub const ASTERISK: u16 = 0b0011_1111_1100_0000;
pub const PLUS_SIGN: u16 = 0b0001_0010_1100_0000;
pub const COMMA: u16 = 0b0000_1000_0000_0000;
pub const HYPHEN_MINUS: u16 = 0b0000_0000_1100_0000;
pub const PERIOD: u16 = 0b0100_0000_0000_0000;
pub const SLASH: u16 = 0b0000_1100_0000_0000;
pub const DIGIT_ZERO: u16 = 0b0000_1100_0011_1111;
pub const DIGIT_ONE: u16 = 0b0000_0000_0000_0110;
pub const DIGIT_TWO: u16 = 0b0000_0000_1101_1011;
pub const DIGIT_THREE: u16 = 0b0000_0000_1000_1111;
pub const DIGIT_FOUR: u16 = 0b0000_0000_1110_0110;
pub const DIGIT_FIVE: u16 = 0b0010_0000_0110_1001;
pub const DIGIT_SIX: u16 = 0b0000_0000_1111_1101;
pub const DIGIT_SEVEN: u16 = 0b0000_0000_0000_0111;
pub const DIGIT_EIGHT: u16 = 0b0000_0000_1111_1111;
pub const DIGIT_NINE: u16 = 0b0000_0000_1110_1111;
pub const COLON: u16 = 0b0001_0010_0000_0000;
pub const SEMI_COLON: u16 = 0b0000_1010_0000_0000;
pub const LESS_THAN_SIGN: u16 = 0b0010_0100_0000_0000;
pub const EQUALS_SIGN: u16 = 0b0000_0000_1100_1000;
pub const GREATER_THAN_SIGN: u16 = 0b0000_1001_0000_0000;
pub const QUESTION_MARK: u16 = 0b0001_0000_1000_0011;
pub const AT_SIGN: u16 = 0b0000_0010_1011_1011;
pub const LETTER_A: u16 = 0b0000_0000_1111_0111;
pub const LETTER_B: u16 = 0b0001_0010_1000_1111;
pub const LETTER_C: u16 = 0b0000_0000_0011_1001;
pub const LETTER_D: u16 = 0b0001_0010_0000_1111;
pub const LETTER_E: u16 = 0b0000_0000_1111_1001;
pub const LETTER_F: u16 = 0b0000_0000_0111_0001;
pub const LETTER_G: u16 = 0b0000_0000_1011_1101;
pub const LETTER_H: u16 = 0b0000_0000_1111_0110;
pub const LETTER_I: u16 = 0b0001_0010_0000_0000;
pub const LETTER_J: u16 = 0b0000_0000_0001_1110;
pub const LETTER_K: u16 = 0b0010_0100_0111_0000;
pub const LETTER_L: u16 = 0b0000_0000_0011_1000;
pub const LETTER_M: u16 = 0b0000_0101_0011_0110;
pub const LETTER_N: u16 = 0b0010_0001_0011_0110;
pub const LETTER_O: u16 = 0b0000_0000_0011_1111;
pub const LETTER_P: u16 = 0b0000_0000_1111_0011;
pub const LETTER_Q: u16 = 0b0010_0000_0011_1111;
pub const LETTER_R: u16 = 0b0010_0000_1111_0011;
pub const LETTER_S: u16 = 0b0000_0000_1110_1101;
pub const LETTER_T: u16 = 0b0001_0010_0000_0001;
pub const LETTER_U: u16 = 0b0000_0000_0011_1110;
pub const LETTER_V: u16 = 0b0000_1100_0011_0000;
pub const LETTER_W: u16 = 0b0010_1000_0011_0110;
pub const LETTER_X: u16 = 0b0010_1101_0000_0000;
pub const LETTER_Y: u16 = 0b0010_1101_0000_0000;
pub const LETTER_Z: u16 = 0b0000_1100_0000_1001;
pub const LEFT_SQUARE_BRACKET: u16 = 0b0000_0000_0011_1001;
pub const BACKSLASH: u16 = 0b0010_0001_0000_0000;
pub const RIGHT_SQUARE_BRACKET: u16 = 0b0000_0000_0000_1111;
pub const CARET: u16 = 0b0000_1100_0000_0011;
pub const UNDERSCORE: u16 = 0b0000_0000_0000_1000;
pub const GRAVE_ACCENT: u16 = 0b0000_0001_0000_0000;
pub const SMALL_LETTER_A: u16 = 0b0001_0000_0101_1000;
pub const SMALL_LETTER_B: u16 = 0b0010_0000_0111_1000;
pub const SMALL_LETTER_C: u16 = 0b0000_0000_1101_1000;
pub const SMALL_LETTER_D: u16 = 0b0000_1000_1000_1110;
pub const SMALL_LETTER_E: u16 = 0b0000_1000_0101_1000;
pub const SMALL_LETTER_F: u16 = 0b0000_0000_0111_0001;
pub const SMALL_LETTER_G: u16 = 0b0000_0100_1000_1110;
pub const SMALL_LETTER_H: u16 = 0b0001_0000_0111_0000;
pub const SMALL_LETTER_I: u16 = 0b0001_0000_0000_0000;
pub const SMALL_LETTER_J: u16 = 0b0000_0000_0000_1110;
pub const SMALL_LETTER_K: u16 = 0b0011_0110_0000_0000;
pub const SMALL_LETTER_L: u16 = 0b0000_0000_0011_0000;
pub const SMALL_LETTER_M: u16 = 0b0001_0000_1101_0100;
pub const SMALL_LETTER_N: u16 = 0b0001_0000_0101_0000;
pub const SMALL_LETTER_O: u16 = 0b0000_0000_1101_1100;
pub const SMALL_LETTER_P: u16 = 0b0000_0001_0111_0000;
pub const SMALL_LETTER_Q: u16 = 0b0000_0100_1000_0110;
pub const SMALL_LETTER_R: u16 = 0b0000_0000_0101_0000;
pub const SMALL_LETTER_S: u16 = 0b0010_0000_1000_1000;
pub const SMALL_LETTER_T: u16 = 0b0000_0000_0111_1000;
pub const SMALL_LETTER_U: u16 = 0b0000_0000_0001_1100;
pub const SMALL_LETTER_V: u16 = 0b0010_0000_0000_0100;
pub const SMALL_LETTER_W: u16 = 0b0010_1000_0001_0100;
pub const SMALL_LETTER_X: u16 = 0b0010_1000_1100_0000;
pub const SMALL_LETTER_Y: u16 = 0b0010_0000_0000_1100;
pub const SMALL_LETTER_Z: u16 = 0b0000_1000_0100_1000;
pub const LEFT_CURLY_BRACKET: u16 = 0b0000_1001_0100_1001;
pub const VERTICAL_LINE: u16 = 0b0001_0010_0000_0000;
pub const RIGHT_CURLY_BRACKET: u16 = 0b0010_0100_1000_1001;
pub const TILDE: u16 = 0b0000_0101_0010_0000;

} // verus!
