//! A constant-sized run of display characters.
//!
//! [`Text`] holds exactly one glyph pair per digit position.  Building one
//! from a character sequence truncates whatever does not fit on the display
//! and pads short input with blanks; no dot folding happens here — that is
//! the encoder's job.

use crate::chars::blank;
use crate::chars::char_glyph;
use crate::chars::Char;
use crate::CHAR_TOTAL;
use vstd::prelude::*;
use vstd::string::StrSliceExecFns;

verus! {

/// The glyph pairs a character sequence fills the display with: one per
/// position, truncated to the display width and padded with blanks.
pub open spec fn text_of(cs: Seq<char>) -> Seq<Char> {
    Seq::new(
        CHAR_TOTAL as nat,
        |i: int|
            if i < cs.len() {
                char_glyph(cs[i])
            } else {
                blank()
            },
    )
}

/// A constant-sized collection of display characters, one per digit
/// position.
#[derive(Clone, Copy, Debug, Hash)]
pub struct Text {
    chars: [Char; CHAR_TOTAL],
}

impl View for Text {
    type V = Seq<Char>;

    closed spec fn view(&self) -> Seq<Char> {
        self.chars@
    }
}

impl PartialEq for Text {
    fn eq(&self, other: &Text) -> (r: bool) {
        let r = self.chars[0] == other.chars[0] && self.chars[1] == other.chars[1]
            && self.chars[2] == other.chars[2] && self.chars[3] == other.chars[3];
        proof {
            if r {
                assert(self.chars@ =~= other.chars@);
            }
        }
        r
    }
}

impl vstd::std_specs::cmp::PartialEqSpecImpl for Text {
    open spec fn obeys_eq_spec() -> bool {
        true
    }

    open spec fn eq_spec(&self, other: &Text) -> bool {
        self@ == other@
    }
}

impl Text {
    /// The glyph at one position.
    pub fn get(&self, i: usize) -> (r: Char)
        requires
            i < CHAR_TOTAL,
        ensures
            r == self@[i as int],
    {
        self.chars[i]
    }

    /// Replaces the glyph at one position.
    pub fn set(&mut self, i: usize, c: Char)
        requires
            i < CHAR_TOTAL,
        ensures
            final(self)@ == old(self)@.update(i as int, c),
    {
        self.chars[i] = c;
    }

    /// A single character at the leftmost position, blanks after it.
    pub fn from_char(c: char) -> (r: Text)
        ensures
            r@ == text_of(seq![c]),
    {
        let mut t = Text::default();
        t.set(0, Char::from_char(c));
        proof {
            assert(t@ =~= text_of(seq![c]));
        }
        t
    }

    /// A single glyph at the leftmost position, blanks after it.
    pub fn from_glyph(c: Char) -> (r: Text)
        ensures
            r@.len() == CHAR_TOTAL,
            r@[0] == c,
            forall|i: int| 1 <= i < CHAR_TOTAL ==> r@[i] == blank(),
    {
        let mut t = Text::default();
        t.set(0, c);
        t
    }

    /// The first display-width characters of a slice, looked up in the
    /// table.  The slice must cover the whole display.
    pub fn from_chars(slice: &[char]) -> (r: Text)
        requires
            slice@.len() >= CHAR_TOTAL,
        ensures
            r@ == text_of(slice@),
    {
        let mut t = Text::default();
        let mut i: usize = 0;
        while i < CHAR_TOTAL
            invariant
                i <= CHAR_TOTAL,
                slice@.len() >= CHAR_TOTAL,
                t@.len() == CHAR_TOTAL,
                forall|j: int| 0 <= j < i ==> t@[j] == char_glyph(slice@[j]),
                forall|j: int| i <= j < CHAR_TOTAL ==> t@[j] == blank(),
            decreases CHAR_TOTAL - i,
        {
            let c = Char::from_char(slice[i]);
            t.set(i, c);
            i = i + 1;
        }
        proof {
            assert(t@ =~= text_of(slice@));
        }
        t
    }

    /// The characters of a string filled onto the display: truncated to the
    /// display width, padded with blanks when the string is shorter.
    pub fn from_str(s: &str) -> (r: Text)
        ensures
            r@ == text_of(s@),
    {
        let n = s.unicode_len();
        let mut t = Text::default();
        let mut i: usize = 0;
        while i < CHAR_TOTAL && i < n
            invariant
                i <= CHAR_TOTAL,
                i <= n,
                n == s@.len(),
                t@.len() == CHAR_TOTAL,
                forall|j: int| 0 <= j < i ==> t@[j] == char_glyph(s@[j]),
                forall|j: int| i <= j < CHAR_TOTAL ==> t@[j] == blank(),
            decreases CHAR_TOTAL - i,
        {
            let c = Char::from_char(s.get_char(i));
            t.set(i, c);
            i = i + 1;
        }
        proof {
            assert(t@ =~= text_of(s@));
        }
        t
    }

    /// The exact wire layout of the characters: two bytes per position, low
    /// byte first, position 0 first.
    pub fn to_bytes(self) -> (r: [u8; crate::BUF_SIZE])
        ensures
            forall|i: int|
                0 <= i < CHAR_TOTAL ==> r@[2 * i] == self@[i].lo && r@[2 * i + 1] == self@[i].hi,
    {
        let mut out: [u8; crate::BUF_SIZE] = [0u8; crate::BUF_SIZE];
        let mut i: usize = 0;
        while i < CHAR_TOTAL
            invariant
                i <= CHAR_TOTAL,
                out@.len() == crate::BUF_SIZE,
                forall|j: int|
                    0 <= j < i ==> out@[2 * j] == self@[j].lo && out@[2 * j + 1] == self@[j].hi,
            decreases CHAR_TOTAL - i,
        {
            let c = self.chars[i];
            out[2 * i] = c.lo;
            out[2 * i + 1] = c.hi;
            i = i + 1;
        }
        out
    }
}

impl Default for Text {
    /// All positions blank.
    fn default() -> (r: Text)
        ensures
            r@.len() == CHAR_TOTAL,
            forall|i: int| 0 <= i < CHAR_TOTAL ==> r@[i] == blank(),
    {
        Text { chars: [Char { lo: 0, hi: 0 }; CHAR_TOTAL] }
    }
}

} // verus!
