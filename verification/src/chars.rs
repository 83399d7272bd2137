//! Characters as glyph pairs: the two segment-row bytes of one display
//! digit.
//!
//! This is the byte-pair form of the glyph table, used by [`crate::text`]:
//! where [`crate::fonts`] hands out one 16-bit mask per character, [`Char`]
//! keeps the low and high segment rows apart, ready for the wire layout.
//! Lookups are total: a character without a table entry falls back to the
//! glyph of `'?'`.

use crate::error::Error;
use vstd::prelude::*;

verus! {

/// One display character as its two segment-row bytes.
#[derive(Clone, Copy, Debug, PartialEq, Eq, Hash, Structural)]
pub struct Char {
    /// Segment rows 0-7.
    pub lo: u8,
    /// Segment rows 8-15.
    pub hi: u8,
}

/// Whether the codepoint lies in the printable ASCII range of the table.
pub open spec fn char_printable(c: char) -> bool {
    0x20 <= c as u32 <= 0x7e
}

/// The blank glyph: no segments lit.
pub open spec fn blank() -> Char {
    Char { lo: 0, hi: 0 }
}

/// The table entry of a printable ASCII byte; the entry of `'?'` for
/// anything else.
pub open spec fn byte_pair(b: u8) -> Char {
    match b {
        0x20 => Char { lo: 0b0000_0000, hi: 0b0000_0000 },
        0x21 => Char { lo: 0b0000_0110, hi: 0b0000_0000 },
        0x22 => Char { lo: 0b0010_0000, hi: 0b0000_0010 },
        0x23 => Char { lo: 0b1100_1110, hi: 0b0001_0010 },
        0x24 => Char { lo: 0b1110_1101, hi: 0b0001_0010 },
        0x25 => Char { lo: 0b0010_0100, hi: 0b0000_1100 },
        0x26 => Char { lo: 0b0101_1101, hi: 0b0010_0011 },
        0x27 => Char { lo: 0b0000_0000, hi: 0b0000_0100 },
        0x28 => Char { lo: 0b0000_0000, hi: 0b0010_0100 },
        0x29 => Char { lo: 0b0000_0000, hi: 0b0000_1001 },
        0x2a => Char { lo: 0b1100_0000, hi: 0b0011_1111 },
        0x2b => Char { lo: 0b1100_0000, hi: 0b0001_0010 },
        0x2c => Char { lo: 0b0000_0000, hi: 0b0000_1000 },
        0x2d => Char { lo: 0b1100_0000, hi: 0b0000_0000 },
        0x2e => Char { lo: 0b0000_0000, hi: 0b0000_0000 },
        0x2f => Char { lo: 0b0000_0000, hi: 0b0000_1100 },
        0x30 => Char { lo: 0b0011_1111, hi: 0b0000_1100 },
        0x31 => Char { lo: 0b0000_0110, hi: 0b0000_0000 },
        0x32 => Char { lo: 0b1101_1011, hi: 0b0000_0000 },
        0x33 => Char { lo: 0b1000_1111, hi: 0b0000_0000 },
        0x34 => Char { lo: 0b1110_0110, hi: 0b0000_0000 },
        0x35 => Char { lo: 0b0110_1001, hi: 0b0010_0000 },
        0x36 => Char { lo: 0b1111_1101, hi: 0b0000_0000 },
        0x37 => Char { lo: 0b0000_0111, hi: 0b0000_0000 },
        0x38 => Char { lo: 0b1111_1111, hi: 0b0000_0000 },
        0x39 => Char { lo: 0b1110_1111, hi: 0b0000_0000 },
        0x3a => Char { lo: 0b0000_0000, hi: 0b0001_0010 },
        0x3b => Char { lo: 0b0000_0000, hi: 0b0000_1010 },
        0x3c => Char { lo: 0b0000_0000, hi: 0b0010_0100 },
        0x3d => Char { lo: 0b1100_1000, hi: 0b0000_0000 },
        0x3e => Char { lo: 0b0000_0000, hi: 0b0000_1001 },
        0x3f => Char { lo: 0b1000_0011, hi: 0b0001_0000 },
        0x40 => Char { lo: 0b1011_1011, hi: 0b0000_0010 },
        0x41 => Char { lo: 0b1111_0111, hi: 0b0000_0000 },
        0x42 => Char { lo: 0b1000_1111, hi: 0b0001_0010 },
        0x43 => Char { lo: 0b0011_1001, hi: 0b0000_0000 },
        0x44 => Char { lo: 0b0000_1111, hi: 0b0001_0010 },
        0x45 => Char { lo: 0b1111_1001, hi: 0b0000_0000 },
        0x46 => Char { lo: 0b0111_0001, hi: 0b0000_0000 },
        0x47 => Char { lo: 0b1011_1101, hi: 0b0000_0000 },
        0x48 => Char { lo: 0b1111_0110, hi: 0b0000_0000 },
        0x49 => Char { lo: 0b0000_0000, hi: 0b0001_0010 },
        0x4a => Char { lo: 0b0001_1110, hi: 0b0000_0000 },
        0x4b => Char { lo: 0b0111_0000, hi: 0b0010_0100 },
        0x4c => Char { lo: 0b0011_1000, hi: 0b0000_0000 },
        0x4d => Char { lo: 0b0011_0110, hi: 0b0000_0101 },
        0x4e => Char { lo: 0b0011_0110, hi: 0b0010_0001 },
        0x4f => Char { lo: 0b0011_1111, hi: 0b0000_0000 },
        0x50 => Char { lo: 0b1111_0011, hi: 0b0000_0000 },
        0x51 => Char { lo: 0b0011_1111, hi: 0b0010_0000 },
        0x52 => Char { lo: 0b1111_0011, hi: 0b0010_0000 },
        0x53 => Char { lo: 0b1110_1101, hi: 0b0000_0000 },
        0x54 => Char { lo: 0b0000_0001, hi: 0b0001_0010 },
        0x55 => Char { lo: 0b0011_1110, hi: 0b0000_0000 },
        0x56 => Char { lo: 0b0011_0000, hi: 0b0000_1100 },
        0x57 => Char { lo: 0b0011_0110, hi: 0b0010_1000 },
        0x58 => Char { lo: 0b0000_0000, hi: 0b0010_1101 },
        0x59 => Char { lo: 0b0000_0000, hi: 0b0001_0101 },
        0x5a => Char { lo: 0b0000_1001, hi: 0b0000_1100 },
        0x5b => Char { lo: 0b0011_1001, hi: 0b0000_0000 },
        0x5c => Char { lo: 0b0000_0000, hi: 0b0010_0001 },
        0x5d => Char { lo: 0b0000_1111, hi: 0b0000_0000 },
        0x5e => Char { lo: 0b0000_0011, hi: 0b0000_1100 },
        0x5f => Char { lo: 0b0000_1000, hi: 0b0000_0000 },
        0x60 => Char { lo: 0b0000_0000, hi: 0b0000_0001 },
        0x61 => Char { lo: 0b0101_1000, hi: 0b0001_0000 },
        0x62 => Char { lo: 0b0111_1000, hi: 0b0010_0000 },
        0x63 => Char { lo: 0b1101_1000, hi: 0b0000_0000 },
        0x64 => Char { lo: 0b1000_1110, hi: 0b0000_1000 },
        0x65 => Char { lo: 0b0101_1000, hi: 0b0000_1000 },
        0x66 => Char { lo: 0b0111_0001, hi: 0b0000_0000 },
        0x67 => Char { lo: 0b1000_1110, hi: 0b0000_0100 },
        0x68 => Char { lo: 0b0111_0000, hi: 0b0001_0000 },
        0x69 => Char { lo: 0b0000_0000, hi: 0b0001_0000 },
        0x6a => Char { lo: 0b0000_1110, hi: 0b0000_0000 },
        0x6b => Char { lo: 0b0000_0000, hi: 0b0011_0110 },
        0x6c => Char { lo: 0b0011_0000, hi: 0b0000_0000 },
        0x6d => Char { lo: 0b1101_0100, hi: 0b0001_0000 },
        0x6e => Char { lo: 0b0101_0000, hi: 0b0001_0000 },
        0x6f => Char { lo: 0b1101_1100, hi: 0b0000_0000 },
        0x70 => Char { lo: 0b0111_0000, hi: 0b0000_0001 },
        0x71 => Char { lo: 0b1000_0110, hi: 0b0000_0100 },
        0x72 => Char { lo: 0b0101_0000, hi: 0b0000_0000 },
        0x73 => Char { lo: 0b1000_1000, hi: 0b0010_0000 },
        0x74 => Char { lo: 0b0111_1000, hi: 0b0000_0000 },
        0x75 => Char { lo: 0b0001_1100, hi: 0b0000_0000 },
        0x76 => Char { lo: 0b0000_0100, hi: 0b0010_0000 },
        0x77 => Char { lo: 0b0001_0100, hi: 0b0010_1000 },
        0x78 => Char { lo: 0b1100_0000, hi: 0b0010_1000 },
        0x79 => Char { lo: 0b0000_1100, hi: 0b0010_0000 },
        0x7a => Char { lo: 0b0100_1000, hi: 0b0000_1000 },
        0x7b => Char { lo: 0b0100_1001, hi: 0b0000_1001 },
        0x7c => Char { lo: 0b0000_0000, hi: 0b0001_0010 },
        0x7d => Char { lo: 0b1000_1001, hi: 0b0010_0100 },
        0x7e => Char { lo: 0b0010_0000, hi: 0b0000_0101 },
        _ => Char { lo: 0b1000_0011, hi: 0b0001_0000 },
    }
}

/// The glyph pair of a character: its table entry, or the pair of `'?'` for
/// a character outside the printable ASCII range.
pub open spec fn char_glyph(c: char) -> Char {
    byte_pair(
        if char_printable(c) {
            (c as u32) as u8
        } else {
            0x3f
        },
    )
}

/// What the strict lookup returns: the table entry on the printable range,
/// the offending character in an error everywhere else.
pub open spec fn spec_checked_from(c: char) -> Result<Char, Error> {
    if char_printable(c) {
        Ok(char_glyph(c))
    } else {
        Err(Error::NoMapping { character: c })
    }
}

impl Char {
    /// Looks a printable ASCII byte up in the table.
    fn byte_lookup(b: u8) -> (r: Char)
        ensures
            r == byte_pair(b),
    {
        match b {
        0x20 => Char { lo: 0b0000_0000, hi: 0b0000_0000 },
        0x21 => Char { lo: 0b0000_0110, hi: 0b0000_0000 },
        0x22 => Char { lo: 0b0010_0000, hi: 0b0000_0010 },
        0x23 => Char { lo: 0b1100_1110, hi: 0b0001_0010 },
        0x24 => Char { lo: 0b1110_1101, hi: 0b0001_0010 },
        0x25 => Char { lo: 0b0010_0100, hi: 0b0000_1100 },
        0x26 => Char { lo: 0b0101_1101, hi: 0b0010_0011 },
        0x27 => Char { lo: 0b0000_0000, hi: 0b0000_0100 },
        0x28 => Char { lo: 0b0000_0000, hi: 0b0010_0100 },
        0x29 => Char { lo: 0b0000_0000, hi: 0b0000_1001 },
        0x2a => Char { lo: 0b1100_0000, hi: 0b0011_1111 },
        0x2b => Char { lo: 0b1100_0000, hi: 0b0001_0010 },
        0x2c => Char { lo: 0b0000_0000, hi: 0b0000_1000 },
        0x2d => Char { lo: 0b1100_0000, hi: 0b0000_0000 },
        0x2e => Char { lo: 0b0000_0000, hi: 0b0000_0000 },
        0x2f => Char { lo: 0b0000_0000, hi: 0b0000_1100 },
        0x30 => Char { lo: 0b0011_1111, hi: 0b0000_1100 },
        0x31 => Char { lo: 0b0000_0110, hi: 0b0000_0000 },
        0x32 => Char { lo: 0b1101_1011, hi: 0b0000_0000 },
        0x33 => Char { lo: 0b1000_1111, hi: 0b0000_0000 },
        0x34 => Char { lo: 0b1110_0110, hi: 0b0000_0000 },
        0x35 => Char { lo: 0b0110_1001, hi: 0b0010_0000 },
        0x36 => Char { lo: 0b1111_1101, hi: 0b0000_0000 },
        0x37 => Char { lo: 0b0000_0111, hi: 0b0000_0000 },
        0x38 => Char { lo: 0b1111_1111, hi: 0b0000_0000 },
        0x39 => Char { lo: 0b1110_1111, hi: 0b0000_0000 },
        0x3a => Char { lo: 0b0000_0000, hi: 0b0001_0010 },
        0x3b => Char { lo: 0b0000_0000, hi: 0b0000_1010 },
        0x3c => Char { lo: 0b0000_0000, hi: 0b0010_0100 },
        0x3d => Char { lo: 0b1100_1000, hi: 0b0000_0000 },
        0x3e => Char { lo: 0b0000_0000, hi: 0b0000_1001 },
        0x3f => Char { lo: 0b1000_0011, hi: 0b0001_0000 },
        0x40 => Char { lo: 0b1011_1011, hi: 0b0000_0010 },
        0x41 => Char { lo: 0b1111_0111, hi: 0b0000_0000 },
        0x42 => Char { lo: 0b1000_1111, hi: 0b0001_0010 },
        0x43 => Char { lo: 0b0011_1001, hi: 0b0000_0000 },
        0x44 => Char { lo: 0b0000_1111, hi: 0b0001_0010 },
        0x45 => Char { lo: 0b1111_1001, hi: 0b0000_0000 },
        0x46 => Char { lo: 0b0111_0001, hi: 0b0000_0000 },
        0x47 => Char { lo: 0b1011_1101, hi: 0b0000_0000 },
        0x48 => Char { lo: 0b1111_0110, hi: 0b0000_0000 },
        0x49 => Char { lo: 0b0000_0000, hi: 0b0001_0010 },
        0x4a => Char { lo: 0b0001_1110, hi: 0b0000_0000 },
        0x4b => Char { lo: 0b0111_0000, hi: 0b0010_0100 },
        0x4c => Char { lo: 0b0011_1000, hi: 0b0000_0000 },
        0x4d => Char { lo: 0b0011_0110, hi: 0b0000_0101 },
        0x4e => Char { lo: 0b0011_0110, hi: 0b0010_0001 },
        0x4f => Char { lo: 0b0011_1111, hi: 0b0000_0000 },
        0x50 => Char { lo: 0b1111_0011, hi: 0b0000_0000 },
        0x51 => Char { lo: 0b0011_1111, hi: 0b0010_0000 },
        0x52 => Char { lo: 0b1111_0011, hi: 0b0010_0000 },
        0x53 => Char { lo: 0b1110_1101, hi: 0b0000_0000 },
        0x54 => Char { lo: 0b0000_0001, hi: 0b0001_0010 },
        0x55 => Char { lo: 0b0011_1110, hi: 0b0000_0000 },
        0x56 => Char { lo: 0b0011_0000, hi: 0b0000_1100 },
        0x57 => Char { lo: 0b0011_0110, hi: 0b0010_1000 },
        0x58 => Char { lo: 0b0000_0000, hi: 0b0010_1101 },
        0x59 => Char { lo: 0b0000_0000, hi: 0b0001_0101 },
        0x5a => Char { lo: 0b0000_1001, hi: 0b0000_1100 },
        0x5b => Char { lo: 0b0011_1001, hi: 0b0000_0000 },
        0x5c => Char { lo: 0b0000_0000, hi: 0b0010_0001 },
        0x5d => Char { lo: 0b0000_1111, hi: 0b0000_0000 },
        0x5e => Char { lo: 0b0000_0011, hi: 0b0000_1100 },
        0x5f => Char { lo: 0b0000_1000, hi: 0b0000_0000 },
        0x60 => Char { lo: 0b0000_0000, hi: 0b0000_0001 },
        0x61 => Char { lo: 0b0101_1000, hi: 0b0001_0000 },
        0x62 => Char { lo: 0b0111_1000, hi: 0b0010_0000 },
        0x63 => Char { lo: 0b1101_1000, hi: 0b0000_0000 },
        0x64 => Char { lo: 0b1000_1110, hi: 0b0000_1000 },
        0x65 => Char { lo: 0b0101_1000, hi: 0b0000_1000 },
        0x66 => Char { lo: 0b0111_0001, hi: 0b0000_0000 },
        0x67 => Char { lo: 0b1000_1110, hi: 0b0000_0100 },
        0x68 => Char { lo: 0b0111_0000, hi: 0b0001_0000 },
        0x69 => Char { lo: 0b0000_0000, hi: 0b0001_0000 },
        0x6a => Char { lo: 0b0000_1110, hi: 0b0000_0000 },
        0x6b => Char { lo: 0b0000_0000, hi: 0b0011_0110 },
        0x6c => Char { lo: 0b0011_0000, hi: 0b0000_0000 },
        0x6d => Char { lo: 0b1101_0100, hi: 0b0001_0000 },
        0x6e => Char { lo: 0b0101_0000, hi: 0b0001_0000 },
        0x6f => Char { lo: 0b1101_1100, hi: 0b0000_0000 },
        0x70 => Char { lo: 0b0111_0000, hi: 0b0000_0001 },
        0x71 => Char { lo: 0b1000_0110, hi: 0b0000_0100 },
        0x72 => Char { lo: 0b0101_0000, hi: 0b0000_0000 },
        0x73 => Char { lo: 0b1000_1000, hi: 0b0010_0000 },
        0x74 => Char { lo: 0b0111_1000, hi: 0b0000_0000 },
        0x75 => Char { lo: 0b0001_1100, hi: 0b0000_0000 },
        0x76 => Char { lo: 0b0000_0100, hi: 0b0010_0000 },
        0x77 => Char { lo: 0b0001_0100, hi: 0b0010_1000 },
        0x78 => Char { lo: 0b1100_0000, hi: 0b0010_1000 },
        0x79 => Char { lo: 0b0000_1100, hi: 0b0010_0000 },
        0x7a => Char { lo: 0b0100_1000, hi: 0b0000_1000 },
        0x7b => Char { lo: 0b0100_1001, hi: 0b0000_1001 },
        0x7c => Char { lo: 0b0000_0000, hi: 0b0001_0010 },
        0x7d => Char { lo: 0b1000_1001, hi: 0b0010_0100 },
        0x7e => Char { lo: 0b0010_0000, hi: 0b0000_0101 },
            _ => Char { lo: 0b1000_0011, hi: 0b0001_0000 },
        }
    }

    /// Total lookup: the glyph pair of `c`, falling back to the pair of
    /// `'?'` for a character outside the printable ASCII range.
    pub fn from_char(c: char) -> (r: Char)
        ensures
            r == char_glyph(c),
    {
        let u = c as u32;
        if 0x20 <= u && u <= 0x7e {
            Self::byte_lookup(u as u8)
        } else {
            Self::byte_lookup(0x3f)
        }
    }

    /// Strict lookup: the glyph pair of `c`, or a `NoMapping` error naming
    /// the character when it has no table entry.
    pub fn checked_from(c: char) -> (r: Result<Char, Error>)
        ensures
            r == spec_checked_from(c),
    {
        let u = c as u32;
        if 0x20 <= u && u <= 0x7e {
            Ok(Self::byte_lookup(u as u8))
        } else {
            Err(Error::NoMapping { character: c })
        }
    }

    /// Builds a glyph from its two raw segment-row bytes, low byte first.
    pub fn from_pair(bits: [u8; 2]) -> (r: Char)
        ensures
            r.lo == bits@[0],
            r.hi == bits@[1],
    {
        Char { lo: bits[0], hi: bits[1] }
    }

    /// The byte of one segment row: index 0 is the low row, 1 the high row.
    pub fn index(&self, i: usize) -> (r: u8)
        requires
            i < 2,
        ensures
            r == if i == 0 {
                self.lo
            } else {
                self.hi
            },
    {
        if i == 0 {
            self.lo
        } else {
            self.hi
        }
    }

    /// The glyph as its two raw bytes, low byte first: the order the wire
    /// layout expects.
    pub fn to_pair(self) -> (r: [u8; 2])
        ensures
            r@ == seq![self.lo, self.hi],
    {
        let r = [self.lo, self.hi];
        proof {
            assert(r@ =~= seq![self.lo, self.hi]);
        }
        r
    }
}

impl Default for Char {
    /// The blank glyph.
    fn default() -> (r: Char)
        ensures
            r == blank(),
    {
        Char { lo: 0, hi: 0 }
    }
}

/// Every printable ASCII character has a glyph pair: the strict lookup
/// succeeds on the whole printable range, and agrees there with the total
/// lookup.
pub proof fn lemma_checked_from_printable(c: char)
    requires
        char_printable(c),
    ensures
        spec_checked_from(c) is Ok,
        spec_checked_from(c)->Ok_0 == char_glyph(c),
{
}

/// Outside the printable range the total lookup falls back to the glyph
/// pair of `'?'`: unmapped characters all display as the unknown-character
/// glyph.
pub proof fn lemma_unmapped_char_falls_back(c: char)
    requires
        !char_printable(c),
    ensures
        char_glyph(c) == char_glyph('?'),
{
    assert('?' as u32 == 0x3f);
}

} // verus!
