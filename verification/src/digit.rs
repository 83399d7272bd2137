//! Digit positions of the four-character display.
//!
//! A position is one of four values, so out-of-range addressing cannot be
//! expressed at all: code that needs a position from a dynamic integer goes
//! through [`Digit::checked_from`] and handles the error there.

use crate::error::Error;
use crate::CHAR_TOTAL;
use vstd::prelude::*;

verus! {

/// A digit position on the display; `DIGIT_0` is the leftmost character.
#[allow(non_camel_case_types)]
#[derive(Clone, Copy, Debug, PartialEq, Eq, Structural)]
pub enum Digit {
    DIGIT_0,
    DIGIT_1,
    DIGIT_2,
    DIGIT_3,
}

impl Digit {
    /// The position as a number: 0 for the leftmost character, counting up.
    pub open spec fn idx(self) -> int {
        match self {
            Digit::DIGIT_0 => 0,
            Digit::DIGIT_1 => 1,
            Digit::DIGIT_2 => 2,
            Digit::DIGIT_3 => 3,
        }
    }

    /// The position as a buffer index.
    pub fn to_index(&self) -> (r: usize)
        ensures
            r == self.idx(),
            r < CHAR_TOTAL,
    {
        match self {
            Digit::DIGIT_0 => 0,
            Digit::DIGIT_1 => 1,
            Digit::DIGIT_2 => 2,
            Digit::DIGIT_3 => 3,
        }
    }

    /// The two display-data addresses the position owns: positions are
    /// contiguous and non-overlapping, two bytes each.
    pub fn to_addr(&self) -> (r: [usize; 2])
        ensures
            r@.len() == 2,
            r@[0] as int == 2 * self.idx(),
            r@[1] as int == 2 * self.idx() + 1,
    {
        let i = self.to_index();
        [2 * i, 2 * i + 1]
    }

    /// Converts a dynamic integer to a position, rejecting anything outside
    /// the display.
    pub fn checked_from(position: usize) -> (r: Result<Digit, Error>)
        ensures
            r is Ok <==> position < CHAR_TOTAL,
            r is Ok ==> r->Ok_0.idx() == position,
            position >= CHAR_TOTAL ==> r == Err::<Digit, Error>(
                Error::InvalidPosition { position },
            ),
    {
        match position {
            0 => Ok(Digit::DIGIT_0),
            1 => Ok(Digit::DIGIT_1),
            2 => Ok(Digit::DIGIT_2),
            3 => Ok(Digit::DIGIT_3),
            _ => Err(Error::InvalidPosition { position }),
        }
    }
}

impl Default for Digit {
    /// The leftmost position.
    fn default() -> (r: Digit)
        ensures
            r == Digit::DIGIT_0,
    {
        Digit::DIGIT_0
    }
}

} // verus!
