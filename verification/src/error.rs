//! Error types of the driver core.

use vstd::prelude::*;

verus! {

/// Failure of the bus transaction.  Opaque to the core: the device
/// collaborator reports it and the driver passes it through unchanged,
/// leaving the in-memory buffer as it was so the caller may retry.
#[derive(Clone, Copy, Debug, PartialEq, Eq, Structural)]
pub struct TransportError;

/// Everything the driver core can report.
#[derive(Clone, Copy, Debug, PartialEq, Eq, Structural)]
pub enum Error {
    /// A strict glyph lookup found no table entry for the character.
    /// Only the checked lookup path raises this; the total lookup
    /// substitutes the fallback glyph instead.
    NoMapping { character: char },
    /// A dynamic integer could not be converted to a digit position.
    InvalidPosition { position: usize },
    /// The device collaborator failed the bus write.
    Transport(TransportError),
}

} // verus!
