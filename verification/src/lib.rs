//! Driver core for a four-character alphanumeric LED display built on an
//! HT16K33-style controller.
//!
//! The crate covers the three parts of the driver that carry real logic:
//! the glyph table mapping printable ASCII to 16-bit segment masks
//! ([`fonts`]), the dot-folding encoder that merges a trailing `'.'` into
//! the preceding character's mask, and the fixed four-digit display buffer
//! with its addressing.  The bus transaction itself stays behind a device
//! trait: the core computes the exact eight-byte wire layout and hands it
//! over.

use vstd::prelude::*;

pub mod chars;
pub mod digit;
pub mod error;
pub mod fonts;
pub mod period;
pub mod phat;
pub mod text;

pub use chars::Char;
pub use text::Text;
pub use digit::Digit;
pub use error::Error;
pub use error::TransportError;
pub use fonts::ascii;
pub use fonts::ascii_iter;
pub use fonts::try_ascii;
pub use period::period_iter;
pub use period::PeriodInterpreter;
pub use phat::Device;
pub use phat::MockDevice;
pub use phat::PHat;

verus! {

/// Number of characters that can be displayed at once.
pub const CHAR_TOTAL: usize = 4;

/// Number of bytes needed to represent a character.
pub const CHAR_SIZE: usize = 2;

/// Number of bytes in the raw wire layout of the display buffer.
pub const BUF_SIZE: usize = 8;

} // verus!
