//! Failures reported by the library.
use vstd::prelude::*;

verus! {

/// Why a layout or a scale could not be built.
#[derive(Debug, Clone, Copy, PartialEq, Eq, Structural)]
pub enum HarpError {
    /// The blow and draw sequences have different lengths.
    LengthMismatch,
    /// The root is not a note name of the table its spelling selects.
    UnknownRoot,
    /// A pitch lies outside the twelve pitch classes.
    IndexOutOfRange,
}

} // verus!
