//! Errors of buffer operations.
use vstd::prelude::*;

verus! {

/// Why a buffer operation failed.
#[derive(Debug, Clone, Copy, PartialEq, Eq, Structural)]
pub enum BufferError {
    /// A char index, line index, column or range lies outside the text.
    OutOfBounds,
    /// Saving was asked of a buffer that has no file to save to.
    NoAssociatedPath,
}

} // verus!
