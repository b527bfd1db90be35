//! The error reported by the array-to-array operations.

use vstd::prelude::*;

verus! {

/// Why an operation refused its operands.
#[derive(Debug, Clone, Copy, PartialEq, Eq, Structural)]
pub enum MathError {
    /// The right-hand operand holds fewer elements than the array it is
    /// combined with: `expected` is the array's length, `found` the length of
    /// the operand that was passed.
    LengthMismatch { expected: usize, found: usize },
}

/// The error owed when a right-hand operand of `found` elements meets an
/// array of `expected` elements.
pub open spec fn length_mismatch(expected: nat, found: nat) -> MathError {
    MathError::LengthMismatch { expected: expected as usize, found: found as usize }
}

} // verus!
