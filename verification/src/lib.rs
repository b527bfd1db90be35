//! Elementwise addition and subtraction over fixed-size arrays.
//!
//! The operations are offered as three traits, each implemented for every
//! array `[T; N]` whose element type is `Copy` and has `+` and `-`:
//!
//! - [`VectorMath`] combines an array with a second sequence, position by
//!   position (`addv`, `subv`);
//! - [`ScalarMath`] combines every element of an array with one scalar
//!   (`adds`, `subs`);
//! - [`ArrayMath`] is the minimal array-to-array surface (`add`, `sub`).
//!
//! An operation returns a new array, updates its receiver in place
//! (`_assign`), or fills a buffer that the caller supplies (`_into`).
//!
//! # Lengths
//!
//! The second operand of an array-to-array operation is a slice. It may be
//! longer than the array, in which case its surplus is ignored. If it is
//! shorter, the operation returns [`MathError::LengthMismatch`] and writes
//! nothing. Target buffers have the array's own type, so their length always
//! fits.
//!
//! # Arithmetic
//!
//! The element type's own operators do the arithmetic. Every operation
//! requires that each evaluation it makes is defined for the element type.
//! For the primitive integers that means that no sum or difference leaves
//! the type's range: overflow is ruled out by the precondition instead of
//! being wrapped, saturated or reported, and verified callers can never
//! trigger it.
//!
//! # Contracts
//!
//! The contracts are stated over the arrays' views as sequences, with the
//! spec functions of [`elementwise`]. The module [`laws`] proves what relates
//! the operations to one another.

pub mod basic;
pub mod elementwise;
pub mod error;
pub mod laws;
pub mod scalarmath;
pub mod vectormath;

pub use crate::basic::ArrayMath;
pub use crate::elementwise::Operator;
pub use crate::error::MathError;
pub use crate::laws::ExactElement;
pub use crate::scalarmath::ScalarMath;
pub use crate::vectormath::VectorMath;
