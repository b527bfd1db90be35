//! Array-to-array arithmetic: each element of an array is combined with the
//! element at the same position of a second sequence.

use crate::elementwise::zip_assign;
use crate::elementwise::zip_defined;
use crate::elementwise::zip_holds;
use crate::elementwise::zip_into;
use crate::elementwise::zip_new;
use crate::elementwise::Operator;
use crate::error::length_mismatch;
use crate::error::MathError;
use core::ops::Add;
use core::ops::Sub;
use vstd::prelude::*;

verus! {

/// Elementwise addition and subtraction of a second sequence, in three
/// calling conventions: return a new array (`addv`, `subv`), update the
/// receiver in place (`addv_assign`, `subv_assign`), or fill a buffer that
/// the caller supplies (`addv_into`, `subv_into`).
///
/// The second operand may be longer than the receiver; its surplus is
/// ignored. A shorter one is refused with [`MathError::LengthMismatch`]
/// before anything is written. Each operation asks that every elementwise
/// evaluation it makes is defined for the element type, which for the
/// primitive integers means that it does not overflow.
pub trait VectorMath: Sized {
    /// The element type.
    type InputInner: Copy + Add<Output = Self::InputInner> + Sub<Output = Self::InputInner>;

    /// The array type that is returned and that serves as target buffer.
    type Output;

    /// The receiver's elements, in order.
    spec fn items(&self) -> Seq<Self::InputInner>;

    /// The elements of a returned array or of a target buffer, in order.
    spec fn output_items(out: &Self::Output) -> Seq<Self::InputInner>;

    /// Returns the array whose element `i` is `self[i] + other[i]`.
    fn addv(&self, other: &[Self::InputInner]) -> (res: Result<Self::Output, MathError>)
        requires
            zip_defined(Operator::Plus, self.items(), other@),
        ensures
            res is Ok <==> self.items().len() <= other@.len(),
            res matches Ok(out) ==> zip_holds(
                Operator::Plus,
                self.items(),
                other@,
                Self::output_items(&out),
            ),
            res matches Err(e) ==> e == length_mismatch(self.items().len(), other@.len()),
    ;

    /// Replaces each `self[i]` by `self[i] + other[i]`. On an error the
    /// receiver is left as it was.
    fn addv_assign(&mut self, other: &[Self::InputInner]) -> (res: Result<(), MathError>)
        requires
            zip_defined(Operator::Plus, old(self).items(), other@),
        ensures
            res is Ok <==> old(self).items().len() <= other@.len(),
            res is Ok ==> zip_holds(
                Operator::Plus,
                old(self).items(),
                other@,
                final(self).items(),
            ),
            res matches Err(e) ==> e == length_mismatch(old(self).items().len(), other@.len())
                && *final(self) == *old(self),
    ;

    /// Writes `self[i] + other[i]` to each `into[i]`; what `into` held is
    /// not read. On an error `into` is left as it was.
    fn addv_into(&self, other: &[Self::InputInner], into: &mut Self::Output) -> (res: Result<
        (),
        MathError,
    >)
        requires
            zip_defined(Operator::Plus, self.items(), other@),
        ensures
            res is Ok <==> self.items().len() <= other@.len(),
            res is Ok ==> zip_holds(
                Operator::Plus,
                self.items(),
                other@,
                Self::output_items(final(into)),
            ),
            res matches Err(e) ==> e == length_mismatch(self.items().len(), other@.len())
                && *final(into) == *old(into),
    ;

    /// Returns the array whose element `i` is `self[i] - other[i]`.
    fn subv(&self, other: &[Self::InputInner]) -> (res: Result<Self::Output, MathError>)
        requires
            zip_defined(Operator::Minus, self.items(), other@),
        ensures
            res is Ok <==> self.items().len() <= other@.len(),
            res matches Ok(out) ==> zip_holds(
                Operator::Minus,
                self.items(),
                other@,
                Self::output_items(&out),
            ),
            res matches Err(e) ==> e == length_mismatch(self.items().len(), other@.len()),
    ;

    /// Replaces each `self[i]` by `self[i] - other[i]`. On an error the
    /// receiver is left as it was.
    fn subv_assign(&mut self, other: &[Self::InputInner]) -> (res: Result<(), MathError>)
        requires
            zip_defined(Operator::Minus, old(self).items(), other@),
        ensures
            res is Ok <==> old(self).items().len() <= other@.len(),
            res is Ok ==> zip_holds(
                Operator::Minus,
                old(self).items(),
                other@,
                final(self).items(),
            ),
            res matches Err(e) ==> e == length_mismatch(old(self).items().len(), other@.len())
                && *final(self) == *old(self),
    ;

    /// Writes `self[i] - other[i]` to each `into[i]`; what `into` held is
    /// not read. On an error `into` is left as it was.
    fn subv_into(&self, other: &[Self::InputInner], into: &mut Self::Output) -> (res: Result<
        (),
        MathError,
    >)
        requires
            zip_defined(Operator::Minus, self.items(), other@),
        ensures
            res is Ok <==> self.items().len() <= other@.len(),
            res is Ok ==> zip_holds(
                Operator::Minus,
                self.items(),
                other@,
                Self::output_items(final(into)),
            ),
            res matches Err(e) ==> e == length_mismatch(self.items().len(), other@.len())
                && *final(into) == *old(into),
    ;
}

impl<T, const N: usize> VectorMath for [T; N] where
    T: Copy + Add<Output = T> + Sub<Output = T>,
 {
    type InputInner = T;

    type Output = [T; N];

    open spec fn items(&self) -> Seq<T> {
        self@
    }

    open spec fn output_items(out: &[T; N]) -> Seq<T> {
        out@
    }

    #[inline(always)]
    fn addv(&self, other: &[T]) -> (res: Result<[T; N], MathError>) {
        zip_new(Operator::Plus, self, other)
    }

    #[inline(always)]
    fn addv_assign(&mut self, other: &[T]) -> (res: Result<(), MathError>) {
        zip_assign(Operator::Plus, self, other)
    }

    #[inline(always)]
    fn addv_into(&self, other: &[T], into: &mut [T; N]) -> (res: Result<(), MathError>) {
        zip_into(Operator::Plus, self, other, into)
    }

    #[inline(always)]
    fn subv(&self, other: &[T]) -> (res: Result<[T; N], MathError>) {
        zip_new(Operator::Minus, self, other)
    }

    #[inline(always)]
    fn subv_assign(&mut self, other: &[T]) -> (res: Result<(), MathError>) {
        zip_assign(Operator::Minus, self, other)
    }

    #[inline(always)]
    fn subv_into(&self, other: &[T], into: &mut [T; N]) -> (res: Result<(), MathError>) {
        zip_into(Operator::Minus, self, other, into)
    }
}

} // verus!
