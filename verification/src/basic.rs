//! The minimal interface: array-to-array addition and subtraction that
//! return a new array or update the receiver, without a buffer-filling form.

use crate::elementwise::zip_assign;
use crate::elementwise::zip_defined;
use crate::elementwise::zip_holds;
use crate::elementwise::zip_new;
use crate::elementwise::Operator;
use crate::error::length_mismatch;
use crate::error::MathError;
use core::ops::Add;
use core::ops::Sub;
use vstd::prelude::*;

verus! {

/// A smaller surface over the same operations as
/// [`VectorMath`](crate::vectormath::VectorMath): `add` and `sub` behave as
/// `addv` and `subv`, `add_assign` and `sub_assign` as `addv_assign` and
/// `subv_assign`, under the same contracts.
pub trait ArrayMath: Sized {
    /// The element type.
    type InputInner: Copy + Add<Output = Self::InputInner> + Sub<Output = Self::InputInner>;

    /// The array type that is returned.
    type Output;

    /// The receiver's elements, in order.
    spec fn items(&self) -> Seq<Self::InputInner>;

    /// The elements of a returned array, in order.
    spec fn output_items(out: &Self::Output) -> Seq<Self::InputInner>;

    /// Returns the array whose element `i` is `self[i] + other[i]`.
    fn add(&self, other: &[Self::InputInner]) -> (res: Result<Self::Output, MathError>)
        requires
            zip_defined(Operator::Plus, self.items(), other@),
        ensures
            res is Ok <==> self.items().len() <= other@.len(),
            res matches Ok(out) ==> zip_holds(
                Operator::Plus,
                self.items(),
                other@,
                Self::output_items(&out),
            ),
            res matches Err(e) ==> e == length_mismatch(self.items().len(), other@.len()),
    ;

    /// Replaces each `self[i]` by `self[i] + other[i]`. On an error the
    /// receiver is left as it was.
    fn add_assign(&mut self, other: &[Self::InputInner]) -> (res: Result<(), MathError>)
        requires
            zip_defined(Operator::Plus, old(self).items(), other@),
        ensures
            res is Ok <==> old(self).items().len() <= other@.len(),
            res is Ok ==> zip_holds(
                Operator::Plus,
                old(self).items(),
                other@,
                final(self).items(),
            ),
            res matches Err(e) ==> e == length_mismatch(old(self).items().len(), other@.len())
                && *final(self) == *old(self),
    ;

    /// Returns the array whose element `i` is `self[i] - other[i]`.
    fn sub(&self, other: &[Self::InputInner]) -> (res: Result<Self::Output, MathError>)
        requires
            zip_defined(Operator::Minus, self.items(), other@),
        ensures
            res is Ok <==> self.items().len() <= other@.len(),
            res matches Ok(out) ==> zip_holds(
                Operator::Minus,
                self.items(),
                other@,
                Self::output_items(&out),
            ),
            res matches Err(e) ==> e == length_mismatch(self.items().len(), other@.len()),
    ;

    /// Replaces each `self[i]` by `self[i] - other[i]`. On an error the
    /// receiver is left as it was.
    fn sub_assign(&mut self, other: &[Self::InputInner]) -> (res: Result<(), MathError>)
        requires
            zip_defined(Operator::Minus, old(self).items(), other@),
        ensures
            res is Ok <==> old(self).items().len() <= other@.len(),
            res is Ok ==> zip_holds(
                Operator::Minus,
                old(self).items(),
                other@,
                final(self).items(),
            ),
            res matches Err(e) ==> e == length_mismatch(old(self).items().len(), other@.len())
                && *final(self) == *old(self),
    ;
}

impl<T, const N: usize> ArrayMath for [T; N] where
    T: Copy + Add<Output = T> + Sub<Output = T>,
 {
    type InputInner = T;

    type Output = [T; N];

    open spec fn items(&self) -> Seq<T> {
        self@
    }

    open spec fn output_items(out: &[T; N]) -> Seq<T> {
        out@
    }

    #[inline(always)]
    fn add(&self, other: &[T]) -> (res: Result<[T; N], MathError>) {
        zip_new(Operator::Plus, self, other)
    }

    #[inline(always)]
    fn add_assign(&mut self, other: &[T]) -> (res: Result<(), MathError>) {
        zip_assign(Operator::Plus, self, other)
    }

    #[inline(always)]
    fn sub(&self, other: &[T]) -> (res: Result<[T; N], MathError>) {
        zip_new(Operator::Minus, self, other)
    }

    #[inline(always)]
    fn sub_assign(&mut self, other: &[T]) -> (res: Result<(), MathError>) {
        zip_assign(Operator::Minus, self, other)
    }
}

} // verus!
