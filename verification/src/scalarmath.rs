//! Array-to-scalar arithmetic: each element of an array is combined with
//! one scalar.

use crate::elementwise::map_assign;
use crate::elementwise::map_defined;
use crate::elementwise::map_holds;
use crate::elementwise::map_into;
use crate::elementwise::map_new;
use crate::elementwise::Operator;
use core::ops::Add;
use core::ops::Sub;
use vstd::prelude::*;

verus! {

/// Elementwise addition and subtraction of one scalar, in three calling
/// conventions: return a new array (`adds`, `subs`), update the receiver in
/// place (`adds_assign`, `subs_assign`), or fill a buffer that the caller
/// supplies (`adds_into`, `subs_into`).
///
/// The target buffer has the receiver's type and so its length: no scalar
/// operation can fail. Each one asks that every elementwise evaluation it
/// makes is defined for the element type, which for the primitive integers
/// means that it does not overflow.
pub trait ScalarMath {
    /// The scalar type, which is also the element type.
    type Input: Copy + Add<Output = Self::Input> + Sub<Output = Self::Input>;

    /// The array type that is returned and that serves as target buffer.
    type Output;

    /// The receiver's elements, in order.
    spec fn items(&self) -> Seq<Self::Input>;

    /// The elements of a returned array or of a target buffer, in order.
    spec fn output_items(out: &Self::Output) -> Seq<Self::Input>;

    /// Returns the array whose element `i` is `self[i] + other`.
    fn adds(&self, other: Self::Input) -> (out: Self::Output)
        requires
            map_defined(Operator::Plus, self.items(), other),
        ensures
            map_holds(Operator::Plus, self.items(), other, Self::output_items(&out)),
    ;

    /// Replaces each `self[i]` by `self[i] + other`.
    fn adds_assign(&mut self, other: Self::Input)
        requires
            map_defined(Operator::Plus, old(self).items(), other),
        ensures
            map_holds(Operator::Plus, old(self).items(), other, final(self).items()),
    ;

    /// Writes `self[i] + other` to each `into[i]`; what `into` held is not
    /// read.
    fn adds_into(&self, other: Self::Input, into: &mut Self::Output)
        requires
            map_defined(Operator::Plus, self.items(), other),
        ensures
            map_holds(Operator::Plus, self.items(), other, Self::output_items(final(into))),
    ;

    /// Returns the array whose element `i` is `self[i] - other`.
    fn subs(&self, other: Self::Input) -> (out: Self::Output)
        requires
            map_defined(Operator::Minus, self.items(), other),
        ensures
            map_holds(Operator::Minus, self.items(), other, Self::output_items(&out)),
    ;

    /// Replaces each `self[i]` by `self[i] - other`.
    fn subs_assign(&mut self, other: Self::Input)
        requires
            map_defined(Operator::Minus, old(self).items(), other),
        ensures
            map_holds(Operator::Minus, old(self).items(), other, final(self).items()),
    ;

    /// Writes `self[i] - other` to each `into[i]`; what `into` held is not
    /// read.
    fn subs_into(&self, other: Self::Input, into: &mut Self::Output)
        requires
            map_defined(Operator::Minus, self.items(), other),
        ensures
            map_holds(Operator::Minus, self.items(), other, Self::output_items(final(into))),
    ;
}

impl<T, const N: usize> ScalarMath for [T; N] where
    T: Copy + Add<Output = T> + Sub<Output = T>,
 {
    type Input = T;

    type Output = [T; N];

    open spec fn items(&self) -> Seq<T> {
        self@
    }

    open spec fn output_items(out: &[T; N]) -> Seq<T> {
        out@
    }

    #[inline(always)]
    fn adds(&self, other: T) -> (out: [T; N]) {
        map_new(Operator::Plus, self, other)
    }

    #[inline(always)]
    fn adds_assign(&mut self, other: T) {
        map_assign(Operator::Plus, self, other)
    }

    #[inline(always)]
    fn adds_into(&self, other: T, into: &mut [T; N]) {
        map_into(Operator::Plus, self, other, into)
    }

    #[inline(always)]
    fn subs(&self, other: T) -> (out: [T; N]) {
        map_new(Operator::Minus, self, other)
    }

    #[inline(always)]
    fn subs_assign(&mut self, other: T) {
        map_assign(Operator::Minus, self, other)
    }

    #[inline(always)]
    fn subs_into(&self, other: T, into: &mut [T; N]) {
        map_into(Operator::Minus, self, other, into)
    }
}

} // verus!
