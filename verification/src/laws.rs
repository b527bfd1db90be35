//! Laws that relate the operations to one another.

use crate::elementwise::defined;
use crate::elementwise::map_defined;
use crate::elementwise::map_holds;
use crate::elementwise::obeys_spec;
use crate::elementwise::value;
use crate::elementwise::zip_defined;
use crate::elementwise::zip_holds;
use crate::elementwise::Operator;
use core::ops::Add;
use core::ops::Sub;
use vstd::prelude::*;

verus! {

/// An element type whose arithmetic is exact: `+` and `-` return the values
/// that their specifications name, and taking away what was added gives back
/// the starting value. Every primitive integer type is one.
pub trait ExactElement: Copy + Add<Output = Self> + Sub<Output = Self> {
    /// Both operators return what [`value`] names.
    proof fn operators_obey_spec()
        ensures
            obeys_spec::<Self>(Operator::Plus),
            obeys_spec::<Self>(Operator::Minus),
    ;

    /// Where `x + y` is defined, `(x + y) - y` is defined too and equals `x`.
    proof fn sum_cancels(x: Self, y: Self)
        requires
            defined(Operator::Plus, x, y),
        ensures
            defined(Operator::Minus, value(Operator::Plus, x, y), y),
            value(Operator::Minus, value(Operator::Plus, x, y), y) == x,
    ;
}

impl ExactElement for u8 {
    proof fn operators_obey_spec() {
    }

    proof fn sum_cancels(x: u8, y: u8) {
    }
}

impl ExactElement for u16 {
    proof fn operators_obey_spec() {
    }

    proof fn sum_cancels(x: u16, y: u16) {
    }
}

impl ExactElement for u32 {
    proof fn operators_obey_spec() {
    }

    proof fn sum_cancels(x: u32, y: u32) {
    }
}

impl ExactElement for u64 {
    proof fn operators_obey_spec() {
    }

    proof fn sum_cancels(x: u64, y: u64) {
    }
}

impl ExactElement for u128 {
    proof fn operators_obey_spec() {
    }

    proof fn sum_cancels(x: u128, y: u128) {
    }
}

impl ExactElement for usize {
    proof fn operators_obey_spec() {
    }

    proof fn sum_cancels(x: usize, y: usize) {
    }
}

impl ExactElement for i8 {
    proof fn operators_obey_spec() {
    }

    proof fn sum_cancels(x: i8, y: i8) {
    }
}

impl ExactElement for i16 {
    proof fn operators_obey_spec() {
    }

    proof fn sum_cancels(x: i16, y: i16) {
    }
}

impl ExactElement for i32 {
    proof fn operators_obey_spec() {
    }

    proof fn sum_cancels(x: i32, y: i32) {
    }
}

impl ExactElement for i64 {
    proof fn operators_obey_spec() {
    }

    proof fn sum_cancels(x: i64, y: i64) {
    }
}

impl ExactElement for i128 {
    proof fn operators_obey_spec() {
    }

    proof fn sum_cancels(x: i128, y: i128) {
    }
}

impl ExactElement for isize {
    proof fn operators_obey_spec() {
    }

    proof fn sum_cancels(x: isize, y: isize) {
    }
}

/// An array-to-array operation is a function of its operands: for an element
/// type that obeys its specification, two successful results of the same
/// operation on the same operands hold the same elements, whichever calling
/// convention produced them. (Whether the operation succeeds, and the error
/// it returns if not, depend on the two lengths alone.)
pub proof fn lemma_zip_is_deterministic<T>(
    op: Operator,
    lhs: Seq<T>,
    rhs: Seq<T>,
    first: Seq<T>,
    second: Seq<T>,
) where T: Add<Output = T> + Sub<Output = T>
    requires
        obeys_spec::<T>(op),
        zip_holds(op, lhs, rhs, first),
        zip_holds(op, lhs, rhs, second),
    ensures
        first == second,
{
}

/// An array-to-scalar operation is a function of its operands: for an
/// element type that obeys its specification, two results of the same
/// operation on the same array and scalar hold the same elements, whichever
/// calling convention produced them.
pub proof fn lemma_map_is_deterministic<T>(
    op: Operator,
    lhs: Seq<T>,
    scalar: T,
    first: Seq<T>,
    second: Seq<T>,
) where T: Add<Output = T> + Sub<Output = T>
    requires
        obeys_spec::<T>(op),
        map_holds(op, lhs, scalar, first),
        map_holds(op, lhs, scalar, second),
    ensures
        first == second,
{
}

/// Subtraction undoes addition, exactly, for exact element types: if `sum`
/// is what adding `b` to `a` produced, then `b` may be subtracted from `sum`
/// again, and whatever that subtraction produces is `a`.
pub proof fn lemma_addv_subv_inverse<T: ExactElement>(a: Seq<T>, b: Seq<T>, sum: Seq<T>)
    requires
        a.len() <= b.len(),
        zip_defined(Operator::Plus, a, b),
        zip_holds(Operator::Plus, a, b, sum),
    ensures
        zip_defined(Operator::Minus, sum, b),
        forall|back: Seq<T>| #[trigger] zip_holds(Operator::Minus, sum, b, back) ==> back == a,
{
    T::operators_obey_spec();
    assert forall|i: int| 0 <= i < a.len() implies #[trigger] defined(
        Operator::Minus,
        sum[i],
        b[i],
    ) && value(Operator::Minus, sum[i], b[i]) == a[i] by {
        assert(defined(Operator::Plus, a[i], b[i]));
        T::sum_cancels(a[i], b[i]);
    }
    assert forall|back: Seq<T>| #[trigger]
        zip_holds(Operator::Minus, sum, b, back) implies back == a by {
        assert forall|i: int| 0 <= i < a.len() implies back[i] == a[i] by {
            assert(defined(Operator::Minus, sum[i], b[i]));
        }
        assert(back =~= a);
    }
}

/// The scalar form of the same law: if `sum` is what adding `s` to every
/// element of `a` produced, then `s` may be subtracted from every element of
/// `sum` again, and whatever that subtraction produces is `a`.
pub proof fn lemma_adds_subs_inverse<T: ExactElement>(a: Seq<T>, s: T, sum: Seq<T>)
    requires
        map_defined(Operator::Plus, a, s),
        map_holds(Operator::Plus, a, s, sum),
    ensures
        map_defined(Operator::Minus, sum, s),
        forall|back: Seq<T>| #[trigger] map_holds(Operator::Minus, sum, s, back) ==> back == a,
{
    T::operators_obey_spec();
    assert forall|i: int| 0 <= i < a.len() implies #[trigger] defined(Operator::Minus, sum[i], s)
        && value(Operator::Minus, sum[i], s) == a[i] by {
        assert(defined(Operator::Plus, a[i], s));
        T::sum_cancels(a[i], s);
    }
    assert forall|back: Seq<T>| #[trigger]
        map_holds(Operator::Minus, sum, s, back) implies back == a by {
        assert forall|i: int| 0 <= i < a.len() implies back[i] == a[i] by {
            assert(defined(Operator::Minus, sum[i], s));
        }
        assert(back =~= a);
    }
}

} // verus!
