//! The mathematical model of elementwise arithmetic, and the loops that
//! realise it.
//!
//! Every public operation of this crate is one of two shapes: an array
//! combined position by position with a second sequence ([`zip_with`]), or an
//! array combined with one scalar that is reused at every position
//! ([`map_with`]). Both are parameterised by an [`Operator`]. The element
//! type's own `+` and `-` do the arithmetic; what they compute is named by
//! the `add_spec` / `sub_spec` functions that `vstd` attaches to
//! `core::ops::Add` and `core::ops::Sub`.

use crate::error::length_mismatch;
use crate::error::MathError;
use vstd::prelude::*;
use vstd::std_specs::ops::AddSpec;
use vstd::std_specs::ops::SubSpec;
use core::ops::Add;
use core::ops::Sub;

verus! {

/// The binary operator applied at each position.
#[derive(Debug, Clone, Copy, PartialEq, Eq, Structural)]
pub enum Operator {
    /// `lhs + rhs`
    Plus,
    /// `lhs - rhs`
    Minus,
}

/// Whether the element type allows `lhs op rhs` to be evaluated. For the
/// primitive integers this says that the exact result fits the type, so an
/// evaluation that is `defined` neither wraps nor panics.
pub open spec fn defined<T>(op: Operator, lhs: T, rhs: T) -> bool
    where T: Add<Output = T> + Sub<Output = T>
{
    match op {
        Operator::Plus => lhs.add_req(rhs),
        Operator::Minus => lhs.sub_req(rhs),
    }
}

/// The value that the element type specifies for `lhs op rhs`.
pub open spec fn value<T>(op: Operator, lhs: T, rhs: T) -> T
    where T: Add<Output = T> + Sub<Output = T>
{
    match op {
        Operator::Plus => lhs.add_spec(rhs),
        Operator::Minus => lhs.sub_spec(rhs),
    }
}

/// Whether the element type's executable operator is bound to return
/// [`value`]. This holds for every primitive integer type. A type may leave
/// it open (the floating-point types do, since their results are not
/// specified); for such a type the contracts of this crate fix when an
/// operation succeeds and what it leaves untouched, but not the numbers it
/// produces.
pub open spec fn obeys_spec<T>(op: Operator) -> bool
    where T: Add<Output = T> + Sub<Output = T>
{
    match op {
        Operator::Plus => T::obeys_add_spec(),
        Operator::Minus => T::obeys_sub_spec(),
    }
}

/// Evaluates `lhs op rhs` with the element type's own operator.
#[inline]
pub fn apply<T>(op: Operator, lhs: T, rhs: T) -> (res: T)
    where T: Copy + Add<Output = T> + Sub<Output = T>
    requires
        defined(op, lhs, rhs),
    ensures
        obeys_spec::<T>(op) ==> res == value(op, lhs, rhs),
{
    match op {
        Operator::Plus => lhs + rhs,
        Operator::Minus => lhs - rhs,
    }
}

/// Whether every position of `lhs` may be combined with the same position of
/// `rhs`. Nothing is asked when `rhs` is too short: such operands are
/// refused before any element is touched.
pub open spec fn zip_defined<T>(op: Operator, lhs: Seq<T>, rhs: Seq<T>) -> bool
    where T: Add<Output = T> + Sub<Output = T>
{
    lhs.len() <= rhs.len() ==> forall|i: int|
        0 <= i < lhs.len() ==> #[trigger] defined(op, lhs[i], rhs[i])
}

/// `lhs` combined position by position with `rhs`: a sequence as long as
/// `lhs` whose element `i` is `lhs[i] op rhs[i]`. Elements of `rhs` past the
/// length of `lhs` play no part.
pub open spec fn zip_with<T>(op: Operator, lhs: Seq<T>, rhs: Seq<T>) -> Seq<T>
    where T: Add<Output = T> + Sub<Output = T>
{
    Seq::new(lhs.len(), |i: int| value(op, lhs[i], rhs[i]))
}

/// What a successful array-to-array operation guarantees of the sequence
/// `out` that it produced from `lhs` and `rhs`.
pub open spec fn zip_holds<T>(op: Operator, lhs: Seq<T>, rhs: Seq<T>, out: Seq<T>) -> bool
    where T: Add<Output = T> + Sub<Output = T>
{
    &&& out.len() == lhs.len()
    &&& obeys_spec::<T>(op) ==> out == zip_with(op, lhs, rhs)
}

/// Whether every element of `lhs` may be combined with `scalar`.
pub open spec fn map_defined<T>(op: Operator, lhs: Seq<T>, scalar: T) -> bool
    where T: Add<Output = T> + Sub<Output = T>
{
    forall|i: int| 0 <= i < lhs.len() ==> #[trigger] defined(op, lhs[i], scalar)
}

/// `lhs` combined with one scalar: a sequence as long as `lhs` whose element
/// `i` is `lhs[i] op scalar`.
pub open spec fn map_with<T>(op: Operator, lhs: Seq<T>, scalar: T) -> Seq<T>
    where T: Add<Output = T> + Sub<Output = T>
{
    Seq::new(lhs.len(), |i: int| value(op, lhs[i], scalar))
}

/// What an array-to-scalar operation guarantees of the sequence `out` that
/// it produced from `lhs` and `scalar`.
pub open spec fn map_holds<T>(op: Operator, lhs: Seq<T>, scalar: T, out: Seq<T>) -> bool
    where T: Add<Output = T> + Sub<Output = T>
{
    &&& out.len() == lhs.len()
    &&& obeys_spec::<T>(op) ==> out == map_with(op, lhs, scalar)
}

/// Replaces each `target[i]` by `target[i] op rhs[i]`.
///
/// A `rhs` shorter than the array is refused with
/// [`MathError::LengthMismatch`] and `target` keeps its contents; a longer
/// one is accepted and its surplus ignored.
pub fn zip_assign<T, const N: usize>(op: Operator, target: &mut [T; N], rhs: &[T]) -> (res: Result<
    (),
    MathError,
>)
    where T: Copy + Add<Output = T> + Sub<Output = T>
    requires
        zip_defined(op, old(target)@, rhs@),
    ensures
        res is Ok <==> N <= rhs@.len(),
        res is Ok ==> zip_holds(op, old(target)@, rhs@, final(target)@),
        res matches Err(e) ==> e == length_mismatch(N as nat, rhs@.len()) && *final(target)
            == *old(target),
{
    if rhs.len() < N {
        return Err(MathError::LengthMismatch { expected: N, found: rhs.len() });
    }
    let ghost before = target@;
    let mut i: usize = 0;
    while i < N
        invariant
            i <= N <= rhs@.len(),
            before.len() == N,
            zip_defined(op, before, rhs@),
            forall|j: int| i <= j < N ==> target@[j] == before[j],
            obeys_spec::<T>(op) ==> forall|j: int|
                0 <= j < i ==> target@[j] == value(op, before[j], rhs@[j]),
        decreases N - i,
    {
        assert(defined(op, before[i as int], rhs@[i as int]));
        target[i] = apply(op, target[i], rhs[i]);
        i += 1;
    }
    assert(obeys_spec::<T>(op) ==> target@ =~= zip_with(op, before, rhs@));
    Ok(())
}

/// Writes `lhs[i] op rhs[i]` to each `into[i]`, without reading what `into`
/// held.
///
/// A `rhs` shorter than the array is refused with
/// [`MathError::LengthMismatch`] and `into` keeps its contents; a longer one
/// is accepted and its surplus ignored.
pub fn zip_into<T, const N: usize>(op: Operator, lhs: &[T; N], rhs: &[T], into: &mut [T; N]) -> (res:
    Result<(), MathError>)
    where T: Copy + Add<Output = T> + Sub<Output = T>
    requires
        zip_defined(op, lhs@, rhs@),
    ensures
        res is Ok <==> N <= rhs@.len(),
        res is Ok ==> zip_holds(op, lhs@, rhs@, final(into)@),
        res matches Err(e) ==> e == length_mismatch(N as nat, rhs@.len()) && *final(into) == *old(
            into,
        ),
{
    if rhs.len() < N {
        return Err(MathError::LengthMismatch { expected: N, found: rhs.len() });
    }
    let mut i: usize = 0;
    while i < N
        invariant
            i <= N <= rhs@.len(),
            zip_defined(op, lhs@, rhs@),
            obeys_spec::<T>(op) ==> forall|j: int|
                0 <= j < i ==> into@[j] == value(op, lhs@[j], rhs@[j]),
        decreases N - i,
    {
        assert(defined(op, lhs@[i as int], rhs@[i as int]));
        into[i] = apply(op, lhs[i], rhs[i]);
        i += 1;
    }
    assert(obeys_spec::<T>(op) ==> into@ =~= zip_with(op, lhs@, rhs@));
    Ok(())
}

/// Returns the array whose element `i` is `lhs[i] op rhs[i]`.
///
/// A `rhs` shorter than the array is refused with
/// [`MathError::LengthMismatch`]; a longer one is accepted and its surplus
/// ignored.
pub fn zip_new<T, const N: usize>(op: Operator, lhs: &[T; N], rhs: &[T]) -> (res: Result<
    [T; N],
    MathError,
>)
    where T: Copy + Add<Output = T> + Sub<Output = T>
    requires
        zip_defined(op, lhs@, rhs@),
    ensures
        res is Ok <==> N <= rhs@.len(),
        res matches Ok(out) ==> zip_holds(op, lhs@, rhs@, out@),
        res matches Err(e) ==> e == length_mismatch(N as nat, rhs@.len()),
{
    let mut out: [T; N] = *lhs;
    match zip_assign(op, &mut out, rhs) {
        Ok(()) => Ok(out),
        Err(e) => Err(e),
    }
}

/// Replaces each `target[i]` by `target[i] op scalar`.
pub fn map_assign<T, const N: usize>(op: Operator, target: &mut [T; N], scalar: T)
    where T: Copy + Add<Output = T> + Sub<Output = T>
    requires
        map_defined(op, old(target)@, scalar),
    ensures
        map_holds(op, old(target)@, scalar, final(target)@),
{
    let ghost before = target@;
    let mut i: usize = 0;
    while i < N
        invariant
            i <= N,
            before.len() == N,
            map_defined(op, before, scalar),
            forall|j: int| i <= j < N ==> target@[j] == before[j],
            obeys_spec::<T>(op) ==> forall|j: int|
                0 <= j < i ==> target@[j] == value(op, before[j], scalar),
        decreases N - i,
    {
        assert(defined(op, before[i as int], scalar));
        target[i] = apply(op, target[i], scalar);
        i += 1;
    }
    assert(obeys_spec::<T>(op) ==> target@ =~= map_with(op, before, scalar));
}

/// Writes `lhs[i] op scalar` to each `into[i]`, without reading what `into`
/// held.
pub fn map_into<T, const N: usize>(op: Operator, lhs: &[T; N], scalar: T, into: &mut [T; N])
    where T: Copy + Add<Output = T> + Sub<Output = T>
    requires
        map_defined(op, lhs@, scalar),
    ensures
        map_holds(op, lhs@, scalar, final(into)@),
{
    let mut i: usize = 0;
    while i < N
        invariant
            i <= N,
            map_defined(op, lhs@, scalar),
            obeys_spec::<T>(op) ==> forall|j: int|
                0 <= j < i ==> into@[j] == value(op, lhs@[j], scalar),
        decreases N - i,
    {
        assert(defined(op, lhs@[i as int], scalar));
        into[i] = apply(op, lhs[i], scalar);
        i += 1;
    }
    assert(obeys_spec::<T>(op) ==> into@ =~= map_with(op, lhs@, scalar));
}

/// Returns the array whose element `i` is `lhs[i] op scalar`.
pub fn map_new<T, const N: usize>(op: Operator, lhs: &[T; N], scalar: T) -> (out: [T; N])
    where T: Copy + Add<Output = T> + Sub<Output = T>
    requires
        map_defined(op, lhs@, scalar),
    ensures
        map_holds(op, lhs@, scalar, out@),
{
    let mut out: [T; N] = *lhs;
    map_assign(op, &mut out, scalar);
    out
}

} // verus!
