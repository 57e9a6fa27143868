//! What holds of a handle that was built from a vector of plain values.
//!
//! Each law takes the values that the calls it speaks of take and return,
//! and asks of them what the contracts of those calls ensure.

use crate::array::{cloned_from, clones_exactly, Array};
use vstd::prelude::*;

verus! {

/// A clone of an integer or of a `bool` equals what it was cloned from.
pub proof fn lemma_integers_clone_exactly()
    ensures
        clones_exactly::<bool>(),
        clones_exactly::<u8>(),
        clones_exactly::<u16>(),
        clones_exactly::<u32>(),
        clones_exactly::<u64>(),
        clones_exactly::<u128>(),
        clones_exactly::<usize>(),
        clones_exactly::<i8>(),
        clones_exactly::<i16>(),
        clones_exactly::<i32>(),
        clones_exactly::<i64>(),
        clones_exactly::<i128>(),
        clones_exactly::<isize>(),
{
}

/// The slice of a handle that was built from `vec` has the length of `vec`
/// and holds the same values in the same order.
pub proof fn lemma_slice_of_built<T: Copy>(vec: Vec<T>, array: Array<T>, slice: &[T])
    requires
        array.built_from(vec@),
        slice@ == array@,
    ensures
        slice@.len() == vec@.len(),
        forall|i: int| 0 <= i < vec@.len() ==> slice@[i] == vec@[i],
        slice@ == vec@,
{
}

/// The clones taken from a handle that was built from `vec` are the values
/// of `vec`, where a clone of a `T` equals what it was cloned from.
pub proof fn lemma_clones_of_built<T: Copy>(vec: Vec<T>, array: Array<T>, clones: Vec<T>)
    requires
        clones_exactly::<T>(),
        array.built_from(vec@),
        cloned_from(array@, clones@),
    ensures
        clones@ == vec@,
{
    assert(clones@ =~= vec@);
}

/// The element at `i` of a handle that was built from `vec` is the value at
/// `i` of `vec`.
pub proof fn lemma_index_of_built<T: Copy>(vec: Vec<T>, array: Array<T>, i: int)
    requires
        array.built_from(vec@),
        0 <= i < vec@.len(),
    ensures
        array[i] == vec@[i],
{
}

/// Building a handle from `vec` and taking clones from it gives `vec` back,
/// and doing the same with what came back gives it back again, where a clone
/// of a `T` equals what it was cloned from.
pub proof fn lemma_round_trip<T: Copy>(
    vec: Vec<T>,
    array: Array<T>,
    clones: Vec<T>,
    again: Array<T>,
    clones_again: Vec<T>,
)
    requires
        clones_exactly::<T>(),
        array.built_from(vec@),
        cloned_from(array@, clones@),
        again.built_from(clones@),
        cloned_from(again@, clones_again@),
    ensures
        clones@ == vec@,
        clones_again@ == clones@,
{
    lemma_clones_of_built(vec, array, clones);
    lemma_clones_of_built(clones, again, clones_again);
}

} // verus!
