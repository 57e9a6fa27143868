//! The typed handle.

use crate::raw::RawArray;
use vstd::layout::size_of;
use vstd::pervasive::runtime_assert;
use vstd::prelude::*;

verus! {

/// Whether `clones` holds, index for index, a clone of the element of
/// `elements` at that index.
pub open spec fn cloned_from<T: Clone>(elements: Seq<T>, clones: Seq<T>) -> bool {
    &&& clones.len() == elements.len()
    &&& forall|i: int| 0 <= i < elements.len() ==> cloned::<T>(elements[i], #[trigger] clones[i])
}

/// Whether a clone of a `T` always equals what it was cloned from, as it
/// does for integers and other plain values.
pub open spec fn clones_exactly<T: Clone>() -> bool {
    forall|a: T, b: T| #[trigger] cloned::<T>(a, b) ==> a == b
}

/// A handle that shows an untyped array as a slice of `T`.
///
/// The array under the handle knows how many bytes one of its elements
/// takes, not what the element is. The handle is made only where that size
/// is the size of `T`, and no operation on the handle changes it.
#[derive(Debug)]
pub struct Array<T> {
    garray: RawArray<T>,
}

impl<T> View for Array<T> {
    type V = Seq<T>;

    /// The elements of the array under the handle, in order.
    closed spec fn view(&self) -> Seq<T> {
        self.garray@
    }
}

impl<T> Array<T> {
    /// The size in bytes of one element that the array under the handle
    /// records.
    pub closed spec fn element_size(&self) -> nat {
        self.garray.element_size() as nat
    }

    /// The invariant of a handle: the array under it records the size of `T`
    /// as the size of its elements.
    pub open spec fn well_formed(&self) -> bool {
        self.element_size() == size_of::<T>()
    }

    /// The element at `i`; lets contracts write `array[i]`.
    pub open spec fn spec_index(&self, i: int) -> T
        recommends
            0 <= i < self@.len(),
    {
        self@[i]
    }

    /// Lays a handle over `garray`, which must record the size of `T` as the
    /// size of its elements.
    ///
    /// This is the one place where an `Array` is made, and so the one gate
    /// that holds the recorded element size against `T`. The sizes are
    /// compared when the handle is made as well, so that a caller outside
    /// verified code is stopped here and gets no handle.
    pub fn new(garray: RawArray<T>) -> (array: Array<T>)
        requires
            garray.element_size() == size_of::<T>(),
        ensures
            array.well_formed(),
            array@ == garray@,
    {
        runtime_assert(core::mem::size_of::<T>() == garray.element_size());
        Array { garray }
    }

    /// The elements as a slice.
    pub fn as_slice(&self) -> (slice: &[T])
        ensures
            slice@ == self@,
    {
        self.garray.data()
    }

    /// The elements as a slice that can be written through; what is written
    /// is what the handle holds afterwards.
    pub fn as_slice_mut(&mut self) -> (slice: &mut [T])
        ensures
            slice@ == old(self)@,
            final(self)@ == final(slice)@,
            final(self).element_size() == old(self).element_size(),
    {
        self.garray.data_mut()
    }

    /// A vector of clones of the elements, in order. The handle keeps what
    /// it holds.
    pub fn to_vec(&self) -> (vec: Vec<T>) where T: Clone
        ensures
            cloned_from(self@, vec@),
            clones_exactly::<T>() ==> vec@ == self@,
    {
        let mut vec: Vec<T> = Vec::new();
        vec.extend_from_slice(self.as_slice());
        assert(clones_exactly::<T>() ==> vec@ =~= self@);
        vec
    }
}

impl<T> core::ops::Deref for Array<T> {
    type Target = [T];

    fn deref(&self) -> (slice: &[T])
        ensures
            slice@ == self@,
    {
        self.as_slice()
    }
}

impl<T> core::ops::DerefMut for Array<T> {
    fn deref_mut(&mut self) -> (slice: &mut [T])
        ensures
            slice@ == old(self)@,
            final(self)@ == final(slice)@,
            final(self).element_size() == old(self).element_size(),
    {
        self.as_slice_mut()
    }
}

} // verus!
