//! The untyped array that a typed handle is laid over.

use vstd::prelude::*;

verus! {

/// A growable array of elements of one fixed size, as GLib's `GArray` is one.
///
/// The array records the size in bytes of one element, as it was given when
/// the array was made, and holds the elements that were appended, in the
/// order in which they came. Nothing holds the recorded size against `T`:
/// that is the business of the typed handle.
#[derive(Debug)]
pub struct RawArray<T> {
    element_size: u32,
    items: Vec<T>,
}

impl<T> View for RawArray<T> {
    type V = Seq<T>;

    /// The elements, in order.
    closed spec fn view(&self) -> Seq<T> {
        self.items@
    }
}

impl<T> RawArray<T> {
    /// The recorded size in bytes of one element.
    pub closed spec fn spec_element_size(&self) -> usize {
        self.element_size as usize
    }

    /// Makes an empty array for elements of `element_size` bytes, and asks
    /// for room for `reserved_size` of them.
    pub fn sized_new(element_size: u32, reserved_size: u32) -> (array: Self)
        ensures
            array.element_size() == element_size,
            array@ == Seq::<T>::empty(),
    {
        let mut items: Vec<T> = Vec::new();
        let _ = items.try_reserve(reserved_size as usize);
        RawArray { element_size, items }
    }

    /// The recorded size in bytes of one element.
    #[verifier::when_used_as_spec(spec_element_size)]
    pub fn element_size(&self) -> (size: usize)
        ensures
            size == self.element_size(),
            size <= u32::MAX,
    {
        self.element_size as usize
    }

    /// The number of elements.
    pub fn len(&self) -> (len: usize)
        ensures
            len == self@.len(),
    {
        self.items.len()
    }

    /// The elements, in order.
    pub fn data(&self) -> (data: &[T])
        ensures
            data@ == self@,
    {
        self.items.as_slice()
    }

    /// The elements, in order, open to change in place.
    pub fn data_mut(&mut self) -> (data: &mut [T])
        ensures
            data@ == old(self)@,
            final(self)@ == final(data)@,
            final(self).element_size() == old(self).element_size(),
    {
        self.items.as_mut_slice()
    }

    /// Appends the first `len` elements of `data`, in order.
    pub fn append_vals(&mut self, data: &[T], len: u32) where T: Copy
        requires
            len <= data@.len(),
            old(self)@.len() + len <= u32::MAX,
        ensures
            final(self)@ == old(self)@ + data@.take(len as int),
            final(self).element_size() == old(self).element_size(),
    {
        let mut i: usize = 0;
        while i < len as usize
            invariant
                i <= len <= data@.len(),
                self@ == old(self)@ + data@.take(i as int),
                self.element_size() == old(self).element_size(),
            decreases len - i,
        {
            self.items.push(data[i]);
            i += 1;
        }
    }
}

} // verus!
