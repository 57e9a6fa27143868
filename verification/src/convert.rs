//! Turning the elements of a handle into native values.
//!
//! Three conversions differ in who owns what an element points to once it
//! has been converted. The conversion of one element is the caller's, and
//! comes as a function; what is fixed here is that every element goes
//! through it once, in order.

use crate::array::Array;
use vstd::prelude::*;

verus! {

/// Whether `converted` holds, index for index, a value that `convert` may
/// return for the element of `elements` at that index.
pub open spec fn converted_by<T, U, F: Fn(T) -> U>(
    elements: Seq<T>,
    convert: F,
    converted: Seq<U>,
) -> bool {
    &&& converted.len() == elements.len()
    &&& forall|i: int|
        0 <= i < elements.len() ==> call_ensures(convert, (elements[i],), #[trigger] converted[i])
}

/// Whether `convert` may be called on every element of `elements`.
pub open spec fn convertible_by<T, U, F: Fn(T) -> U>(elements: Seq<T>, convert: F) -> bool {
    forall|i: int| 0 <= i < elements.len() ==> call_requires(convert, (#[trigger] elements[i],))
}

fn convert_each<T: Copy, U, F: Fn(T) -> U>(slice: &[T], convert: &F) -> (vec: Vec<U>)
    requires
        convertible_by(slice@, *convert),
    ensures
        converted_by(slice@, *convert, vec@),
{
    let mut vec: Vec<U> = Vec::new();
    let mut i: usize = 0;
    while i < slice.len()
        invariant
            i <= slice@.len(),
            convertible_by(slice@, *convert),
            converted_by(slice@.take(i as int), *convert, vec@),
        decreases slice@.len() - i,
    {
        vec.push(convert(slice[i]));
        i += 1;
    }
    vec
}

impl<T: Copy> Array<T> {
    /// Converts every element by value: `from_glib` gets a copy of the
    /// element, and the handle keeps what it holds.
    pub fn as_vec<U, F: Fn(T) -> U>(&self, from_glib: F) -> (vec: Vec<U>)
        requires
            convertible_by(self@, from_glib),
        ensures
            converted_by(self@, from_glib, vec@),
    {
        convert_each(self.as_slice(), &from_glib)
    }

    /// Converts every element and hands over with it what the element points
    /// to: `from_glib_full` makes the native value the owner.
    ///
    /// The handle is used up, so that nothing is handed over twice.
    pub fn as_vec_full<U, F: Fn(T) -> U>(self, from_glib_full: F) -> (vec: Vec<U>)
        requires
            convertible_by(self@, from_glib_full),
        ensures
            converted_by(self@, from_glib_full, vec@),
    {
        convert_each(self.as_slice(), &from_glib_full)
    }

    /// Converts every element and leaves what the element points to with the
    /// array: `from_glib_none` gives the native value a claim of its own.
    /// This can be done any number of times.
    pub fn as_vec_none<U, F: Fn(T) -> U>(&self, from_glib_none: F) -> (vec: Vec<U>)
        requires
            convertible_by(self@, from_glib_none),
        ensures
            converted_by(self@, from_glib_none, vec@),
    {
        convert_each(self.as_slice(), &from_glib_none)
    }
}

} // verus!
