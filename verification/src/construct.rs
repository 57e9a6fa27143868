//! Building a handle from native values.

use crate::array::Array;
use crate::raw::RawArray;
use vstd::layout::size_of;
use vstd::pervasive::runtime_assert;
use vstd::prelude::*;

verus! {

/// The number of elements and the size of one element as an array counts
/// them, for `len` elements of `T`.
///
/// That both fit is compared when the counts are taken as well, so that a
/// caller outside verified code is stopped here and no count is cut short.
fn counts<T: Copy>(len: usize) -> (counts: (u32, u32))
    requires
        Array::<T>::fits(len as nat),
    ensures
        counts.0 == len,
        counts.1 == size_of::<T>(),
{
    let element_size: usize = core::mem::size_of::<T>();
    runtime_assert(len <= u32::MAX as usize);
    runtime_assert(element_size <= u32::MAX as usize);
    (len as u32, element_size as u32)
}

impl<T: Copy> Array<T> {
    /// Whether an array of `len` elements of `T` can be made: the number of
    /// elements and the size of one element are each counted in 32 bits.
    pub open spec fn fits(len: nat) -> bool {
        len <= u32::MAX && size_of::<T>() <= u32::MAX
    }

    /// Whether the handle was built from `values`: it is well formed and
    /// holds `values`, all of them and in their order.
    pub open spec fn built_from(&self, values: Seq<T>) -> bool {
        self.well_formed() && self@ == values
    }

    /// Builds a handle over a new array that holds the values of `vec`, in
    /// order.
    ///
    /// The array is asked for room for exactly `vec.len()` elements, and the
    /// values go in with one append; an empty `vec` appends nothing.
    pub fn from(vec: Vec<T>) -> (array: Array<T>)
        requires
            Self::fits(vec@.len()),
        ensures
            array.built_from(vec@),
    {
        let (len, element_size): (u32, u32) = counts::<T>(vec.len());
        // A new array of the correct size
        let mut garray: RawArray<T> = RawArray::sized_new(element_size, len);
        // Add all the elements
        if len != 0 {
            garray.append_vals(vec.as_slice(), len);
        }
        assert(garray@ =~= vec@);
        Array::new(garray)
    }

    /// Builds a handle over a new array that holds, in order, what
    /// `to_glib_none` makes of each element of `slice`.
    ///
    /// `to_glib_none` gives for a native value the value that goes into the
    /// array and a guard that keeps alive whatever that value points into.
    /// The pairs come back beside the handle, one for each element of `slice`
    /// in its order: the array holds copies of the values only, so the guards
    /// have to live as long as the handle is used.
    pub fn from_slice_none<'a, U, G, F>(slice: &'a [U], to_glib_none: F) -> (out: (
        Array<T>,
        Vec<(T, G)>,
    )) where F: Fn(&'a U) -> (T, G)
        requires
            Self::fits(slice@.len()),
            forall|i: int| 0 <= i < slice@.len() ==> call_requires(to_glib_none, (&slice@[i],)),
        ensures
            out.1@.len() == slice@.len(),
            forall|i: int|
                0 <= i < slice@.len() ==> call_ensures(
                    to_glib_none,
                    (&slice@[i],),
                    #[trigger] out.1@[i],
                ),
            out.0.built_from(out.1@.map_values(|stash: (T, G)| stash.0)),
    {
        let (len, element_size): (u32, u32) = counts::<T>(slice.len());
        // A new array of the correct size
        let mut garray: RawArray<T> = RawArray::sized_new(element_size, len);
        // The backing storage for the values and for what they point into
        let mut stashes: Vec<(T, G)> = Vec::new();
        let mut i: usize = 0;
        while i < slice.len()
            invariant
                i <= slice@.len(),
                stashes@.len() == i,
                forall|j: int| 0 <= j < slice@.len() ==> call_requires(to_glib_none, (&slice@[j],)),
                forall|j: int|
                    0 <= j < i ==> call_ensures(to_glib_none, (&slice@[j],), #[trigger] stashes@[j]),
            decreases slice@.len() - i,
        {
            stashes.push(to_glib_none(&slice[i]));
            i += 1;
        }
        // Add all the elements
        let mut k: usize = 0;
        while k < stashes.len()
            invariant
                k <= stashes@.len() <= u32::MAX,
                garray@.len() == k,
                garray.element_size() == size_of::<T>(),
                forall|j: int| 0 <= j < k ==> #[trigger] garray@[j] == stashes@[j].0,
            decreases stashes@.len() - k,
        {
            let elem: [T; 1] = [stashes[k].0];
            garray.append_vals(elem.as_slice(), 1);
            k += 1;
        }
        assert(garray@ =~= stashes@.map_values(|stash: (T, G)| stash.0));
        (Array::new(garray), stashes)
    }
}

} // verus!
