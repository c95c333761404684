//! An array-like container with the safety that cryptographic keys ask for.
//!
//! A `SafeArray` gives its items out by reference and is not `Copy`, so that no copy of a
//! key arises unseen. Arrays of bytes are compared in constant time and can be erased.

use crate::decimal::{decimal, to_decimal};
use crate::hidden::{Named, Wipe};
use vstd::prelude::*;
use vstd::string::StringExecFns;

verus! {

/// A container for `N` items, kept on the heap. A new container holds `N` items; erasing
/// leaves none.
#[derive(Debug)]
pub struct SafeArray<T, const N: usize>(Vec<T>);

/// `ConstantTimeEq::ct_eq` for slices of bytes, with its choice turned into a `bool`:
/// whether the two slices are equal. Slices of the same length are compared in a time
/// that does not depend on what they hold.
#[verifier::external_body]
fn ct_eq_bytes(a: &[u8], b: &[u8]) -> (equal: bool)
    ensures
        equal == (a@ == b@),
{
    bool::from(subtle::ConstantTimeEq::ct_eq(a, b))
}

impl<T, const N: usize> SafeArray<T, N> {
    /// The items in the container.
    pub closed spec fn view(&self) -> Seq<T> {
        self.0@
    }
}

impl<T, const N: usize> AsRef<[T]> for SafeArray<T, N> {
    /// Gives the items out as a slice.
    fn as_ref(&self) -> (items: &[T])
        ensures
            items@ == self@,
    {
        self.0.as_slice()
    }
}

impl<T, const N: usize> AsMut<[T]> for SafeArray<T, N> {
    /// Gives the items out as a slice whose items can be changed in place.
    fn as_mut(&mut self) -> (items: &mut [T])
        ensures
            items@ == old(self)@,
            final(self)@ == final(items)@,
    {
        self.0.as_mut_slice()
    }
}

impl<T: Clone, const N: usize> Clone for SafeArray<T, N> {
    /// Makes a container of its own that holds a clone of each item.
    fn clone(&self) -> (copy: Self)
        ensures
            copy@.len() == self@.len(),
            forall|i: int| 0 <= i < self@.len() ==> cloned::<T>(self@[i], #[trigger] copy@[i]),
    {
        SafeArray(self.0.clone())
    }
}

/// Whether each of the items is a clone of `item`.
pub open spec fn filled_with<T: Clone>(items: Seq<T>, item: T) -> bool {
    forall|i: int| 0 <= i < items.len() ==> cloned::<T>(item, #[trigger] items[i])
}

impl<T: Clone + Default, const N: usize> Default for SafeArray<T, N> {
    /// Makes a container of `N` items, each a clone of the default item.
    fn default() -> (array: Self)
        ensures
            array@.len() == N,
            exists|item: T|
                call_ensures(T::default, (), item) && #[trigger] filled_with(array@, item),
    {
        let mut v = Vec::<T>::with_capacity(N);
        let item = T::default();
        let ghost filler = item;
        v.resize(N, item);
        assert(filled_with(v@, filler));
        SafeArray(v)
    }
}

impl<const N: usize> SafeArray<u8, N> {
    /// Tells whether two containers hold the same bytes. Containers of the same length
    /// are compared in constant time.
    pub fn ct_eq(&self, other: &Self) -> (equal: bool)
        ensures
            equal == (self@ == other@),
    {
        ct_eq_bytes(self.0.as_slice(), other.0.as_slice())
    }
}

impl<const N: usize> PartialEq for SafeArray<u8, N> {
    /// Tells whether two containers hold the same bytes, as `ct_eq` does.
    fn eq(&self, other: &Self) -> (equal: bool) {
        self.ct_eq(other)
    }
}

impl<const N: usize> vstd::std_specs::cmp::PartialEqSpecImpl for SafeArray<u8, N> {
    open spec fn obeys_eq_spec() -> bool {
        true
    }

    open spec fn eq_spec(&self, other: &Self) -> bool {
        self@ == other@
    }
}

impl<const N: usize> Eq for SafeArray<u8, N> {

}

impl<const N: usize> Wipe for SafeArray<u8, N> {
    open spec fn wiped(&self) -> bool {
        self@.len() == 0
    }

    /// Erases the bytes. The container is empty afterwards.
    fn wipe(&mut self) {
        self.0.wipe()
    }
}

impl<const N: usize> zeroize::Zeroize for SafeArray<u8, N> {
    /// Erases the bytes. The container is empty afterwards.
    fn zeroize(&mut self)
        ensures
            final(self)@.len() == 0,
    {
        self.0.wipe()
    }
}

impl<const N: usize> Named for SafeArray<u8, N> {
    open spec fn name_text() -> Seq<char> {
        "tari_utilities::safe_array::SafeArray<u8, "@ + decimal(N as nat) + ">"@
    }

    fn name() -> (name: String) {
        let mut name = "tari_utilities::safe_array::SafeArray<u8, ".to_owned();
        let count = to_decimal(N as u64);
        name.append(count.as_str());
        name.append(">");
        name
    }
}

} // verus!
