//! A cell for sensitive data, such as a passphrase or key material.
//!
//! The cell keeps its value on the heap and out of sight: the value is reached only by
//! reference, the text that the cell prints names its type and its label and never the
//! value, and the value can be erased in place.
//!
//! A cell does not erase its value by itself when it goes out of scope. `with_secret`
//! lends a cell for the length of one call and erases it afterwards; a cell that lives
//! longer is erased with `zeroize`, or is kept in a `zeroize::Zeroizing`, which erases
//! what it holds when it is dropped.

use crate::decimal::{decimal, to_decimal};
use core::cmp::Ordering;
use core::marker::PhantomData;
use vstd::prelude::*;
use vstd::std_specs::cmp::{PartialEqSpec, PartialOrdSpec};
use vstd::std_specs::convert::FromSpecImpl;
use vstd::string::StringExecFns;

verus! {

/// A type that a cell can name in place of its values.
pub trait Named {
    /// The name of the type.
    spec fn name_text() -> Seq<char>;

    /// Returns the name of the type.
    fn name() -> (name: String)
        ensures
            name@ == Self::name_text(),
    ;
}

/// A type whose values can be erased in place.
pub trait Wipe {
    /// Whether the value holds nothing but what erasing leaves behind.
    spec fn wiped(&self) -> bool;

    /// Overwrites the value, so that nothing of it is left in its place.
    fn wipe(&mut self)
        ensures
            final(self).wiped(),
    ;
}

/// `Zeroize::zeroize` for `u8`: writes zero over the byte.
#[verifier::external_body]
fn zeroize_byte(byte: &mut u8)
    ensures
        *final(byte) == 0,
{
    zeroize::Zeroize::zeroize(byte)
}

/// `Zeroize::zeroize` for an array of bytes: writes zero over each byte.
#[verifier::external_body]
fn zeroize_array<const N: usize>(bytes: &mut [u8; N])
    ensures
        forall|i: int| 0 <= i < N ==> final(bytes)[i] == 0,
{
    zeroize::Zeroize::zeroize(bytes)
}

/// `Zeroize::zeroize` for a vector of bytes: writes zero over the bytes and over the
/// spare capacity, and leaves the vector empty.
#[verifier::external_body]
fn zeroize_vec(bytes: &mut Vec<u8>)
    ensures
        final(bytes)@.len() == 0,
{
    zeroize::Zeroize::zeroize(bytes)
}

/// `Zeroize::zeroize` for a string: writes zero over its bytes and over the spare
/// capacity, and leaves the string empty.
#[verifier::external_body]
fn zeroize_string(text: &mut String)
    ensures
        final(text)@.len() == 0,
{
    zeroize::Zeroize::zeroize(text)
}

impl Named for u8 {
    open spec fn name_text() -> Seq<char> {
        "u8"@
    }

    fn name() -> (name: String) {
        "u8".to_owned()
    }
}

impl Wipe for u8 {
    open spec fn wiped(&self) -> bool {
        *self == 0
    }

    fn wipe(&mut self) {
        zeroize_byte(self)
    }
}

impl<const N: usize> Named for [u8; N] {
    open spec fn name_text() -> Seq<char> {
        "[u8; "@ + decimal(N as nat) + "]"@
    }

    fn name() -> (name: String) {
        let mut name = "[u8; ".to_owned();
        let count = to_decimal(N as u64);
        name.append(count.as_str());
        name.append("]");
        name
    }
}

impl<const N: usize> Wipe for [u8; N] {
    open spec fn wiped(&self) -> bool {
        forall|i: int| 0 <= i < N ==> self[i] == 0
    }

    fn wipe(&mut self) {
        zeroize_array(self)
    }
}

impl Named for Vec<u8> {
    open spec fn name_text() -> Seq<char> {
        "alloc::vec::Vec<u8>"@
    }

    fn name() -> (name: String) {
        "alloc::vec::Vec<u8>".to_owned()
    }
}

impl Wipe for Vec<u8> {
    open spec fn wiped(&self) -> bool {
        self@.len() == 0
    }

    fn wipe(&mut self) {
        zeroize_vec(self)
    }
}

impl Named for String {
    open spec fn name_text() -> Seq<char> {
        "alloc::string::String"@
    }

    fn name() -> (name: String) {
        "alloc::string::String".to_owned()
    }
}

impl Wipe for String {
    open spec fn wiped(&self) -> bool {
        self@.len() == 0
    }

    fn wipe(&mut self) {
        zeroize_string(self)
    }
}

/// A marker that keeps cells for different purposes apart, where their values are of the
/// same type. Cells with different labels are different types: one cannot be assigned to,
/// compared with or passed for the other.
pub trait Label {
    /// The name that cells with this label print, if they print one.
    spec fn label_text() -> Option<Seq<char>>;

    /// Returns the name that cells with this label print, if they print one.
    fn label() -> (label: Option<String>)
        ensures
            label_view(label) == Self::label_text(),
    ;
}

/// A label's name as characters.
pub open spec fn label_view(label: Option<String>) -> Option<Seq<char>> {
    match label {
        Some(name) => Some(name@),
        None => None,
    }
}

/// The label of a cell that was given none. Such cells can stand in for one another.
pub struct Unlabelled;

impl Label for Unlabelled {
    open spec fn label_text() -> Option<Seq<char>> {
        None
    }

    fn label() -> (label: Option<String>) {
        None
    }
}

/// A cell that keeps a value out of sight.
pub struct Hidden<T: Wipe, L: Label = Unlabelled> {
    inner: Box<T>,
    label: PhantomData<L>,
}

/// The text that stands in for a cell's value: the name of the value's type, and the
/// label's name where there is one.
pub open spec fn mask_text(name: Seq<char>, label: Option<Seq<char>>) -> Seq<char> {
    match label {
        Some(label_name) => "Hidden<"@ + name + ", "@ + label_name + ">"@,
        None => "Hidden<"@ + name + ">"@,
    }
}

impl<T: Wipe> Hidden<T> {
    /// Takes a value into a cell without a label.
    pub fn conceal(inner: T) -> (cell: Self)
        ensures
            cell == Self::holding(inner),
            cell@ == inner,
    {
        Hidden { inner: Box::new(inner), label: PhantomData }
    }

    /// Lends `f` a cell that holds `value`, erases the cell when `f` has returned, and
    /// returns what `f` returned.
    pub fn with_secret<R, F: FnOnce(&Hidden<T>) -> R>(value: T, f: F) -> (result: R)
        requires
            call_requires(f, (&Self::holding(value),)),
        ensures
            call_ensures(f, (&Self::holding(value),), result),
    {
        let mut cell = Hidden::conceal(value);
        let result = f(&cell);
        cell.wipe();
        result
    }
}

impl<T: Wipe, L: Label> Hidden<T, L> {
    /// The value in the cell.
    pub closed spec fn view(&self) -> T {
        *self.inner
    }

    /// The cell that holds `value`.
    pub closed spec fn holding(value: T) -> Self {
        Hidden { inner: Box::new(value), label: PhantomData }
    }

    /// Reveals the value by reference.
    pub fn reveal_ref(&self) -> (value: &T)
        ensures
            *value == self@,
    {
        &*self.inner
    }

    /// Reveals the value by mutable reference, to be changed in place.
    pub fn reveal_mut(&mut self) -> (value: &mut T)
        ensures
            *value == old(self)@,
            final(self)@ == *final(value),
    {
        &mut *self.inner
    }
}

impl<T: Wipe + Named, L: Label> Hidden<T, L> {
    /// The text that the cell prints. It is made of the names of the type and of the
    /// label, not of the value.
    pub open spec fn mask(&self) -> Seq<char> {
        mask_text(T::name_text(), L::label_text())
    }

    /// Writes the text that stands in for the value: the name of the value's type, and
    /// the label's name where there is one. Nothing of the value is in it.
    pub fn to_string(&self) -> (text: String)
        ensures
            text@ == self.mask(),
    {
        let mut text = "Hidden<".to_owned();
        let name = T::name();
        text.append(name.as_str());
        match L::label() {
            Some(label_name) => {
                text.append(", ");
                text.append(label_name.as_str());
            },
            None => {},
        }
        text.append(">");
        text
    }
}

impl<T: Wipe, L: Label> Wipe for Hidden<T, L> {
    open spec fn wiped(&self) -> bool {
        self@.wiped()
    }

    fn wipe(&mut self) {
        self.inner.wipe()
    }
}

impl<T: Wipe, L: Label> zeroize::Zeroize for Hidden<T, L> {
    /// Erases the value in the cell.
    fn zeroize(&mut self)
        ensures
            final(self)@.wiped(),
    {
        self.inner.wipe()
    }
}

impl<T: Wipe, L: Label> From<T> for Hidden<T, L> {
    /// Takes a value into a cell.
    fn from(value: T) -> (cell: Self)
        ensures
            cell@ == value,
    {
        Hidden { inner: Box::new(value), label: PhantomData }
    }
}

impl<T: Wipe, L: Label> FromSpecImpl<T> for Hidden<T, L> {
    open spec fn obeys_from_spec() -> bool {
        true
    }

    open spec fn from_spec(value: T) -> Self {
        Self::holding(value)
    }
}

impl<T: Wipe + Clone, L: Label> Clone for Hidden<T, L> {
    /// Makes a cell of its own that holds a clone of the value.
    fn clone(&self) -> (copy: Self)
        ensures
            cloned::<T>(self@, copy@),
    {
        Hidden { inner: Box::new((*self.inner).clone()), label: PhantomData }
    }
}

impl<T: Wipe + PartialEq, L: Label> PartialEq for Hidden<T, L> {
    /// Compares the values in the two cells by their own `==`.
    fn eq(&self, other: &Self) -> (equal: bool) {
        *self.inner == *other.inner
    }
}

impl<T: Wipe + PartialEq, L: Label> vstd::std_specs::cmp::PartialEqSpecImpl for Hidden<T, L> {
    open spec fn obeys_eq_spec() -> bool {
        T::obeys_eq_spec()
    }

    open spec fn eq_spec(&self, other: &Self) -> bool {
        self@.eq_spec(&other@)
    }
}

impl<T: Wipe + Eq, L: Label> Eq for Hidden<T, L> {

}

impl<T: Wipe + PartialOrd, L: Label> PartialOrd for Hidden<T, L> {
    /// Orders the two cells as their values are ordered.
    fn partial_cmp(&self, other: &Self) -> (order: Option<Ordering>) {
        (*self.inner).partial_cmp(&*other.inner)
    }
}

impl<T: Wipe + PartialOrd, L: Label> vstd::std_specs::cmp::PartialOrdSpecImpl for Hidden<T, L> {
    open spec fn obeys_partial_cmp_spec() -> bool {
        T::obeys_partial_cmp_spec()
    }

    open spec fn partial_cmp_spec(&self, other: &Self) -> Option<Ordering> {
        self@.partial_cmp_spec(&other@)
    }
}

/// A cell reveals the value that it was made of.
pub proof fn lemma_holding_reveals<T: Wipe, L: Label>(value: T)
    ensures
        Hidden::<T, L>::holding(value)@ == value,
{
}

/// Cells of one type print the same text, whatever their values are.
pub proof fn lemma_mask_tells_nothing_of_the_value<T: Wipe + Named, L: Label>(
    first: Hidden<T, L>,
    second: Hidden<T, L>,
)
    ensures
        first.mask() == second.mask(),
{
}

/// Cells made of different values are different, and are unequal wherever the values are
/// unequal by their own `==`.
pub proof fn lemma_different_values_differ<T: Wipe + PartialEq, L: Label>(first: T, second: T)
    ensures
        first != second ==> Hidden::<T, L>::holding(first) != Hidden::<T, L>::holding(second),
        !first.eq_spec(&second) ==> !Hidden::<T, L>::holding(first).eq_spec(
            &Hidden::<T, L>::holding(second),
        ),
{
}

} // verus!
