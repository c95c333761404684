//! A passphrase that is kept out of sight.

use crate::hidden::{Hidden, Wipe};
use core::str::FromStr;
use vstd::prelude::*;
use vstd::std_specs::convert::FromSpecImpl;
use vstd::utf8::encode_utf8;

verus! {

/// A passphrase, kept as the bytes of its text in UTF-8. The bytes are reached only by
/// reference, and `Hidden` keeps them out of sight.
///
/// A passphrase can be made of a string slice or of a string. No text is refused: what a
/// good passphrase is, its user decides.
pub struct SafePassword {
    passphrase: Hidden<Vec<u8>>,
}

/// The error of reading a passphrase from text. No text gives it.
#[derive(Debug)]
pub struct PasswordError;

impl PasswordError {
    /// The error's message.
    pub open spec fn message() -> Seq<char> {
        "PasswordError"@
    }

    /// Returns the error's message.
    pub fn to_string(&self) -> (text: String)
        ensures
            text@ == Self::message(),
    {
        "PasswordError".to_owned()
    }
}

impl SafePassword {
    /// The bytes of the passphrase.
    pub closed spec fn view(&self) -> Seq<u8> {
        self.passphrase@@
    }

    /// Reveals the bytes of the passphrase by reference.
    pub fn reveal_ref(&self) -> (bytes: &Vec<u8>)
        ensures
            bytes@ == self@,
    {
        self.passphrase.reveal_ref()
    }

    /// Reveals the bytes of the passphrase by mutable reference, to be changed in place.
    pub fn reveal_mut(&mut self) -> (bytes: &mut Vec<u8>)
        ensures
            bytes@ == old(self)@,
            final(self)@ == final(bytes)@,
    {
        self.passphrase.reveal_mut()
    }
}

impl Clone for SafePassword {
    /// Makes a passphrase of its own that holds the same bytes.
    fn clone(&self) -> (copy: Self)
        ensures
            copy@ == self@,
    {
        let copy = SafePassword { passphrase: self.passphrase.clone() };
        assert(copy@ =~= self@);
        copy
    }
}

impl Wipe for SafePassword {
    open spec fn wiped(&self) -> bool {
        self@.len() == 0
    }

    /// Erases the passphrase. No byte of it is left afterwards.
    fn wipe(&mut self) {
        self.passphrase.wipe()
    }
}

impl zeroize::Zeroize for SafePassword {
    /// Erases the passphrase. No byte of it is left afterwards.
    fn zeroize(&mut self)
        ensures
            final(self)@.len() == 0,
    {
        self.passphrase.wipe()
    }
}

impl PartialEq for SafePassword {
    /// Tells whether two passphrases are the same bytes. The time that this takes may
    /// depend on the bytes.
    fn eq(&self, other: &Self) -> (equal: bool) {
        let equal = *self.passphrase.reveal_ref() == *other.passphrase.reveal_ref();
        proof {
            if equal {
                assert(self@ =~= other@);
            }
        }
        equal
    }
}

impl vstd::std_specs::cmp::PartialEqSpecImpl for SafePassword {
    open spec fn obeys_eq_spec() -> bool {
        true
    }

    open spec fn eq_spec(&self, other: &Self) -> bool {
        self@ == other@
    }
}

impl Eq for SafePassword {

}

impl FromStr for SafePassword {
    type Err = PasswordError;

    /// Makes a passphrase of a text. This succeeds for every text.
    fn from_str(s: &str) -> (r: Result<Self, Self::Err>)
        ensures
            r is Ok,
            r->Ok_0@ == encode_utf8(s@),
    {
        Ok(SafePassword { passphrase: Hidden::conceal(s.to_owned().into_bytes()) })
    }
}

impl<'a> From<&'a str> for SafePassword {
    /// Makes a passphrase of a text.
    fn from(s: &'a str) -> (password: Self)
        ensures
            password@ == encode_utf8(s@),
    {
        SafePassword { passphrase: Hidden::conceal(s.to_owned().into_bytes()) }
    }
}

impl From<String> for SafePassword {
    /// Makes a passphrase of a text.
    fn from(s: String) -> (password: Self)
        ensures
            password@ == encode_utf8(s@),
    {
        SafePassword { passphrase: Hidden::conceal(s.into_bytes()) }
    }
}

/// A passphrase is told by its bytes, which `from` states. There is no model of the value
/// beside them.
impl<'a> FromSpecImpl<&'a str> for SafePassword {
    open spec fn obeys_from_spec() -> bool {
        false
    }

    open spec fn from_spec(s: &'a str) -> Self {
        arbitrary()
    }
}

/// A passphrase is told by its bytes, which `from` states. There is no model of the value
/// beside them.
impl FromSpecImpl<String> for SafePassword {
    open spec fn obeys_from_spec() -> bool {
        false
    }

    open spec fn from_spec(s: String) -> Self {
        arbitrary()
    }
}

} // verus!
