//! Values that can be written as bytes and read back from them.

use crate::hex::{from_hex, from_hex_spec, to_hex, to_hex_spec, Hex, HexError};
use vstd::array::array_as_slice;
use vstd::prelude::*;
use vstd::slice::slice_to_vec;
use vstd::string::StringExecFns;

verus! {

/// Why bytes could not be read as a value.
#[derive(Debug, PartialEq, Eq)]
pub enum ByteArrayError {
    /// The bytes do not stand for a value of the type.
    ConversionError { reason: String },
    /// The number of bytes is not the one that the type takes.
    IncorrectLength {},
}

impl ByteArrayError {
    /// The message that goes with each error.
    pub open spec fn message(&self) -> Seq<char> {
        match self {
            ByteArrayError::ConversionError { reason } => {
                "Could not create a ByteArray when converting from a different format: `"@
                    + reason@ + "'"@
            },
            ByteArrayError::IncorrectLength {} => {
                "The input data was the incorrect length to perform the desired conversion"@
            },
        }
    }

    /// Returns the error's message.
    pub fn to_string(&self) -> (text: String)
        ensures
            text@ == self.message(),
    {
        match self {
            ByteArrayError::ConversionError { reason } => {
                let mut text =
                    "Could not create a ByteArray when converting from a different format: `".to_owned();
                text.append(reason.as_str());
                text.append("'");
                text
            },
            ByteArrayError::IncorrectLength {} => {
                "The input data was the incorrect length to perform the desired conversion".to_owned()
            },
        }
    }
}

/// A type whose values are written as bytes.
pub trait ByteArray: Sized {
    /// The bytes that the value is written as.
    spec fn bytes(&self) -> Seq<u8>;

    /// What `from_bytes` makes of a byte sequence: the bytes of the value that it returns,
    /// or the error.
    spec fn from_bytes_spec(bytes: Seq<u8>) -> Result<Seq<u8>, ByteArrayError>;

    /// Returns the value's bytes in a vector.
    fn to_vec(&self) -> (v: Vec<u8>)
        ensures
            v@ == self.bytes(),
    {
        slice_to_vec(self.as_bytes())
    }

    /// Reads a value from the bytes of a vector, as `from_bytes` does.
    fn from_vec(v: &Vec<u8>) -> (r: Result<Self, ByteArrayError>)
        ensures
            match r {
                Ok(value) => Self::from_bytes_spec(v@) == Ok::<Seq<u8>, ByteArrayError>(
                    value.bytes(),
                ),
                Err(e) => Self::from_bytes_spec(v@) == Err::<Seq<u8>, ByteArrayError>(e),
            },
    {
        Self::from_bytes(v.as_slice())
    }

    /// Reads a value from bytes.
    fn from_bytes(bytes: &[u8]) -> (r: Result<Self, ByteArrayError>)
        ensures
            match r {
                Ok(value) => Self::from_bytes_spec(bytes@) == Ok::<Seq<u8>, ByteArrayError>(
                    value.bytes(),
                ),
                Err(e) => Self::from_bytes_spec(bytes@) == Err::<Seq<u8>, ByteArrayError>(e),
            },
    ;

    /// Returns the value's bytes.
    fn as_bytes(&self) -> (b: &[u8])
        ensures
            b@ == self.bytes(),
    ;
}

impl ByteArray for Vec<u8> {
    open spec fn bytes(&self) -> Seq<u8> {
        self@
    }

    open spec fn from_bytes_spec(bytes: Seq<u8>) -> Result<Seq<u8>, ByteArrayError> {
        Ok(bytes)
    }

    fn to_vec(&self) -> (v: Vec<u8>) {
        self.clone()
    }

    fn from_vec(v: &Vec<u8>) -> (r: Result<Self, ByteArrayError>) {
        Ok(v.clone())
    }

    fn from_bytes(bytes: &[u8]) -> (r: Result<Self, ByteArrayError>) {
        Ok(slice_to_vec(bytes))
    }

    fn as_bytes(&self) -> (b: &[u8]) {
        self.as_slice()
    }
}

impl<const I: usize> ByteArray for [u8; I] {
    open spec fn bytes(&self) -> Seq<u8> {
        self@
    }

    open spec fn from_bytes_spec(bytes: Seq<u8>) -> Result<Seq<u8>, ByteArrayError> {
        if bytes.len() == I {
            Ok(bytes)
        } else {
            Err(ByteArrayError::IncorrectLength {})
        }
    }

    fn from_bytes(bytes: &[u8]) -> (r: Result<Self, ByteArrayError>) {
        if bytes.len() != I {
            return Err(ByteArrayError::IncorrectLength {});
        }
        let mut a = [0u8; I];
        let mut i: usize = 0;
        while i < I
            invariant
                i <= I,
                bytes.len() == I,
                forall|j: int| 0 <= j < i ==> a[j] == bytes[j],
            decreases I - i,
        {
            a[i] = bytes[i];
            i += 1;
        }
        assert(a@ =~= bytes@);
        Ok(a)
    }

    fn as_bytes(&self) -> (b: &[u8]) {
        array_as_slice(self)
    }
}

/// What `Hex::from_hex` makes of a text for a type that is written as bytes: the bytes
/// of the value that it returns, or the error. Bytes that the type does not take get
/// `HexConversionError`.
pub open spec fn from_hex_as<T: ByteArray>(text: Seq<char>) -> Result<Seq<u8>, HexError> {
    match from_hex_spec(text) {
        Ok(bytes) => match T::from_bytes_spec(bytes) {
            Ok(image) => Ok(image),
            Err(_) => Err(HexError::HexConversionError {}),
        },
        Err(e) => Err(e),
    }
}

impl<T: ByteArray> Hex for T {
    fn from_hex(hex: &str) -> (r: Result<Self, HexError>)
        ensures
            match r {
                Ok(value) => from_hex_as::<T>(hex@) == Ok::<Seq<u8>, HexError>(value.bytes()),
                Err(e) => from_hex_as::<T>(hex@) == Err::<Seq<u8>, HexError>(e),
            },
    {
        match from_hex(hex) {
            Ok(v) => match Self::from_bytes(v.as_slice()) {
                Ok(value) => Ok(value),
                Err(_) => Err(HexError::HexConversionError {}),
            },
            Err(e) => Err(e),
        }
    }

    fn to_hex(&self) -> (text: String)
        ensures
            text@ == to_hex_spec(self.bytes()),
    {
        to_hex(self.as_bytes())
    }
}

} // verus!
