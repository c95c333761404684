//! Bytes that are written as hexadecimal text where a person may read them, and as they
//! are elsewhere.

use crate::byte_array::{ByteArray, ByteArrayError};
use crate::hex::{
    from_hex, from_hex_spec, lemma_from_hex_reads_to_hex, to_hex, to_hex_spec, MAX_BYTES_SIZE,
};
use vstd::prelude::*;
use vstd::slice::slice_to_vec;

verus! {

/// A value in the form in which it is written down.
#[derive(Debug, Clone, PartialEq, Eq)]
pub enum HexOrBytes {
    /// Hexadecimal text, for a format that a person may read.
    Hex(String),
    /// The bytes themselves, for a binary format.
    Bytes(Vec<u8>),
}

/// What `deserialize` makes of what was written down: the bytes of the value that it
/// returns, or the message of the error.
pub open spec fn deserialize_spec<T: ByteArray>(written: HexOrBytes) -> Result<
    Seq<u8>,
    Seq<char>,
> {
    match written {
        HexOrBytes::Hex(text) => match from_hex_spec(text@) {
            Ok(bytes) => from_bytes_or_message::<T>(bytes),
            Err(e) => Err(e.message()),
        },
        HexOrBytes::Bytes(bytes) => from_bytes_or_message::<T>(bytes@),
    }
}

/// What the type makes of bytes: the bytes of the value, or the message of the error.
pub open spec fn from_bytes_or_message<T: ByteArray>(bytes: Seq<u8>) -> Result<
    Seq<u8>,
    Seq<char>,
> {
    match T::from_bytes_spec(bytes) {
        Ok(image) => Ok(image),
        Err(e) => Err(e.message()),
    }
}

/// Puts a value in the form in which it is written down: hexadecimal text for a format
/// that a person may read, the bytes themselves for any other.
pub fn serialize<T: ByteArray>(data: &T, human_readable: bool) -> (written: HexOrBytes)
    ensures
        match written {
            HexOrBytes::Hex(text) => human_readable && text@ == to_hex_spec(data.bytes()),
            HexOrBytes::Bytes(bytes) => !human_readable && bytes@ == data.bytes(),
        },
{
    if human_readable {
        HexOrBytes::Hex(to_hex(data.as_bytes()))
    } else {
        HexOrBytes::Bytes(slice_to_vec(data.as_bytes()))
    }
}

/// Reads a value from bytes. An error of the type is given as its message.
pub fn visit_bytes<T: ByteArray>(v: &[u8]) -> (r: Result<T, String>)
    ensures
        match r {
            Ok(value) => from_bytes_or_message::<T>(v@) == Ok::<Seq<u8>, Seq<char>>(value.bytes()),
            Err(message) => from_bytes_or_message::<T>(v@) == Err::<Seq<u8>, Seq<char>>(message@),
        },
{
    match T::from_bytes(v) {
        Ok(value) => Ok(value),
        Err(e) => Err(e.to_string()),
    }
}

/// Reads a value from what was written down: from hexadecimal text, or from the bytes
/// themselves. An error of the text or of the type is given as its message.
pub fn deserialize<T: ByteArray>(written: &HexOrBytes) -> (r: Result<T, String>)
    ensures
        match r {
            Ok(value) => deserialize_spec::<T>(*written) == Ok::<Seq<u8>, Seq<char>>(
                value.bytes(),
            ),
            Err(message) => deserialize_spec::<T>(*written) == Err::<Seq<u8>, Seq<char>>(
                message@,
            ),
        },
{
    match written {
        HexOrBytes::Hex(text) => match from_hex(text.as_str()) {
            Ok(bytes) => visit_bytes(bytes.as_slice()),
            Err(e) => Err(e.to_string()),
        },
        HexOrBytes::Bytes(bytes) => visit_bytes(bytes.as_slice()),
    }
}

/// What `serialize` writes for a value is read back by `deserialize` as a value of the
/// same bytes, where the type takes the bytes of its values and the value has no more
/// bytes than are written out as text.
pub proof fn lemma_deserialize_reads_serialize<T: ByteArray>(bytes: Seq<u8>, written: HexOrBytes)
    requires
        T::from_bytes_spec(bytes) == Ok::<Seq<u8>, ByteArrayError>(bytes),
        bytes.len() <= MAX_BYTES_SIZE,
        match written {
            HexOrBytes::Hex(text) => text@ == to_hex_spec(bytes),
            HexOrBytes::Bytes(b) => b@ == bytes,
        },
    ensures
        deserialize_spec::<T>(written) == Ok::<Seq<u8>, Seq<char>>(bytes),
{
    lemma_from_hex_reads_to_hex(bytes);
}

} // verus!
