//! Base58 text for values that are written as bytes, in the variant that Monero uses.

use crate::byte_array::{ByteArray, ByteArrayError};
use vstd::prelude::*;
use vstd::string::StringExecFns;

verus! {

/// The error that the base58 decoder gives.
#[verifier::external_type_specification]
#[verifier::external_body]
pub struct ExDecodeFailure(base58_monero::Error);

/// Why a text could not be read as a value.
#[derive(Debug)]
pub enum Base58Error {
    /// The text was decoded, but the bytes do not stand for a value of the type.
    ByteArrayError(ByteArrayError),
    /// The text is no base58 text.
    DecodeError(base58_monero::Error),
}

/// The base58 text that a byte sequence is encoded as.
pub uninterp spec fn base58_text(bytes: Seq<u8>) -> Seq<char>;

/// The bytes that a text decodes to, where it is base58 text.
pub uninterp spec fn base58_bytes(text: Seq<char>) -> Option<Seq<u8>>;

/// `base58_monero::encode`, which encodes the bytes in blocks of eight and never fails.
#[verifier::external_body]
fn encode(bytes: &[u8]) -> (text: String)
    ensures
        text@ == base58_text(bytes@),
{
    base58_monero::encode(bytes).unwrap_or_default()
}

/// `base58_monero::decode`, which gives the decoded bytes, or an error for a text that is
/// no base58 text.
#[verifier::external_body]
fn decode(text: &str) -> (r: Result<Vec<u8>, base58_monero::Error>)
    ensures
        match r {
            Ok(bytes) => base58_bytes(text@) == Some(bytes@),
            Err(_) => base58_bytes(text@) is None,
        },
{
    base58_monero::decode(text)
}

/// The `Display` text of the decoder's error.
#[verifier::external_body]
fn failure_text(failure: &base58_monero::Error) -> String {
    format!("{}", failure)
}

impl Base58Error {
    /// Returns the error's message: a heading for the kind of error, then the message of
    /// the error inside.
    pub fn to_string(&self) -> (text: String)
        ensures
            match self {
                Base58Error::ByteArrayError(e) => text@ == "Byte array error: "@ + e.message(),
                Base58Error::DecodeError(_) => exists|detail: Seq<char>|
                    text@ == "Decode error: "@ + detail,
            },
    {
        match self {
            Base58Error::ByteArrayError(e) => {
                let mut text = "Byte array error: ".to_owned();
                let detail = e.to_string();
                text.append(detail.as_str());
                text
            },
            Base58Error::DecodeError(failure) => {
                let mut text = "Decode error: ".to_owned();
                let detail = failure_text(failure);
                text.append(detail.as_str());
                text
            },
        }
    }
}

/// A type whose values can be written as base58 text and read back from it.
pub trait Base58 {
    /// Reads a value from base58 text.
    fn from_base58(hex: &str) -> Result<Self, Base58Error> where Self: Sized;

    /// Writes the value as base58 text.
    fn to_base58(&self) -> String;
}

/// Turns what the decoder gave into a value. The decoder's error is handed on as
/// `DecodeError`; an error of the type for the decoded bytes becomes `ByteArrayError`.
pub fn from_decoded<T: ByteArray>(decoded: Result<Vec<u8>, base58_monero::Error>) -> (r: Result<
    T,
    Base58Error,
>)
    ensures
        match decoded {
            Ok(bytes) => match r {
                Ok(value) => T::from_bytes_spec(bytes@) == Ok::<Seq<u8>, ByteArrayError>(
                    value.bytes(),
                ),
                Err(e) => e matches Base58Error::ByteArrayError(cause) && T::from_bytes_spec(bytes@)
                    == Err::<Seq<u8>, ByteArrayError>(cause),
            },
            Err(failure) => r matches Err(Base58Error::DecodeError(f)) && f == failure,
        },
{
    match decoded {
        Ok(bytes) => match T::from_bytes(bytes.as_slice()) {
            Ok(value) => Ok(value),
            Err(e) => Err(Base58Error::ByteArrayError(e)),
        },
        Err(failure) => Err(Base58Error::DecodeError(failure)),
    }
}

impl<T: ByteArray> Base58 for T {
    fn from_base58(data: &str) -> (r: Result<Self, Base58Error>)
        ensures
            match base58_bytes(data@) {
                Some(bytes) => match r {
                    Ok(value) => T::from_bytes_spec(bytes) == Ok::<Seq<u8>, ByteArrayError>(
                        value.bytes(),
                    ),
                    Err(e) => e matches Base58Error::ByteArrayError(cause) && T::from_bytes_spec(
                        bytes,
                    ) == Err::<Seq<u8>, ByteArrayError>(cause),
                },
                None => r matches Err(Base58Error::DecodeError(_)),
            },
    {
        from_decoded(decode(data))
    }

    fn to_base58(&self) -> (text: String)
        ensures
            text@ == base58_text(self.bytes()),
    {
        encode(self.as_bytes())
    }
}

} // verus!
