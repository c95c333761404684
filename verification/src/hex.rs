//! Conversion between bytes and hexadecimal text.

use vstd::prelude::*;
use vstd::utf8::{encode_utf8, is_ascii_chars, is_ascii_chars_encode_utf8};

verus! {

/// The largest number of bytes that `to_hex` writes out.
pub const MAX_BYTES_SIZE: usize = 262_144;

/// Why a text could not be read as hexadecimal.
#[derive(Debug)]
pub enum HexError {
    /// A character that is no hexadecimal digit stands where one is needed.
    InvalidCharacter {},
    /// The text has an odd number of bytes.
    LengthError {},
    /// The text cannot stand for a value of the target type.
    HexConversionError {},
}

impl HexError {
    /// The message that goes with each error.
    pub open spec fn message(&self) -> Seq<char> {
        match self {
            HexError::InvalidCharacter {} => "Only hexadecimal characters (0-9,a-f) are permitted"@,
            HexError::LengthError {} => "Hex string lengths must be a multiple of 2"@,
            HexError::HexConversionError {} => "Invalid hex representation for the target type"@,
        }
    }

    /// Returns the error's message.
    pub fn to_string(&self) -> (text: String)
        ensures
            text@ == self.message(),
    {
        match self {
            HexError::InvalidCharacter {} => "Only hexadecimal characters (0-9,a-f) are permitted".to_owned(),
            HexError::LengthError {} => "Hex string lengths must be a multiple of 2".to_owned(),
            HexError::HexConversionError {} => "Invalid hex representation for the target type".to_owned(),
        }
    }
}

/// A type whose values can be written as hexadecimal text and read back from it.
pub trait Hex {
    /// Reads a value from hexadecimal text.
    fn from_hex(hex: &str) -> Result<Self, HexError> where Self: Sized;

    /// Writes the value as hexadecimal text.
    fn to_hex(&self) -> String;
}

/// The lower-case hexadecimal digit for a number below sixteen: `0` is character 48, and
/// `a`, which is character 97, stands for ten.
pub open spec fn hex_digit(n: int) -> char {
    if n < 10 {
        (48 + n) as char
    } else {
        (97 + n - 10) as char
    }
}

/// Two lower-case hexadecimal digits for each byte, the high one first.
pub open spec fn hex_text(bytes: Seq<u8>) -> Seq<char> {
    Seq::new(
        2 * bytes.len(),
        |i: int|
            if i % 2 == 0 {
                hex_digit(bytes[i / 2] as int / 16)
            } else {
                hex_digit(bytes[i / 2] as int % 16)
            },
    )
}

/// What `to_hex` writes for a byte sequence: its digits, or a fixed notice when the
/// sequence is longer than `MAX_BYTES_SIZE`.
pub open spec fn to_hex_spec(bytes: Seq<u8>) -> Seq<char> {
    if bytes.len() > MAX_BYTES_SIZE {
        "**String to large**"@
    } else {
        hex_text(bytes)
    }
}

fn digit_char(n: u8) -> (c: char)
    requires
        n < 16,
    ensures
        c == hex_digit(n as int),
{
    if n < 10 {
        (48 + n) as char
    } else {
        (97 + n - 10) as char
    }
}

/// Writes the bytes as lower-case hexadecimal text. More than `MAX_BYTES_SIZE` bytes are
/// not written out: the result is then a fixed notice.
pub fn to_hex(bytes: &[u8]) -> (text: String)
    ensures
        text@ == to_hex_spec(bytes@),
{
    if bytes.len() > MAX_BYTES_SIZE {
        return "**String to large**".to_owned();
    }
    let mut s = String::new();
    let mut i: usize = 0;
    while i < bytes.len()
        invariant
            i <= bytes.len(),
            s@ == hex_text(bytes@.take(i as int)),
        decreases bytes.len() - i,
    {
        let byte = bytes[i];
        s.push(digit_char(byte / 16));
        s.push(digit_char(byte % 16));
        i += 1;
        assert(s@ =~= hex_text(bytes@.take(i as int)));
    }
    assert(bytes@.take(i as int) =~= bytes@);
    s
}

/// Writes each byte sequence as hexadecimal text.
pub fn to_hex_multiple(bytearray: &[Vec<u8>]) -> (texts: Vec<String>)
    ensures
        texts.len() == bytearray.len(),
        forall|i: int| 0 <= i < bytearray.len() ==> (#[trigger] texts[i])@ == to_hex_spec(bytearray[i]@),
{
    let mut result: Vec<String> = Vec::new();
    let mut i: usize = 0;
    while i < bytearray.len()
        invariant
            i <= bytearray.len(),
            result.len() == i,
            forall|j: int| 0 <= j < i ==> (#[trigger] result[j])@ == to_hex_spec(bytearray[j]@),
        decreases bytearray.len() - i,
    {
        result.push(to_hex(bytearray[i].as_slice()));
        i += 1;
    }
    result
}

/// White space among the ASCII characters: tab, line feed, vertical tab, form feed and
/// carriage return, which are the characters 9 to 13, and space, which is character 32.
pub open spec fn is_space(b: u8) -> bool {
    9 <= b <= 13 || b == 32
}

/// The number of white-space bytes at the front of `s`.
pub open spec fn leading_spaces(s: Seq<u8>) -> nat
    decreases s.len(),
{
    if s.len() > 0 && is_space(s.first()) {
        1 + leading_spaces(s.drop_first())
    } else {
        0
    }
}

/// The number of white-space bytes at the end of `s`.
pub open spec fn trailing_spaces(s: Seq<u8>) -> nat
    decreases s.len(),
{
    if s.len() > 0 && is_space(s.last()) {
        1 + trailing_spaces(s.drop_last())
    } else {
        0
    }
}

/// `s` without the white space at its front and at its end.
pub open spec fn trim_spaces(s: Seq<u8>) -> Seq<u8> {
    let rest = s.skip(leading_spaces(s) as int);
    rest.take(rest.len() - trailing_spaces(rest))
}

/// `s` without the two characters `0x`, which are the characters 48 and 120, where it
/// starts with them.
pub open spec fn without_prefix(s: Seq<u8>) -> Seq<u8> {
    if s.len() >= 2 && s[0] == 48 && s[1] == 120 {
        s.skip(2)
    } else {
        s
    }
}

/// The number that a hexadecimal digit stands for: `0` to `9` are the characters 48 to 57,
/// `a` to `f` the characters 97 to 102, and `A` to `F` the characters 65 to 70.
pub open spec fn digit_value(b: u8) -> Option<u8> {
    if 48 <= b <= 57 {
        Some((b - 48) as u8)
    } else if 97 <= b <= 102 {
        Some((b - 97 + 10) as u8)
    } else if 65 <= b <= 70 {
        Some((b - 65 + 10) as u8)
    } else {
        None
    }
}

/// The byte that two characters spell: two digits, or a plus sign, which is character 43,
/// and one digit.
pub open spec fn pair_value(hi: u8, lo: u8) -> Option<u8> {
    match (digit_value(hi), digit_value(lo)) {
        (Some(h), Some(l)) => Some((16 * h + l) as u8),
        (None, Some(l)) => if hi == 43 {
            Some(l)
        } else {
            None
        },
        _ => None,
    }
}

/// Whether each pair of characters in `digits` spells a byte.
pub open spec fn pairs_valid(digits: Seq<u8>) -> bool {
    forall|i: int|
        0 <= i < digits.len() / 2 ==> (#[trigger] pair_value(digits[2 * i], digits[2 * i + 1])) is Some
}

/// The bytes that the pairs of characters in `digits` spell.
pub open spec fn pairs_bytes(digits: Seq<u8>) -> Seq<u8> {
    Seq::new(digits.len() / 2, |i: int| pair_value(digits[2 * i], digits[2 * i + 1]).unwrap())
}

/// What a text of ASCII characters decodes to. White space around the text and one `0x`
/// before the digits are passed over.
pub open spec fn decode_ascii(s: Seq<u8>) -> Result<Seq<u8>, HexError> {
    let trimmed = trim_spaces(s);
    if trimmed.len() % 2 == 1 {
        Err(HexError::LengthError {})
    } else if pairs_valid(without_prefix(trimmed)) {
        Ok(pairs_bytes(without_prefix(trimmed)))
    } else {
        Err(HexError::InvalidCharacter {})
    }
}

/// What `str::trim` makes of a text.
pub uninterp spec fn std_trim(text: Seq<char>) -> Seq<char>;

/// `str::trim`: the text without the white space around it. Which characters count as
/// white space is left to the standard library.
#[verifier::external_body]
fn trim(text: &str) -> (trimmed: &str)
    ensures
        trimmed@ == std_trim(text@),
{
    text.trim()
}

/// The error for a text that holds a character outside ASCII, given what is left of the
/// text when the white space around it is taken away.
pub open spec fn non_ascii_error_spec(trimmed: Seq<char>) -> HexError {
    if encode_utf8(trimmed).len() % 2 == 1 {
        HexError::LengthError {}
    } else {
        HexError::HexConversionError {}
    }
}

/// What `from_hex` makes of a text.
pub open spec fn from_hex_spec(text: Seq<char>) -> Result<Seq<u8>, HexError> {
    if is_ascii_chars(text) {
        decode_ascii(encode_utf8(text))
    } else {
        Err(non_ascii_error_spec(std_trim(text)))
    }
}

/// Tells which error a text with a character outside ASCII gets: `LengthError` when
/// `trimmed`, the text without the white space around it, has an odd number of bytes,
/// else `HexConversionError`.
pub fn non_ascii_error(trimmed: &str) -> (e: HexError)
    ensures
        e == non_ascii_error_spec(trimmed@),
{
    if trimmed.as_bytes().len() % 2 == 1 {
        HexError::LengthError {}
    } else {
        HexError::HexConversionError {}
    }
}

fn space(b: u8) -> (r: bool)
    ensures
        r == is_space(b),
{
    9 <= b && b <= 13 || b == 32
}

fn digit_of(b: u8) -> (d: Option<u8>)
    ensures
        d == digit_value(b),
{
    if 48 <= b && b <= 57 {
        Some(b - 48)
    } else if 97 <= b && b <= 102 {
        Some(b - 97 + 10)
    } else if 65 <= b && b <= 70 {
        Some(b - 65 + 10)
    } else {
        None
    }
}

fn pair_of(hi: u8, lo: u8) -> (v: Option<u8>)
    ensures
        v == pair_value(hi, lo),
{
    match (digit_of(hi), digit_of(lo)) {
        (Some(h), Some(l)) => Some(16 * h + l),
        (None, Some(l)) => if hi == 43 {
            Some(l)
        } else {
            None
        },
        _ => None,
    }
}

proof fn lemma_leading_spaces(s: Seq<u8>, n: int)
    requires
        0 <= n <= s.len(),
        forall|i: int| 0 <= i < n ==> is_space(s[i]),
        n < s.len() ==> !is_space(s[n]),
    ensures
        leading_spaces(s) == n,
    decreases n,
{
    if n > 0 {
        lemma_leading_spaces(s.drop_first(), n - 1);
    }
}

proof fn lemma_trailing_spaces(s: Seq<u8>, n: int)
    requires
        0 <= n <= s.len(),
        forall|i: int| s.len() - n <= i < s.len() ==> is_space(s[i]),
        n < s.len() ==> !is_space(s[s.len() - n - 1]),
    ensures
        trailing_spaces(s) == n,
    decreases n,
{
    if n > 0 {
        lemma_trailing_spaces(s.drop_last(), n - 1);
    }
}

fn decode_ascii_hex(bytes: &[u8]) -> (r: Result<Vec<u8>, HexError>)
    ensures
        match r {
            Ok(v) => decode_ascii(bytes@) == Ok::<Seq<u8>, HexError>(v@),
            Err(e) => decode_ascii(bytes@) == Err::<Seq<u8>, HexError>(e),
        },
{
    let mut start: usize = 0;
    while start < bytes.len() && space(bytes[start])
        invariant
            start <= bytes.len(),
            forall|i: int| 0 <= i < start ==> is_space(bytes@[i]),
        decreases bytes.len() - start,
    {
        start += 1;
    }
    let mut end: usize = bytes.len();
    while end > start && space(bytes[end - 1])
        invariant
            start <= end <= bytes.len(),
            forall|i: int| end <= i < bytes.len() ==> is_space(bytes@[i]),
        decreases end,
    {
        end -= 1;
    }
    proof {
        lemma_leading_spaces(bytes@, start as int);
        let rest = bytes@.skip(start as int);
        lemma_trailing_spaces(rest, bytes.len() - end);
        assert(trim_spaces(bytes@) =~= bytes@.subrange(start as int, end as int));
    }
    if (end - start) % 2 == 1 {
        return Err(HexError::LengthError {});
    }
    let from: usize = if end - start >= 2 && bytes[start] == 48 && bytes[start + 1] == 120 {
        start + 2
    } else {
        start
    };
    let ghost digits = bytes@.subrange(from as int, end as int);
    assert(digits =~= without_prefix(trim_spaces(bytes@)));
    let num_bytes: usize = (end - from) / 2;
    let mut result: Vec<u8> = Vec::new();
    let mut i: usize = 0;
    while i < num_bytes
        invariant
            i <= num_bytes,
            from <= end <= bytes.len(),
            num_bytes == (end - from) / 2,
            digits == bytes@.subrange(from as int, end as int),
            digits == without_prefix(trim_spaces(bytes@)),
            trim_spaces(bytes@).len() % 2 == 0,
            result.len() == i,
            forall|j: int|
                0 <= j < i ==> pair_value(digits[2 * j], digits[2 * j + 1]) == Some(
                    #[trigger] result[j],
                ),
        decreases num_bytes - i,
    {
        match pair_of(bytes[from + 2 * i], bytes[from + 2 * i + 1]) {
            Some(b) => {
                result.push(b);
            },
            None => {
                assert(pair_value(digits[2 * i], digits[2 * i + 1]) is None);
                return Err(HexError::InvalidCharacter {});
            },
        }
        i += 1;
    }
    proof {
        assert forall|j: int| 0 <= j < digits.len() / 2 implies (#[trigger] pair_value(
            digits[2 * j],
            digits[2 * j + 1],
        )) is Some by {
            assert(pair_value(digits[2 * j], digits[2 * j + 1]) == Some(result[j]));
        }
        assert(result@ =~= pairs_bytes(digits));
    }
    Ok(result)
}

/// Reads hexadecimal text as bytes. White space around the text and one `0x` before the
/// digits are passed over; the digits may be in either case.
///
/// A text with an odd number of bytes, once the white space around it is taken away, gets
/// `LengthError`; any other text with a character outside ASCII gets `HexConversionError`;
/// any other text in which two characters spell no byte gets `InvalidCharacter`.
pub fn from_hex(hex_str: &str) -> (r: Result<Vec<u8>, HexError>)
    ensures
        match r {
            Ok(v) => from_hex_spec(hex_str@) == Ok::<Seq<u8>, HexError>(v@),
            Err(e) => from_hex_spec(hex_str@) == Err::<Seq<u8>, HexError>(e),
        },
{
    if hex_str.is_ascii() {
        decode_ascii_hex(hex_str.as_bytes())
    } else {
        Err(non_ascii_error(trim(hex_str)))
    }
}

proof fn lemma_digit_round_trip(n: int)
    requires
        0 <= n < 16,
    ensures
        digit_value(hex_digit(n) as u8) == Some(n as u8),
        !is_space(hex_digit(n) as u8),
        hex_digit(n) as u8 != 120,
        hex_digit(n) as u8 != 43,
        hex_digit(n) as int <= 127,
{
}

/// Text that `to_hex` wrote for no more than `MAX_BYTES_SIZE` bytes is read by `from_hex`
/// as the bytes that were written.
pub proof fn lemma_from_hex_reads_to_hex(bytes: Seq<u8>)
    requires
        bytes.len() <= MAX_BYTES_SIZE,
    ensures
        from_hex_spec(to_hex_spec(bytes)) == Ok::<Seq<u8>, HexError>(bytes),
{
    let text = hex_text(bytes);
    assert forall|i: int| 0 <= i < text.len() implies 0 <= #[trigger] text[i] as int <= 127 by {
        lemma_digit_round_trip(bytes[i / 2] as int / 16);
        lemma_digit_round_trip(bytes[i / 2] as int % 16);
    }
    assert(is_ascii_chars(text));
    is_ascii_chars_encode_utf8(text);
    let digits = encode_utf8(text);
    assert forall|i: int| 0 <= i < bytes.len() implies {
        &&& digits[2 * i] == hex_digit(bytes[i] as int / 16) as u8
        &&& digits[2 * i + 1] == hex_digit(bytes[i] as int % 16) as u8
        &&& #[trigger] pair_value(digits[2 * i], digits[2 * i + 1]) == Some(bytes[i])
    } by {
        assert(digits[2 * i] == text[2 * i] as u8);
        assert(digits[2 * i + 1] == text[2 * i + 1] as u8);
        lemma_digit_round_trip(bytes[i] as int / 16);
        lemma_digit_round_trip(bytes[i] as int % 16);
    }
    if digits.len() > 0 {
        let first: int = 0;
        assert(pair_value(digits[2 * first], digits[2 * first + 1]) == Some(bytes[first]));
        let last: int = bytes.len() - 1;
        assert(pair_value(digits[2 * last], digits[2 * last + 1]) == Some(bytes[last]));
        lemma_digit_round_trip(bytes[0] as int / 16);
        lemma_digit_round_trip(bytes[0] as int % 16);
        lemma_digit_round_trip(bytes[last] as int % 16);
    }
    assert(leading_spaces(digits) == 0);
    assert(digits.skip(0) =~= digits);
    assert(trailing_spaces(digits) == 0);
    assert(trim_spaces(digits) =~= digits);
    assert(without_prefix(digits) == digits);
    assert(pairs_bytes(digits) =~= bytes);
}

} // verus!
