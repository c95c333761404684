//! Values that append their raw bytes to a buffer.

use vstd::arithmetic::div_mod::{
    lemma_div_denominator, lemma_div_pos_is_pos, lemma_fundamental_div_mod,
    lemma_fundamental_div_mod_converse,
};
use vstd::arithmetic::power2::{lemma2_to64, lemma_pow2_adds, lemma_pow2_pos, pow2};
use vstd::prelude::*;
use vstd::utf8::encode_utf8;

verus! {

/// A type whose values append their raw bytes to a buffer.
pub trait ExtendBytes {
    /// The raw bytes of the value.
    spec fn raw_bytes(&self) -> Seq<u8>;

    /// Appends the raw bytes of the value to `buf`.
    fn append_raw_bytes(&self, buf: &mut Vec<u8>)
        ensures
            final(buf)@ == old(buf)@ + self.raw_bytes(),
    ;
}

/// The raw bytes of a series of items, one item after the other.
pub open spec fn joined_bytes<T: ExtendBytes>(items: Seq<T>) -> Seq<u8>
    decreases items.len(),
{
    if items.len() == 0 {
        Seq::empty()
    } else {
        joined_bytes(items.drop_last()) + items.last().raw_bytes()
    }
}

impl<T: ExtendBytes> ExtendBytes for Vec<T> {
    open spec fn raw_bytes(&self) -> Seq<u8> {
        joined_bytes(self@)
    }

    fn append_raw_bytes(&self, buf: &mut Vec<u8>) {
        self.as_slice().append_raw_bytes(buf)
    }
}

impl<T: ExtendBytes> ExtendBytes for [T] {
    open spec fn raw_bytes(&self) -> Seq<u8> {
        joined_bytes(self@)
    }

    fn append_raw_bytes(&self, buf: &mut Vec<u8>) {
        let mut i: usize = 0;
        while i < self.len()
            invariant
                i <= self.len(),
                buf@ == old(buf)@ + joined_bytes(self@.take(i as int)),
            decreases self.len() - i,
        {
            assert(self@.take(i + 1).drop_last() =~= self@.take(i as int));
            self[i].append_raw_bytes(buf);
            i += 1;
        }
        assert(self@.take(i as int) =~= self@);
    }
}

impl ExtendBytes for str {
    open spec fn raw_bytes(&self) -> Seq<u8> {
        encode_utf8(self@)
    }

    fn append_raw_bytes(&self, buf: &mut Vec<u8>) {
        buf.extend_from_slice(self.as_bytes())
    }
}

impl ExtendBytes for &str {
    open spec fn raw_bytes(&self) -> Seq<u8> {
        encode_utf8(self@)
    }

    fn append_raw_bytes(&self, buf: &mut Vec<u8>) {
        buf.extend_from_slice(self.as_bytes())
    }
}

impl ExtendBytes for String {
    open spec fn raw_bytes(&self) -> Seq<u8> {
        encode_utf8(self@)
    }

    fn append_raw_bytes(&self, buf: &mut Vec<u8>) {
        buf.extend_from_slice(self.as_str().as_bytes())
    }
}

/// Byte `i` of an integer in two's complement, counted from the least significant byte.
pub open spec fn le_byte(value: int, i: nat) -> u8 {
    ((value / pow2(8 * i) as int) % 256) as u8
}

/// The first `width` bytes of an integer in two's complement, least significant byte
/// first.
pub open spec fn le_bytes(value: int, width: nat) -> Seq<u8> {
    Seq::new(width, |i: int| le_byte(value, i as nat))
}

impl ExtendBytes for bool {
    open spec fn raw_bytes(&self) -> Seq<u8> {
        if *self {
            seq![1u8]
        } else {
            seq![0u8]
        }
    }

    fn append_raw_bytes(&self, buf: &mut Vec<u8>) {
        if *self {
            buf.push(1u8);
        } else {
            buf.push(0u8);
        }
    }
}

/// For a number `y` that is not negative, the quotient and the remainder of `-(y + 1)`.
proof fn lemma_div_mod_of_complement(y: int, d: int)
    requires
        0 <= y,
        0 < d,
    ensures
        (-(y + 1)) / d == -(y / d) - 1,
        (-(y + 1)) % d == d - 1 - y % d,
{
    lemma_fundamental_div_mod(y, d);
    assert(-(y + 1) == (-(y / d) - 1) * d + (d - 1 - y % d)) by (nonlinear_arith)
        requires
            y == d * (y / d) + y % d,
    ;
    lemma_fundamental_div_mod_converse(-(y + 1), d, -(y / d) - 1, d - 1 - y % d);
}

/// Each byte of a negative number is the complement of that byte of the number's own
/// complement, which is not negative.
proof fn lemma_le_byte_of_complement(y: int, i: nat)
    requires
        0 <= y,
    ensures
        le_byte(-(y + 1), i) == 255 - le_byte(y, i),
{
    lemma_pow2_pos(8 * i);
    let p = pow2(8 * i) as int;
    lemma_div_mod_of_complement(y, p);
    assert(0 <= y / p) by {
        lemma_div_pos_is_pos(y, p);
    }
    lemma_div_mod_of_complement(y / p, 256);
}

/// Dividing by 256 moves on to the next byte.
proof fn lemma_next_byte(low: int, i: nat)
    requires
        0 <= low,
    ensures
        (low / pow2(8 * i) as int) / 256 == low / pow2(8 * (i + 1)) as int,
{
    lemma_pow2_pos(8 * i);
    lemma_pow2_adds(8 * i, 8);
    lemma2_to64();
    lemma_div_denominator(low, pow2(8 * i) as int, 256);
}

/// Appends the first `width` bytes of an integer in two's complement, least significant
/// byte first. The integer is `low` itself, or, where `negative` is set, the negative
/// number `-(low + 1)`.
fn append_le_bytes(buf: &mut Vec<u8>, low: u128, negative: bool, width: usize)
    ensures
        final(buf)@ == old(buf)@ + le_bytes(
            if negative {
                -(low + 1)
            } else {
                low as int
            },
            width as nat,
        ),
{
    let ghost value: int = if negative {
        -(low + 1)
    } else {
        low as int
    };
    let mut rest: u128 = low;
    let mut i: usize = 0;
    proof {
        lemma2_to64();
        assert(8 * (i as nat) == 0);
        assert(buf@ =~= old(buf)@ + le_bytes(value, 0));
    }
    while i < width
        invariant
            i <= width,
            rest == (low as int) / (pow2(8 * (i as nat)) as int),
            value == if negative {
                -(low + 1)
            } else {
                low as int
            },
            buf@ == old(buf)@ + le_bytes(value, i as nat),
        decreases width - i,
    {
        let byte: u8 = (rest % 256) as u8;
        proof {
            lemma_le_byte_of_complement(low as int, i as nat);
            lemma_next_byte(low as int, i as nat);
        }
        if negative {
            buf.push(255 - byte);
        } else {
            buf.push(byte);
        }
        rest = rest / 256;
        i += 1;
        assert(buf@ =~= old(buf)@ + le_bytes(value, i as nat));
    }
}

impl ExtendBytes for u8 {
    open spec fn raw_bytes(&self) -> Seq<u8> {
        le_bytes(*self as int, 1)
    }

    fn append_raw_bytes(&self, buf: &mut Vec<u8>) {
        append_le_bytes(buf, *self as u128, false, 1)
    }
}

impl ExtendBytes for u16 {
    open spec fn raw_bytes(&self) -> Seq<u8> {
        le_bytes(*self as int, 2)
    }

    fn append_raw_bytes(&self, buf: &mut Vec<u8>) {
        append_le_bytes(buf, *self as u128, false, 2)
    }
}

impl ExtendBytes for u32 {
    open spec fn raw_bytes(&self) -> Seq<u8> {
        le_bytes(*self as int, 4)
    }

    fn append_raw_bytes(&self, buf: &mut Vec<u8>) {
        append_le_bytes(buf, *self as u128, false, 4)
    }
}

impl ExtendBytes for u64 {
    open spec fn raw_bytes(&self) -> Seq<u8> {
        le_bytes(*self as int, 8)
    }

    fn append_raw_bytes(&self, buf: &mut Vec<u8>) {
        append_le_bytes(buf, *self as u128, false, 8)
    }
}

impl ExtendBytes for u128 {
    open spec fn raw_bytes(&self) -> Seq<u8> {
        le_bytes(*self as int, 16)
    }

    fn append_raw_bytes(&self, buf: &mut Vec<u8>) {
        append_le_bytes(buf, *self as u128, false, 16)
    }
}

impl ExtendBytes for i8 {
    open spec fn raw_bytes(&self) -> Seq<u8> {
        le_bytes(*self as int, 1)
    }

    fn append_raw_bytes(&self, buf: &mut Vec<u8>) {
        if *self >= 0 {
            append_le_bytes(buf, *self as u128, false, 1)
        } else {
            append_le_bytes(buf, (-(*self + 1)) as u128, true, 1)
        }
    }
}

impl ExtendBytes for i16 {
    open spec fn raw_bytes(&self) -> Seq<u8> {
        le_bytes(*self as int, 2)
    }

    fn append_raw_bytes(&self, buf: &mut Vec<u8>) {
        if *self >= 0 {
            append_le_bytes(buf, *self as u128, false, 2)
        } else {
            append_le_bytes(buf, (-(*self + 1)) as u128, true, 2)
        }
    }
}

impl ExtendBytes for i32 {
    open spec fn raw_bytes(&self) -> Seq<u8> {
        le_bytes(*self as int, 4)
    }

    fn append_raw_bytes(&self, buf: &mut Vec<u8>) {
        if *self >= 0 {
            append_le_bytes(buf, *self as u128, false, 4)
        } else {
            append_le_bytes(buf, (-(*self + 1)) as u128, true, 4)
        }
    }
}

impl ExtendBytes for i64 {
    open spec fn raw_bytes(&self) -> Seq<u8> {
        le_bytes(*self as int, 8)
    }

    fn append_raw_bytes(&self, buf: &mut Vec<u8>) {
        if *self >= 0 {
            append_le_bytes(buf, *self as u128, false, 8)
        } else {
            append_le_bytes(buf, (-(*self + 1)) as u128, true, 8)
        }
    }
}

impl ExtendBytes for i128 {
    open spec fn raw_bytes(&self) -> Seq<u8> {
        le_bytes(*self as int, 16)
    }

    fn append_raw_bytes(&self, buf: &mut Vec<u8>) {
        if *self >= 0 {
            append_le_bytes(buf, *self as u128, false, 16)
        } else {
            append_le_bytes(buf, (-(*self + 1)) as u128, true, 16)
        }
    }
}

} // verus!
