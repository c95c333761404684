//! Conversion between integers and their bits.

use vstd::arithmetic::div_mod::{lemma_fundamental_div_mod, lemma_fundamental_div_mod_converse};
use vstd::arithmetic::power2::{lemma2_to64, lemma_pow2_pos, lemma_pow2_unfold, pow2};
use vstd::bits::{lemma_u8_shr_is_div, lemma_usize_pow2_no_overflow, lemma_usize_shl_is_mul};
use vstd::prelude::*;

verus! {

/// Whether the bit of weight two to the `i` is set in `value`.
pub open spec fn bit_at(value: nat, i: nat) -> bool {
    (value / pow2(i)) % 2 == 1
}

/// The first `n` bits of a number, least significant bit first.
pub open spec fn low_bits(value: nat, n: nat) -> Seq<bool> {
    Seq::new(n, |i: int| bit_at(value, i as nat))
}

/// The number that a sequence of bits stands for, least significant bit first.
pub open spec fn bits_value(bits: Seq<bool>) -> nat
    decreases bits.len(),
{
    if bits.len() == 0 {
        0
    } else {
        bits_value(bits.drop_last()) + if bits.last() {
            pow2((bits.len() - 1) as nat)
        } else {
            0
        }
    }
}

proof fn lemma_bit_of_byte(value: u8, i: u8)
    requires
        i < 8,
    ensures
        (value & (1u8 << i) != 0) == bit_at(value as nat, i as nat),
{
    let shifted = value >> i;
    assert((value & (1u8 << i) != 0) == ((value >> i) & 1 == 1)) by (bit_vector)
        requires
            i < 8,
    ;
    assert((shifted & 1 == 1) == (shifted % 2 == 1)) by (bit_vector);
    lemma_u8_shr_is_div(value, i);
}

/// Converts a byte to its eight bits, least significant bit first.
pub fn byte_to_bits(value: u8) -> (bits: [bool; 8])
    ensures
        bits@ == low_bits(value as nat, 8),
{
    let mut bits = [false; 8];
    let mut i: u8 = 0;
    while i < 8
        invariant
            i <= 8,
            forall|j: int| 0 <= j < i ==> bits[j] == bit_at(value as nat, j as nat),
        decreases 8 - i,
    {
        proof {
            lemma_bit_of_byte(value, i);
        }
        bits[i as usize] = value & (1u8 << i) != 0;
        i += 1;
    }
    assert(bits@ =~= low_bits(value as nat, 8));
    bits
}

/// Converts bytes to bits: the eight bits of the first byte, least significant bit first,
/// then those of the second byte, and so on.
pub fn bytes_to_bits(bytes: &[u8]) -> (bits: Vec<bool>)
    ensures
        bits.len() == 8 * bytes.len(),
        forall|k: int|
            0 <= k < bits.len() ==> bits[k] == bit_at(bytes[k / 8] as nat, (k % 8) as nat),
{
    let mut bits: Vec<bool> = Vec::new();
    let mut i: usize = 0;
    while i < bytes.len()
        invariant
            i <= bytes.len(),
            bits.len() == 8 * i,
            forall|k: int|
                0 <= k < bits.len() ==> bits[k] == bit_at(bytes[k / 8] as nat, (k % 8) as nat),
        decreases bytes.len() - i,
    {
        let byte_bits = byte_to_bits(bytes[i]);
        let mut j: usize = 0;
        while j < 8
            invariant
                j <= 8,
                i < bytes.len(),
                bits.len() == 8 * i + j,
                byte_bits@ == low_bits(bytes[i as int] as nat, 8),
                forall|k: int|
                    0 <= k < bits.len() ==> bits[k] == bit_at(
                        bytes[k / 8] as nat,
                        (k % 8) as nat,
                    ),
            decreases 8 - j,
        {
            bits.push(byte_bits[j]);
            j += 1;
        }
        i += 1;
    }
    bits
}

proof fn lemma_bits_value_bound(bits: Seq<bool>)
    ensures
        bits_value(bits) < pow2(bits.len()),
    decreases bits.len(),
{
    if bits.len() == 0 {
        lemma_pow2_pos(0);
    } else {
        lemma_bits_value_bound(bits.drop_last());
        lemma_pow2_unfold(bits.len());
    }
}

/// Converts bits, least significant bit first, to the number that they stand for.
/// Returns `None` when there are more bits than a `usize` has.
pub fn checked_bits_to_uint(bits: &[bool]) -> (r: Option<usize>)
    ensures
        match r {
            Some(value) => bits.len() <= usize::BITS && value == bits_value(bits@),
            None => bits.len() > usize::BITS,
        },
{
    if bits.len() > usize::BITS as usize {
        None
    } else {
        let mut value: usize = 0;
        let mut i: usize = 0;
        while i < bits.len()
            invariant
                i <= bits.len() <= usize::BITS,
                value == bits_value(bits@.take(i as int)),
            decreases bits.len() - i,
        {
            let ghost before = bits@.take(i as int);
            let ghost after = bits@.take(i + 1);
            assert(after.drop_last() =~= before);
            if bits[i] {
                let weight: usize = 1usize << i;
                proof {
                    lemma_bits_value_bound(before);
                    lemma_usize_pow2_no_overflow(i as nat);
                    lemma_usize_shl_is_mul(1, i);
                    assert(weight == pow2(i as nat));
                    assert(value | weight == value + weight) by (bit_vector)
                        requires
                            weight == 1usize << i,
                            value < weight,
                            i < usize::BITS,
                    ;
                }
                value |= weight;
            }
            i += 1;
        }
        assert(bits@.take(i as int) =~= bits@);
        Some(value)
    }
}

/// The first `n` bits of a number stand for what is left of the number when it is divided
/// by two to the `n`.
pub proof fn lemma_low_bits_value(value: nat, n: nat)
    ensures
        bits_value(low_bits(value, n)) == value % pow2(n),
    decreases n,
{
    lemma_pow2_pos(n);
    if n == 0 {
        lemma2_to64();
    } else {
        let m = (n - 1) as nat;
        assert(low_bits(value, n).drop_last() =~= low_bits(value, m));
        lemma_low_bits_value(value, m);
        lemma_pow2_unfold(n);
        lemma_pow2_pos(m);
        let p = pow2(m) as int;
        let q = value as int / p;
        let r = value as int % p;
        assert(value == p * q + r) by {
            lemma_fundamental_div_mod(value as int, p);
        }
        assert(value as int % (2 * p) == p * (q % 2) + r) by {
            lemma_fundamental_div_mod(q, 2);
            assert(p * q == p * (2 * (q / 2)) + p * (q % 2)) by (nonlinear_arith)
                requires
                    q == 2 * (q / 2) + q % 2,
            ;
            assert(p * (2 * (q / 2)) == (2 * p) * (q / 2)) by (nonlinear_arith);
            assert(0 <= p * (q % 2) + r < 2 * p) by (nonlinear_arith)
                requires
                    0 <= q % 2 < 2,
                    0 <= r < p,
            ;
            lemma_fundamental_div_mod_converse(value as int, 2 * p, q / 2, p * (q % 2) + r);
        }
        assert(p * (q % 2) == if q % 2 == 1 { p } else { 0 }) by (nonlinear_arith)
            requires
                0 <= q % 2 < 2,
        ;
    }
}

/// The eight bits of a byte stand for the byte.
pub proof fn lemma_bits_of_byte(value: u8)
    ensures
        bits_value(low_bits(value as nat, 8)) == value,
{
    lemma_low_bits_value(value as nat, 8);
    lemma2_to64();
}

} // verus!
