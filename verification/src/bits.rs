//! Bit-level primitives for 64-bit bitboards: the per-byte bit-order
//! correction applied to every bitboard read from a training record,
//! byte swapping, lowest-set-bit isolation, and population count.

use vstd::prelude::*;

verus! {

/// Bit `i` of `x`, for `i < 64`.
pub open spec fn bit64(x: u64, i: u64) -> bool {
    (x >> i) & 1u64 == 1u64
}

/// The bit-order correction: the order of the bits inside each of the
/// 8 bytes is reversed, while the bytes themselves stay in place.
/// Bit `8*a + b` of the result is bit `8*a + (7 - b)` of the input;
/// see [`lemma_reverse_bits_in_bytes_bit`].
pub open spec fn spec_reverse_bits_in_bytes(x: u64) -> u64 {
    let v1 = ((x >> 1u64) & 0x5555555555555555u64) | ((x & 0x5555555555555555u64) << 1u64);
    let v2 = ((v1 >> 2u64) & 0x3333333333333333u64) | ((v1 & 0x3333333333333333u64) << 2u64);
    ((v2 >> 4u64) & 0x0F0F0F0F0F0F0F0Fu64) | ((v2 & 0x0F0F0F0F0F0F0F0Fu64) << 4u64)
}

/// Bit `i` of the corrected value is bit `i ^ 7` of the input: the bit
/// index inside its byte is mirrored, the byte index is unchanged.
pub proof fn lemma_reverse_bits_in_bytes_bit(x: u64)
    ensures
        forall|i: u64|
            i < 64 ==> #[trigger] bit64(spec_reverse_bits_in_bytes(x), i) == bit64(x, i ^ 7u64),
{
    assert(forall|i: u64|
        i < 64 ==> #[trigger] bit64(spec_reverse_bits_in_bytes(x), i) == bit64(x, i ^ 7u64))
        by (bit_vector);
}

/// The correction is an involution: applying it twice gives back the
/// original value.
pub proof fn lemma_reverse_bits_in_bytes_involution(x: u64)
    ensures
        spec_reverse_bits_in_bytes(spec_reverse_bits_in_bytes(x)) == x,
{
    assert(spec_reverse_bits_in_bytes(spec_reverse_bits_in_bytes(x)) == x) by (bit_vector);
}

/// The correction never moves a bit out of its byte: restricting the
/// input to one byte restricts the output to the same byte, so byte `i`
/// of the result is made of exactly the bits of byte `i` of the input.
pub proof fn lemma_reverse_bits_in_bytes_per_byte(x: u64, i: u64)
    requires
        i < 8,
    ensures
        spec_reverse_bits_in_bytes(x & (0xFFu64 << (8u64 * i)))
            == spec_reverse_bits_in_bytes(x) & (0xFFu64 << (8u64 * i)),
{
    assert(spec_reverse_bits_in_bytes(x & (0xFFu64 << (8u64 * i)))
        == spec_reverse_bits_in_bytes(x) & (0xFFu64 << (8u64 * i))) by (bit_vector)
        requires
            i < 8,
    ;
}

/// Reverses the bit order inside each byte of `x`, keeping the byte
/// order unchanged.
pub fn reverse_bits_in_bytes(x: u64) -> (r: u64)
    ensures
        r == spec_reverse_bits_in_bytes(x),
{
    let mut v = x;
    v = ((v >> 1) & 0x5555555555555555) | ((v & 0x5555555555555555) << 1);
    v = ((v >> 2) & 0x3333333333333333) | ((v & 0x3333333333333333) << 2);
    v = ((v >> 4) & 0x0F0F0F0F0F0F0F0F) | ((v & 0x0F0F0F0F0F0F0F0F) << 4);
    v
}

/// Byte `k` of the result is byte `7 - k` of the input: the order of
/// the 8 bytes is reversed, the bits inside each byte are untouched.
pub open spec fn spec_swap_bytes(x: u64) -> u64 {
    ((x & 0x00000000000000FFu64) << 56u64) | ((x & 0x000000000000FF00u64) << 40u64)
        | ((x & 0x0000000000FF0000u64) << 24u64) | ((x & 0x00000000FF000000u64) << 8u64)
        | ((x >> 8u64) & 0x00000000FF000000u64) | ((x >> 24u64) & 0x0000000000FF0000u64)
        | ((x >> 40u64) & 0x000000000000FF00u64) | (x >> 56u64)
}

/// Reverses the order of the 8 bytes of `x`.
pub fn swap_bytes(x: u64) -> (r: u64)
    ensures
        r == spec_swap_bytes(x),
{
    ((x & 0x00000000000000FF) << 56) | ((x & 0x000000000000FF00) << 40)
        | ((x & 0x0000000000FF0000) << 24) | ((x & 0x00000000FF000000) << 8)
        | ((x >> 8) & 0x00000000FF000000) | ((x >> 24) & 0x0000000000FF0000)
        | ((x >> 40) & 0x000000000000FF00) | (x >> 56)
}

/// The lowest set bit of `x` alone, or 0 when `x` is 0.
pub open spec fn spec_lowest_bit(x: u64) -> u64 {
    if x == 0 {
        0u64
    } else {
        x & !((x - 1) as u64)
    }
}

/// Isolates the lowest set bit of `x`; returns 0 when `x` is 0.
pub fn lowest_bit(x: u64) -> (r: u64)
    ensures
        r == spec_lowest_bit(x),
{
    if x == 0 {
        0
    } else {
        x & !(x - 1)
    }
}

/// The number of set bits among the lowest `n` bits of `x`.
pub open spec fn count_bits_rec(x: u64, n: nat) -> nat
    decreases n,
{
    if n == 0 {
        0nat
    } else {
        ((x & 1u64) as nat + count_bits_rec(x >> 1u64, (n - 1) as nat)) as nat
    }
}

/// The number of set bits of `x`.
pub open spec fn count_bits(x: u64) -> nat {
    count_bits_rec(x, 64)
}

/// At most `n` of the lowest `n` bits are set.
pub proof fn lemma_count_bits_rec_bound(x: u64, n: nat)
    ensures
        count_bits_rec(x, n) <= n,
    decreases n,
{
    if n > 0 {
        assert(x & 1u64 <= 1u64) by (bit_vector);
        lemma_count_bits_rec_bound(x >> 1u64, (n - 1) as nat);
    }
}

/// A 64-bit value has at most 64 set bits.
pub proof fn lemma_count_bits_bound(x: u64)
    ensures
        count_bits(x) <= 64,
{
    lemma_count_bits_rec_bound(x, 64);
}

/// Counts the set bits of `x`.
pub fn count_ones(x: u64) -> (r: u32)
    ensures
        r as nat == count_bits(x),
{
    let mut v: u64 = x;
    let mut c: u32 = 0;
    let mut k: usize = 0;
    while k < 64
        invariant
            k <= 64,
            c <= k,
            c as nat + count_bits_rec(v, (64 - k) as nat) == count_bits(x),
        decreases 64 - k,
    {
        proof {
            assert(v & 1u64 <= 1u64) by (bit_vector);
            assert(count_bits_rec(v, (64 - k) as nat)
                == (v & 1u64) as nat + count_bits_rec(v >> 1u64, (64 - (k + 1)) as nat));
        }
        c = c + ((v & 1) as u32);
        v = v >> 1;
        k = k + 1;
    }
    c
}

} // verus!
