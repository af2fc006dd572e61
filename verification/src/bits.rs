//! Bit-level helpers for 64-bit occupancy masks.
//!
//! A bitboard encodes a set of board squares as a `u64`, one bit per square
//! (bit 0 = a1 ... bit 63 = h8, rank-major, file-minor).

use vstd::prelude::*;

verus! {

/// True iff bit `i` of `mask` is set (bit 0 is the least significant).
pub open spec fn bit_is_set(mask: u64, i: int) -> bool {
    (mask >> (i as u64)) & 1u64 == 1u64
}

/// Number of set bits of `mask` among positions 0 (inclusive) to `n` (exclusive).
pub open spec fn count_bits_below(mask: u64, n: int) -> nat
    decreases n,
{
    if n <= 0 {
        0
    } else {
        count_bits_below(mask, n - 1) + if bit_is_set(mask, n - 1) {
            1nat
        } else {
            0nat
        }
    }
}

/// Number of set bits of `mask`.
pub open spec fn count_bits(mask: u64) -> nat {
    count_bits_below(mask, 64)
}

/// If the bits of `mask` at all positions in `[m, n)` equal `b`, then counting
/// up to `n` adds `n - m` (when `b` is set) or nothing (when clear) over
/// counting up to `m`.
pub proof fn lemma_count_bits_constant_range(mask: u64, m: int, n: int, b: bool)
    requires
        0 <= m <= n,
        forall|i: int| m <= i < n ==> bit_is_set(mask, i) == b,
    ensures
        count_bits_below(mask, n) == count_bits_below(mask, m) + if b {
            n - m
        } else {
            0
        },
    decreases n - m,
{
    if m < n {
        lemma_count_bits_constant_range(mask, m, n - 1, b);
    }
}

/// Bit `i` of a union of masks is set iff it is set in either operand.
pub proof fn lemma_bit_or(a: u64, b: u64, i: int)
    requires
        0 <= i < 64,
    ensures
        bit_is_set(a | b, i) <==> bit_is_set(a, i) || bit_is_set(b, i),
{
    let s = i as u64;
    assert(((a | b) >> s) & 1u64 == 1u64 <==> ((a >> s) & 1u64 == 1u64 || (b >> s) & 1u64
        == 1u64)) by (bit_vector);
}

/// Count the set bits of `x`.
pub fn popcount(x: u64) -> (n: u32)
    ensures
        n == count_bits(x),
{
    let mut n: u32 = 0;
    for i in 0..64u64
        invariant
            n == count_bits_below(x, i as int),
            n <= i,
    {
        if (x >> i) & 1 == 1 {
            n = n + 1;
        }
    }
    n
}

} // verus!
