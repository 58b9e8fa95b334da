//! Population count and parity, the arithmetic behind the two check symbols.

use vstd::prelude::*;

verus! {

/// Number of one bits in the binary representation of `x`.
pub open spec fn popcount(x: nat) -> nat
    decreases x,
{
    if x == 0 {
        0
    } else {
        (x % 2) + popcount(x / 2)
    }
}

/// `u32::count_ones` of the standard library: the number of ones in the
/// binary representation of its argument. Assumed, not proved.
pub assume_specification[ u32::count_ones ](i: u32) -> (r: u32)
    ensures
        r == popcount(i as nat),
;

/// Even-parity bit over a total number of one bits: 0 when that total is
/// even, 1 when it is odd.
pub open spec fn parity_bit(ones: nat) -> nat {
    ones % 2
}

/// A number has no more one bits than its value.
pub proof fn lemma_popcount_le(x: nat)
    ensures
        popcount(x) <= x,
    decreases x,
{
    if x != 0 {
        lemma_popcount_le(x / 2);
    }
}

/// Flipping bit 0 changes the last binary digit and nothing above it.
proof fn lemma_flip_lowest(x: u32)
    ensures
        (x ^ 1u32) / 2 == x / 2,
        (x ^ 1u32) % 2 == 1 - x % 2,
{
    assert((x ^ 1u32) / 2 == x / 2) by (bit_vector);
    assert((x ^ 1u32) % 2 == 1 - x % 2) by (bit_vector);
}

/// Flipping a bit above bit 0 keeps the last binary digit and flips the bit
/// one place lower in the remaining digits.
proof fn lemma_flip_higher(x: u32, k: u32)
    requires
        0 < k < 32,
    ensures
        (x ^ (1u32 << k)) % 2 == x % 2,
        (x ^ (1u32 << k)) / 2 == (x / 2) ^ (1u32 << ((k - 1) as u32)),
{
    let j: u32 = (k - 1) as u32;
    assert((x ^ (1u32 << k)) % 2 == x % 2) by (bit_vector)
        requires
            0 < k < 32,
    ;
    assert((x ^ (1u32 << k)) / 2 == (x / 2) ^ (1u32 << j)) by (bit_vector)
        requires
            0 < k < 32,
            j == k - 1,
    ;
}

/// Flipping any single bit of a word changes its population count by exactly
/// one, and so inverts its parity.
pub proof fn lemma_flip_changes_popcount(x: u32, k: u32)
    requires
        k < 32,
    ensures
        popcount((x ^ (1u32 << k)) as nat) == popcount(x as nat) + 1 || popcount(
            (x ^ (1u32 << k)) as nat,
        ) + 1 == popcount(x as nat),
        parity_bit(popcount((x ^ (1u32 << k)) as nat)) == 1 - parity_bit(popcount(x as nat)),
    decreases k,
{
    if k == 0 {
        assert(1u32 << 0u32 == 1u32) by (bit_vector);
        lemma_flip_lowest(x);
    } else {
        lemma_flip_higher(x, k);
        lemma_flip_changes_popcount(x / 2, (k - 1) as u32);
    }
}

/// Shifts and masks on a word read as quotients and remainders by powers of
/// two: the two-bit windows that the frame is cut into.
pub proof fn lemma_windows(x: u32)
    ensures
        x >> 2 == x / 4,
        x >> 4 == x / 16,
        x & 0b11 == x % 4,
        (x >> 2) & 0b11 == (x / 4) % 4,
        (x >> 4) & 0b11 == (x / 16) % 4,
        (x >> 6) & 0b1 == (x / 64) % 2,
        x & 0b111111 == x % 64,
{
    assert(x >> 2 == x / 4) by (bit_vector);
    assert(x >> 4 == x / 16) by (bit_vector);
    assert(x & 0b11 == x % 4) by (bit_vector);
    assert((x >> 2) & 0b11 == (x / 4) % 4) by (bit_vector);
    assert((x >> 4) & 0b11 == (x / 16) % 4) by (bit_vector);
    assert((x >> 6) & 0b1 == (x / 64) % 2) by (bit_vector);
    assert(x & 0b111111 == x % 64) by (bit_vector);
}

/// A flag in bit 1 joined with a flag in bit 0 is their weighted sum.
pub proof fn lemma_join_flags(high: u32, low: u32)
    requires
        high <= 1,
        low <= 1,
    ensures
        (high << 1) | low == 2 * high + low,
{
    assert((high << 1) | low == 2 * high + low) by (bit_vector)
        requires
            high <= 1,
            low <= 1,
    ;
}

} // verus!
