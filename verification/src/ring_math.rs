use vstd::arithmetic::div_mod::lemma_fundamental_div_mod;
use vstd::arithmetic::power2::{lemma2_to64, lemma_pow2_strictly_increases, lemma_pow2_unfold, pow2};
use vstd::bits::{low_bits_mask, lemma_u32_low_bits_mask_is_mod};
use vstd::prelude::*;

verus! {

/// A ring of `entries` slots indexed by `position & mask`: `entries` is a power
/// of two that fits in `u32` and `mask` is one less.
pub open spec fn ring_shape(entries: u32, mask: u32) -> bool {
    &&& exists|k: nat| k < 32 && entries == pow2(k)
    &&& mask == entries - 1
}

/// In a ring of that shape, the slot of a position is the position modulo the
/// number of entries.
pub proof fn lemma_slot_is_mod(pos: u32, entries: u32, mask: u32)
    requires
        ring_shape(entries, mask),
    ensures
        pos & mask == pos % entries,
{
    let k = choose|k: nat| k < 32 && entries == pow2(k);
    lemma_u32_low_bits_mask_is_mod(pos, k);
    assert(low_bits_mask(k) == pow2(k) - 1);
}

/// Two positions that are less than `n` apart but not equal have different
/// remainders modulo `n`.
pub proof fn lemma_mod_distinct(i: int, j: int, n: int)
    requires
        0 < n,
        i < j,
        j - i < n,
    ensures
        i % n != j % n,
{
    lemma_fundamental_div_mod(i, n);
    lemma_fundamental_div_mod(j, n);
    let qi = i / n;
    let qj = j / n;
    if i % n == j % n {
        assert(false) by (nonlinear_arith)
            requires
                i == n * qi + i % n,
                j == n * qj + j % n,
                i % n == j % n,
                0 < j - i < n,
                0 < n,
        ;
    }
}

/// In a ring of that shape, positions less than a ring apart occupy
/// different slots.
pub proof fn lemma_slots_distinct(i: u32, j: u32, entries: u32, mask: u32)
    requires
        ring_shape(entries, mask),
        i < j,
        j - i < entries,
    ensures
        i & mask != j & mask,
{
    lemma_slot_is_mod(i, entries, mask);
    lemma_slot_is_mod(j, entries, mask);
    lemma_mod_distinct(i as int, j as int, entries as int);
}

/// `r` is the least power of two that is at least `n`.
pub open spec fn is_next_pow2(n: u32, r: u32) -> bool {
    &&& exists|k: nat| k < 32 && r == pow2(k)
    &&& n <= r
    &&& (r == 1 || r / 2 < n)
}

/// The least power of two that is at least `n`.
pub fn next_power_of_two(n: u32) -> (r: u32)
    requires
        n <= 0x8000_0000,
    ensures
        is_next_pow2(n, r),
{
    let mut p: u32 = 1;
    let ghost mut k: nat = 0;
    proof {
        lemma2_to64();
    }
    while p < n
        invariant
            k < 32,
            p == pow2(k),
            n <= 0x8000_0000,
            p == 1 || p / 2 < n,
        decreases 0x1_0000_0000 - p,
    {
        proof {
            lemma2_to64();
            lemma_pow2_unfold(k + 1);
            assert(k != 31);
        }
        p = p * 2;
        proof {
            k = k + 1;
        }
    }
    assert(exists|j: nat| j < 32 && p == pow2(j));
    p
}

/// The least power of two at least a power of two is that power itself.
pub proof fn lemma_next_pow2_of_pow2(n: u32, k: nat, r: u32)
    requires
        k < 32,
        n == pow2(k),
        is_next_pow2(n, r),
    ensures
        r == n,
{
    let j = choose|j: nat| j < 32 && r == pow2(j);
    if j < k {
        lemma_pow2_strictly_increases(j, k);
    } else if j > k {
        lemma_pow2_unfold(j);
        if (j - 1) as nat > k {
            lemma_pow2_strictly_increases(k, (j - 1) as nat);
        }
        assert(r / 2 == pow2((j - 1) as nat));
    }
}

} // verus!
