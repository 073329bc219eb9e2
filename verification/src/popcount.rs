//! Bit-population counting: one mathematical definition, two verified
//! executable counters (a one-bit-per-step loop and a branch-free parallel
//! summation), both proved to return exactly that count.
use vstd::prelude::*;

verus! {

/// Number of set bits in a 64-bit word.
pub open spec fn pop64(x: u64) -> nat
    decreases x,
{
    if x == 0 {
        0
    } else {
        ((x % 2) + pop64(x / 2)) as nat
    }
}

/// The same count written as an explicit sum over all 64 bit positions.
pub open spec fn bitsum64(x: u64) -> int {
    (x & 1) + ((x >> 1) & 1) + ((x >> 2) & 1) + ((x >> 3) & 1) +
        ((x >> 4) & 1) + ((x >> 5) & 1) + ((x >> 6) & 1) + ((x >> 7) & 1) +
        ((x >> 8) & 1) + ((x >> 9) & 1) + ((x >> 10) & 1) + ((x >> 11) & 1) +
        ((x >> 12) & 1) + ((x >> 13) & 1) + ((x >> 14) & 1) + ((x >> 15) & 1) +
        ((x >> 16) & 1) + ((x >> 17) & 1) + ((x >> 18) & 1) + ((x >> 19) & 1) +
        ((x >> 20) & 1) + ((x >> 21) & 1) + ((x >> 22) & 1) + ((x >> 23) & 1) +
        ((x >> 24) & 1) + ((x >> 25) & 1) + ((x >> 26) & 1) + ((x >> 27) & 1) +
        ((x >> 28) & 1) + ((x >> 29) & 1) + ((x >> 30) & 1) + ((x >> 31) & 1) +
        ((x >> 32) & 1) + ((x >> 33) & 1) + ((x >> 34) & 1) + ((x >> 35) & 1) +
        ((x >> 36) & 1) + ((x >> 37) & 1) + ((x >> 38) & 1) + ((x >> 39) & 1) +
        ((x >> 40) & 1) + ((x >> 41) & 1) + ((x >> 42) & 1) + ((x >> 43) & 1) +
        ((x >> 44) & 1) + ((x >> 45) & 1) + ((x >> 46) & 1) + ((x >> 47) & 1) +
        ((x >> 48) & 1) + ((x >> 49) & 1) + ((x >> 50) & 1) + ((x >> 51) & 1) +
        ((x >> 52) & 1) + ((x >> 53) & 1) + ((x >> 54) & 1) + ((x >> 55) & 1) +
        ((x >> 56) & 1) + ((x >> 57) & 1) + ((x >> 58) & 1) + ((x >> 59) & 1) +
        ((x >> 60) & 1) + ((x >> 61) & 1) + ((x >> 62) & 1) + ((x >> 63) & 1)
}

/// The count of set bits of a word below `pow2(n)` is at most `n`.
proof fn lemma_pop64_lt_pow2(x: u64, n: nat)
    requires
        x < vstd::arithmetic::power2::pow2(n),
    ensures
        pop64(x) <= n,
    decreases n,
{
    if x == 0 {
    } else if n == 0 {
        vstd::arithmetic::power2::lemma2_to64();
    } else {
        assert(vstd::arithmetic::power2::pow2(n) == 2 * vstd::arithmetic::power2::pow2(
            (n - 1) as nat,
        )) by {
            vstd::arithmetic::power2::lemma_pow2_unfold(n);
        }
        assert(x / 2 < vstd::arithmetic::power2::pow2((n - 1) as nat));
        lemma_pop64_lt_pow2(x / 2, (n - 1) as nat);
    }
}

/// The count of set bits never exceeds the word width.
pub proof fn lemma_pop64_le(x: u64)
    ensures
        pop64(x) <= 64,
{
    vstd::arithmetic::power2::lemma2_to64();
    lemma_pop64_lt_pow2(x, 64);
}

/// A word of `n` low set bits has count exactly `n`.
proof fn lemma_pop64_low_ones(n: nat)
    requires
        n <= 64,
    ensures
        pop64(((vstd::arithmetic::power2::pow2(n) - 1) as u64)) == n,
    decreases n,
{
    vstd::arithmetic::power2::lemma2_to64();
    if n == 0 {
    } else {
        vstd::arithmetic::power2::lemma_pow2_unfold(n);
        vstd::arithmetic::power2::lemma_pow2_pos((n - 1) as nat);
        assert(vstd::arithmetic::power2::pow2(n) <= 0x1_0000_0000_0000_0000) by {
            if n < 64 {
                vstd::arithmetic::power2::lemma_pow2_strictly_increases(n, 64);
            }
        }
        let y = (vstd::arithmetic::power2::pow2(n) - 1) as u64;
        let p = vstd::arithmetic::power2::pow2((n - 1) as nat);
        assert(y == 2 * p - 1);
        assert(y % 2 == 1 && y / 2 == p - 1);
        lemma_pop64_low_ones((n - 1) as nat);
    }
}

/// After masking to the low 39 bits, at most 39 bits can survive.
pub proof fn lemma_pop64_masked(x: u64)
    ensures
        pop64(x & 0x0000_007f_ffff_ffff) <= 39,
{
    assert((x & 0x0000_007f_ffff_ffff) < 0x80_0000_0000) by (bit_vector);
    vstd::arithmetic::power2::lemma2_to64();
    vstd::arithmetic::power2::lemma2_to64_rest();
    lemma_pop64_lt_pow2(x & 0x0000_007f_ffff_ffff, 39);
}

/// An all-ones word counts the full width.
pub proof fn lemma_pop64_all_ones()
    ensures
        pop64(0xffff_ffff_ffff_ffffu64) == 64,
{
    vstd::arithmetic::power2::lemma2_to64();
    lemma_pop64_low_ones(64);
}

/// The recursive count agrees with the 64-term expansion.
#[verifier::rlimit(100)]
proof fn lemma_pop64_is_bitsum64(x: u64)
    ensures
        pop64(x) == bitsum64(x),
    decreases x,
{
    if x == 0 {
        assert(bitsum64(0) == 0) by (bit_vector);
    } else {
        lemma_pop64_is_bitsum64(x / 2);
        assert(bitsum64(x) == (x % 2) + bitsum64(x / 2)) by (bit_vector);
    }
}

/// Counts the set bits of one 64-bit word, one bit per step.
pub fn popcount_word(x: u64) -> (r: u32)
    ensures
        r == pop64(x),
        r <= 64,
{
    let mut v: u64 = x;
    let mut c: u32 = 0;
    proof {
        lemma_pop64_le(x);
    }
    while v != 0
        invariant
            c + pop64(v) == pop64(x),
            pop64(x) <= 64,
        decreases v,
    {
        c = c + (v % 2) as u32;
        v = v / 2;
    }
    c
}

/// Counts the set bits of one 64-bit word with the branch-free parallel
/// summation that vector units use lane by lane: pairs, nibbles, then bytes.
#[verifier::rlimit(100)]
pub fn popcount_word_swar(x: u64) -> (r: u32)
    ensures
        r == pop64(x),
        r <= 64,
{
    assert((x & 0x5555_5555_5555_5555) + ((x >> 1) & 0x5555_5555_5555_5555)
        < 0x1_0000_0000_0000_0000) by (bit_vector);
    let v1: u64 = (x & 0x5555_5555_5555_5555) + ((x >> 1) & 0x5555_5555_5555_5555);
    assert((v1 & 0x3333_3333_3333_3333) + ((v1 >> 2) & 0x3333_3333_3333_3333)
        < 0x1_0000_0000_0000_0000) by (bit_vector);
    let v2: u64 = (v1 & 0x3333_3333_3333_3333) + ((v1 >> 2) & 0x3333_3333_3333_3333);
    assert((v2 & 0x0f0f_0f0f_0f0f_0f0f) + ((v2 >> 4) & 0x0f0f_0f0f_0f0f_0f0f)
        <= 0x1e1e_1e1e_1e1e_1e1e) by (bit_vector);
    let v3: u64 = (v2 & 0x0f0f_0f0f_0f0f_0f0f) + ((v2 >> 4) & 0x0f0f_0f0f_0f0f_0f0f);
    assert(v3 <= 0x1e1e_1e1e_1e1e_1e1e ==> v3 + (v3 >> 8) + (v3 >> 16) + (v3 >> 24) + (v3 >> 32)
        + (v3 >> 40) + (v3 >> 48) + (v3 >> 56) < 0x1_0000_0000_0000_0000) by (bit_vector);
    let total: u64 = (v3 + (v3 >> 8) + (v3 >> 16) + (v3 >> 24) + (v3 >> 32) + (v3 >> 40) + (v3
        >> 48) + (v3 >> 56)) & 0x7f;
    proof {
        lemma_pop64_is_bitsum64(x);
        assert(total == bitsum64(x) && total <= 64) by (bit_vector)
            requires
                v1 == (x & 0x5555_5555_5555_5555) + ((x >> 1) & 0x5555_5555_5555_5555),
                v2 == (v1 & 0x3333_3333_3333_3333) + ((v1 >> 2) & 0x3333_3333_3333_3333),
                v3 == (v2 & 0x0f0f_0f0f_0f0f_0f0f) + ((v2 >> 4) & 0x0f0f_0f0f_0f0f_0f0f),
                total == ((v3 + (v3 >> 8) + (v3 >> 16) + (v3 >> 24) + (v3 >> 32) + (v3 >> 40) + (
                v3 >> 48) + (v3 >> 56)) as u64) & 0x7f,
        ;
    }
    total as u32
}

} // verus!
