//! 256-bit draws held as four 64-bit lanes, the lane-wise AND that one trial
//! performs, and the two lane counters (full width, and masked low lane).
use vstd::prelude::*;
use crate::popcount::{pop64, popcount_word, popcount_word_swar, lemma_pop64_le, lemma_pop64_masked};

verus! {

/// Only the low 39 bits of lane 0 count in a masked trial, so one masked
/// trial covers 39 + 3 * 64 = 231 bits.
pub const LANE0_MASK: u64 = 0x0000_007f_ffff_ffff;

/// Outcome ceiling of a masked 256-bit trial.
pub const WIDTH_MASKED: u32 = 231;

/// Outcome ceiling of a full 256-bit trial.
pub const WIDTH_FULL: u32 = 256;

/// A 256-bit vector held as four 64-bit lanes, lane 0 lowest.
#[derive(Clone, Copy, PartialEq, Eq, Structural)]
pub struct Bits256 {
    pub l0: u64,
    pub l1: u64,
    pub l2: u64,
    pub l3: u64,
}

/// Lane-wise AND.
pub open spec fn and256(a: Bits256, b: Bits256) -> Bits256 {
    Bits256 { l0: a.l0 & b.l0, l1: a.l1 & b.l1, l2: a.l2 & b.l2, l3: a.l3 & b.l3 }
}

/// Set bits over all 256 bits.
pub open spec fn pop_full(v: Bits256) -> nat {
    pop64(v.l0) + pop64(v.l1) + pop64(v.l2) + pop64(v.l3)
}

/// Set bits with lane 0 masked to its low 39 bits.
pub open spec fn pop_masked(v: Bits256) -> nat {
    pop64(v.l0 & LANE0_MASK) + pop64(v.l1) + pop64(v.l2) + pop64(v.l3)
}

impl Bits256 {
    /// The all-zeros vector.
    pub fn zeros() -> (r: Bits256)
        ensures
            r == (Bits256 { l0: 0u64, l1: 0u64, l2: 0u64, l3: 0u64 }),
    {
        Bits256 { l0: 0, l1: 0, l2: 0, l3: 0 }
    }

    /// The all-ones vector.
    pub fn ones() -> (r: Bits256)
        ensures
            r == (Bits256 {
                l0: 0xffff_ffff_ffff_ffffu64,
                l1: 0xffff_ffff_ffff_ffffu64,
                l2: 0xffff_ffff_ffff_ffffu64,
                l3: 0xffff_ffff_ffff_ffffu64,
            }),
    {
        Bits256 {
            l0: 0xffff_ffff_ffff_ffff,
            l1: 0xffff_ffff_ffff_ffff,
            l2: 0xffff_ffff_ffff_ffff,
            l3: 0xffff_ffff_ffff_ffff,
        }
    }
}

/// Lane-wise AND of two 256-bit draws.
pub fn and_lanes(a: Bits256, b: Bits256) -> (r: Bits256)
    ensures
        r == and256(a, b),
{
    Bits256 { l0: a.l0 & b.l0, l1: a.l1 & b.l1, l2: a.l2 & b.l2, l3: a.l3 & b.l3 }
}

/// Counts set bits in all four lanes with lane 0 masked to its low 39 bits,
/// one bit-loop counter per lane.
pub fn popcnt_arr(t: Bits256) -> (r: u32)
    ensures
        r == pop_masked(t),
        r <= WIDTH_MASKED,
{
    proof {
        lemma_pop64_masked(t.l0);
    }
    let c0 = popcount_word(t.l0 & LANE0_MASK);
    let c1 = popcount_word(t.l1);
    let c2 = popcount_word(t.l2);
    let c3 = popcount_word(t.l3);
    c0 + c1 + c2 + c3
}

/// Counts set bits in all four lanes, full width, with the branch-free
/// parallel counter per lane.
pub fn popcnt_arr_full(t: Bits256) -> (r: u32)
    ensures
        r == pop_full(t),
        r <= WIDTH_FULL,
{
    let c0 = popcount_word_swar(t.l0);
    let c1 = popcount_word_swar(t.l1);
    let c2 = popcount_word_swar(t.l2);
    let c3 = popcount_word_swar(t.l3);
    c0 + c1 + c2 + c3
}

/// The outcome of one AND trial always lies within the trial's width,
/// whatever the two draws were.
pub proof fn lemma_and_trial_outcome_in_width(a: Bits256, b: Bits256)
    ensures
        0 <= pop_full(and256(a, b)) <= WIDTH_FULL,
        0 <= pop_masked(and256(a, b)) <= WIDTH_MASKED,
{
    let v = and256(a, b);
    lemma_pop64_le(v.l0);
    lemma_pop64_le(v.l1);
    lemma_pop64_le(v.l2);
    lemma_pop64_le(v.l3);
    lemma_pop64_masked(v.l0);
}

} // verus!
