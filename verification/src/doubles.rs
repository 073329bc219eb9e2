//! Deterministic doubles of the trial interface, and the two stub scenarios
//! that the reduction's contract decides outright: disjoint draws always
//! reduce to 0, and identical all-ones draws always reduce to the full
//! width.
use vstd::prelude::*;
use crate::entropy::EntropySource;
use crate::popcount::lemma_pop64_all_ones;
use crate::reduce::{Worker, reduce_worker, trial_chain, seq_max, lemma_seq_max_constant};
use crate::words::{Bits256, and_lanes, popcnt_arr_full, WIDTH_FULL};

verus! {

/// A stub engine whose first draw is all-ones and second all-zeros: the AND
/// erases every bit, so each trial outcome is exactly 0.
pub struct OnesThenZerosStub {}

impl Worker for OnesThenZerosStub {
    open spec fn wf(&self) -> bool {
        true
    }

    open spec fn width() -> u32 {
        WIDTH_FULL
    }

    open spec fn trial_post(pre: Self, post: Self, r: u32) -> bool {
        r == 0
    }

    open spec fn init_post(pre: EntropySource, post: EntropySource, w: Self) -> bool {
        post == pre
    }

    fn init_worker(entropy: &mut EntropySource) -> (w: Self) {
        OnesThenZerosStub {  }
    }

    fn run_trial(&mut self) -> (r: u32) {
        let a = Bits256::ones();
        let b = Bits256::zeros();
        let v = and_lanes(a, b);
        proof {
            assert(0xffff_ffff_ffff_ffffu64 & 0u64 == 0u64) by (bit_vector);
        }
        popcnt_arr_full(v)
    }
}

/// A stub engine returning identical all-ones values for both draws: every
/// bit survives the AND, so each trial outcome is exactly the full width.
pub struct AllOnesStub {}

impl Worker for AllOnesStub {
    open spec fn wf(&self) -> bool {
        true
    }

    open spec fn width() -> u32 {
        WIDTH_FULL
    }

    open spec fn trial_post(pre: Self, post: Self, r: u32) -> bool {
        r == WIDTH_FULL
    }

    open spec fn init_post(pre: EntropySource, post: EntropySource, w: Self) -> bool {
        post == pre
    }

    fn init_worker(entropy: &mut EntropySource) -> (w: Self) {
        AllOnesStub {  }
    }

    fn run_trial(&mut self) -> (r: u32) {
        let a = Bits256::ones();
        let b = Bits256::ones();
        let v = and_lanes(a, b);
        proof {
            assert(0xffff_ffff_ffff_ffffu64 & 0xffff_ffff_ffff_ffffu64
                == 0xffff_ffff_ffff_ffffu64) by (bit_vector);
            lemma_pop64_all_ones();
        }
        popcnt_arr_full(v)
    }
}

/// A stub that cycles through a fixed list of known outcomes, so a split
/// reduction can be held against one full pass on the same values.
pub struct CycleStub {
    pub vals: Vec<u32>,
    pub idx: usize,
}

impl CycleStub {
    /// Builds a cycling stub starting at the first value; an empty list
    /// becomes the single outcome 0.
    pub fn new(vals: Vec<u32>) -> (w: CycleStub)
        ensures
            w.wf(),
            w.idx == 0,
            vals@.len() > 0 ==> w.vals@ == vals@,
            vals@.len() == 0 ==> w.vals@ =~= seq![0u32],
    {
        if vals.len() == 0 {
            let mut one: Vec<u32> = Vec::new();
            one.push(0u32);
            CycleStub { vals: one, idx: 0 }
        } else {
            CycleStub { vals, idx: 0 }
        }
    }
}

impl Worker for CycleStub {
    open spec fn wf(&self) -> bool {
        self.vals@.len() > 0 && self.idx < self.vals@.len()
    }

    open spec fn width() -> u32 {
        0xffff_ffff
    }

    open spec fn trial_post(pre: Self, post: Self, r: u32) -> bool {
        &&& post.vals@ == pre.vals@
        &&& r == pre.vals@[pre.idx as int]
        &&& post.idx as int == if pre.idx + 1 == pre.vals@.len() {
            0int
        } else {
            pre.idx as int + 1
        }
    }

    open spec fn init_post(pre: EntropySource, post: EntropySource, w: Self) -> bool {
        &&& post == pre
        &&& w.vals@ =~= seq![0u32]
        &&& w.idx == 0
    }

    fn init_worker(entropy: &mut EntropySource) -> (w: Self) {
        let mut one: Vec<u32> = Vec::new();
        one.push(0u32);
        CycleStub { vals: one, idx: 0 }
    }

    fn run_trial(&mut self) -> (r: u32) {
        let n = self.vals.len();
        let r = self.vals[self.idx];
        let next = self.idx + 1;
        self.idx = if next == n {
            0
        } else {
            next
        };
        r
    }
}

/// Disjoint-draw scenario: with the ones-then-zeros stub, the reduction
/// over any `num_iter` returns exactly 0.
pub fn stub_disjoint_max(num_iter: u64) -> (r: u32)
    ensures
        r == 0,
{
    let mut w = OnesThenZerosStub {  };
    let r = reduce_worker(&mut w, num_iter);
    proof {
        let (sts, outs) = choose|sts: Seq<OnesThenZerosStub>, outs: Seq<u32>|
            #![trigger trial_chain::<OnesThenZerosStub>(sts, outs)]
            {
                &&& trial_chain::<OnesThenZerosStub>(sts, outs)
                &&& outs.len() == num_iter
                &&& r == seq_max(outs)
            };
        if num_iter > 0 {
            assert forall|i: int| 0 <= i < outs.len() implies outs[i] == 0 by {
                assert(<OnesThenZerosStub as Worker>::trial_post(sts[i], sts[i + 1], outs[i]));
            }
            lemma_seq_max_constant(outs, 0);
        }
    }
    r
}

/// Identical all-ones scenario: with the all-ones stub, the reduction over
/// any positive `num_iter` returns exactly the full width.
pub fn stub_full_width_max(num_iter: u64) -> (r: u32)
    ensures
        num_iter == 0 ==> r == 0,
        num_iter > 0 ==> r == WIDTH_FULL,
{
    let mut w = AllOnesStub {  };
    let r = reduce_worker(&mut w, num_iter);
    proof {
        let (sts, outs) = choose|sts: Seq<AllOnesStub>, outs: Seq<u32>|
            #![trigger trial_chain::<AllOnesStub>(sts, outs)]
            {
                &&& trial_chain::<AllOnesStub>(sts, outs)
                &&& outs.len() == num_iter
                &&& r == seq_max(outs)
            };
        if num_iter > 0 {
            assert forall|i: int| 0 <= i < outs.len() implies outs[i] == WIDTH_FULL by {
                assert(<AllOnesStub as Worker>::trial_post(sts[i], sts[i + 1], outs[i]));
            }
            lemma_seq_max_constant(outs, WIDTH_FULL);
        }
    }
    r
}

} // verus!
