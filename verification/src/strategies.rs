//! The interchangeable trial strategies: one worker type per RNG-engine /
//! width / layout combination, each plugged into the reduction engine. The
//! deterministic engine's strategies have exact trial contracts (outcome and
//! next state pinned as functions of the seed); the strategies over outside
//! generators promise the width bound, and every counting step after the
//! draw is verified exactly.
use vstd::prelude::*;
use crate::entropy::{seed_after, seed_step, fixed_counter, EntropySource};
use crate::popcount::{pop64, popcount_word};
use crate::reduce::{Worker, reduce, reduction_contract, process_run};
use crate::rng_ext::{fresh_thread_rng, thread_rng_u64, xoshiro_from_seed, xoshiro_u64, pool_width};
use crate::words::{
    Bits256, and256, and_lanes, pop_full, pop_masked, popcnt_arr, popcnt_arr_full, WIDTH_FULL,
    WIDTH_MASKED,
};
use crate::wyrand::{WyRand, wy_draw, wy_state_n, wy_step};

verus! {

/// The larger of two outcomes.
pub open spec fn imax(a: int, b: int) -> int {
    if a > b {
        a
    } else {
        b
    }
}

/// First 256-bit draw of the deterministic engine from state `s`: draws 1-4.
pub open spec fn wy_vec_a(s: u64) -> Bits256 {
    Bits256 { l0: wy_draw(s, 1), l1: wy_draw(s, 2), l2: wy_draw(s, 3), l3: wy_draw(s, 4) }
}

/// Second 256-bit draw of the deterministic engine from state `s`: draws 5-8.
pub open spec fn wy_vec_b(s: u64) -> Bits256 {
    Bits256 { l0: wy_draw(s, 5), l1: wy_draw(s, 6), l2: wy_draw(s, 7), l3: wy_draw(s, 8) }
}

/// Outcome of one scalar trial: four word pairs drawn in turn, each pair
/// ANDed and counted, the four counts summed (full 256-bit width).
pub open spec fn wy_scalar_outcome(s: u64) -> nat {
    pop64(wy_draw(s, 1) & wy_draw(s, 2)) + pop64(wy_draw(s, 3) & wy_draw(s, 4)) + pop64(
        wy_draw(s, 5) & wy_draw(s, 6),
    ) + pop64(wy_draw(s, 7) & wy_draw(s, 8))
}

/// Outcome of one vector-layout trial: two 256-bit draws ANDed lane-wise,
/// counted with the masked low lane (231-bit width).
pub open spec fn wy_simd_outcome(s: u64) -> nat {
    pop_masked(and256(wy_vec_a(s), wy_vec_b(s)))
}

/// Scalar trial strategy on the fast deterministic engine: full width,
/// four word pairs per trial.
pub struct WyScalarWorker {
    pub rng: WyRand,
}

impl Worker for WyScalarWorker {
    open spec fn wf(&self) -> bool {
        true
    }

    open spec fn width() -> u32 {
        WIDTH_FULL
    }

    open spec fn trial_post(pre: Self, post: Self, r: u32) -> bool {
        &&& post.rng.state == wy_state_n(pre.rng.state, 8)
        &&& r == wy_scalar_outcome(pre.rng.state)
    }

    open spec fn init_post(pre: EntropySource, post: EntropySource, w: Self) -> bool {
        &&& post == seed_step(pre)
        &&& (pre matches EntropySource::Fixed { counter, stride } ==> w.rng.state == counter)
    }

    fn init_worker(entropy: &mut EntropySource) -> (w: Self) {
        WyScalarWorker { rng: WyRand::new(entropy.next_seed()) }
    }

    fn run_trial(&mut self) -> (r: u32) {
        let ghost s0 = self.rng.state;
        let a1 = self.rng.rand();
        proof {
            assert(wy_state_n(s0, 1) == wy_step(wy_state_n(s0, 0)));
        }
        let b1 = self.rng.rand();
        proof {
            assert(wy_state_n(s0, 2) == wy_step(wy_state_n(s0, 1)));
        }
        let a2 = self.rng.rand();
        proof {
            assert(wy_state_n(s0, 3) == wy_step(wy_state_n(s0, 2)));
        }
        let b2 = self.rng.rand();
        proof {
            assert(wy_state_n(s0, 4) == wy_step(wy_state_n(s0, 3)));
        }
        let a3 = self.rng.rand();
        proof {
            assert(wy_state_n(s0, 5) == wy_step(wy_state_n(s0, 4)));
        }
        let b3 = self.rng.rand();
        proof {
            assert(wy_state_n(s0, 6) == wy_step(wy_state_n(s0, 5)));
        }
        let a4 = self.rng.rand();
        proof {
            assert(wy_state_n(s0, 7) == wy_step(wy_state_n(s0, 6)));
        }
        let b4 = self.rng.rand();
        proof {
            assert(wy_state_n(s0, 8) == wy_step(wy_state_n(s0, 7)));
        }
        let c1 = popcount_word(a1 & b1);
        let c2 = popcount_word(a2 & b2);
        let c3 = popcount_word(a3 & b3);
        let c4 = popcount_word(a4 & b4);
        c1 + c2 + c3 + c4
    }
}

/// Vector-layout trial strategy on the fast deterministic engine: two
/// four-lane draws, one lane-wise AND, masked count.
pub struct WySimdWorker {
    pub rng: WyRand,
}

impl Worker for WySimdWorker {
    open spec fn wf(&self) -> bool {
        true
    }

    open spec fn width() -> u32 {
        WIDTH_MASKED
    }

    open spec fn trial_post(pre: Self, post: Self, r: u32) -> bool {
        &&& post.rng.state == wy_state_n(pre.rng.state, 8)
        &&& r == wy_simd_outcome(pre.rng.state)
    }

    open spec fn init_post(pre: EntropySource, post: EntropySource, w: Self) -> bool {
        &&& post == seed_step(pre)
        &&& (pre matches EntropySource::Fixed { counter, stride } ==> w.rng.state == counter)
    }

    fn init_worker(entropy: &mut EntropySource) -> (w: Self) {
        WySimdWorker { rng: WyRand::new(entropy.next_seed()) }
    }

    fn run_trial(&mut self) -> (r: u32) {
        let ghost s0 = self.rng.state;
        let a0 = self.rng.rand();
        proof {
            assert(wy_state_n(s0, 1) == wy_step(wy_state_n(s0, 0)));
        }
        let a1 = self.rng.rand();
        proof {
            assert(wy_state_n(s0, 2) == wy_step(wy_state_n(s0, 1)));
        }
        let a2 = self.rng.rand();
        proof {
            assert(wy_state_n(s0, 3) == wy_step(wy_state_n(s0, 2)));
        }
        let a3 = self.rng.rand();
        proof {
            assert(wy_state_n(s0, 4) == wy_step(wy_state_n(s0, 3)));
        }
        let b0 = self.rng.rand();
        proof {
            assert(wy_state_n(s0, 5) == wy_step(wy_state_n(s0, 4)));
        }
        let b1 = self.rng.rand();
        proof {
            assert(wy_state_n(s0, 6) == wy_step(wy_state_n(s0, 5)));
        }
        let b2 = self.rng.rand();
        proof {
            assert(wy_state_n(s0, 7) == wy_step(wy_state_n(s0, 6)));
        }
        let b3 = self.rng.rand();
        proof {
            assert(wy_state_n(s0, 8) == wy_step(wy_state_n(s0, 7)));
        }
        let a = Bits256 { l0: a0, l1: a1, l2: a2, l3: a3 };
        let b = Bits256 { l0: b0, l1: b1, l2: b2, l3: b3 };
        popcnt_arr(and_lanes(a, b))
    }
}

/// Trial strategy over the thread-local outside generator with the masked
/// count: eight word draws stand for the two 256-bit vector draws.
pub struct RandSimdWorker {
    pub rng: rand::rngs::ThreadRng,
}

impl Worker for RandSimdWorker {
    open spec fn wf(&self) -> bool {
        true
    }

    open spec fn width() -> u32 {
        WIDTH_MASKED
    }

    open spec fn trial_post(pre: Self, post: Self, r: u32) -> bool {
        r <= WIDTH_MASKED
    }

    open spec fn init_post(pre: EntropySource, post: EntropySource, w: Self) -> bool {
        post == pre
    }

    fn init_worker(entropy: &mut EntropySource) -> (w: Self) {
        RandSimdWorker { rng: fresh_thread_rng() }
    }

    fn run_trial(&mut self) -> (r: u32) {
        let a = draw_vec_thread(&mut self.rng);
        let b = draw_vec_thread(&mut self.rng);
        popcnt_arr(and_lanes(a, b))
    }
}

/// Trial strategy over the thread-local outside generator with the full
/// 256-bit count (no mask on the low lane).
pub struct RandVecWorker {
    pub rng: rand::rngs::ThreadRng,
}

impl Worker for RandVecWorker {
    open spec fn wf(&self) -> bool {
        true
    }

    open spec fn width() -> u32 {
        WIDTH_FULL
    }

    open spec fn trial_post(pre: Self, post: Self, r: u32) -> bool {
        r <= WIDTH_FULL
    }

    open spec fn init_post(pre: EntropySource, post: EntropySource, w: Self) -> bool {
        post == pre
    }

    fn init_worker(entropy: &mut EntropySource) -> (w: Self) {
        RandVecWorker { rng: fresh_thread_rng() }
    }

    fn run_trial(&mut self) -> (r: u32) {
        let a = draw_vec_thread(&mut self.rng);
        let b = draw_vec_thread(&mut self.rng);
        popcnt_arr_full(and_lanes(a, b))
    }
}

/// One 256-bit draw from the thread-local generator, four words at a time.
fn draw_vec_thread(rng: &mut rand::rngs::ThreadRng) -> Bits256 {
    let l0 = thread_rng_u64(rng);
    let l1 = thread_rng_u64(rng);
    let l2 = thread_rng_u64(rng);
    let l3 = thread_rng_u64(rng);
    Bits256 { l0, l1, l2, l3 }
}

/// Trial strategy over the scrambled long-period outside generator with the
/// masked count.
pub struct XoshiroWorker {
    pub rng: rand_xoshiro::Xoshiro256StarStar,
}

impl Worker for XoshiroWorker {
    open spec fn wf(&self) -> bool {
        true
    }

    open spec fn width() -> u32 {
        WIDTH_MASKED
    }

    open spec fn trial_post(pre: Self, post: Self, r: u32) -> bool {
        r <= WIDTH_MASKED
    }

    open spec fn init_post(pre: EntropySource, post: EntropySource, w: Self) -> bool {
        post == seed_step(pre)
    }

    fn init_worker(entropy: &mut EntropySource) -> (w: Self) {
        XoshiroWorker { rng: xoshiro_from_seed(entropy.next_seed()) }
    }

    fn run_trial(&mut self) -> (r: u32) {
        let a = Bits256 {
            l0: xoshiro_u64(&mut self.rng),
            l1: xoshiro_u64(&mut self.rng),
            l2: xoshiro_u64(&mut self.rng),
            l3: xoshiro_u64(&mut self.rng),
        };
        let b = Bits256 {
            l0: xoshiro_u64(&mut self.rng),
            l1: xoshiro_u64(&mut self.rng),
            l2: xoshiro_u64(&mut self.rng),
            l3: xoshiro_u64(&mut self.rng),
        };
        popcnt_arr(and_lanes(a, b))
    }
}

/// The general-purpose engine drawing 256-bit vectors, masked count.
pub fn rand_simd(num_iter: u64) -> (r: u32)
    ensures
        reduction_contract::<RandSimdWorker>(num_iter, r),
        process_run::<RandSimdWorker>(num_iter, r),
{
    let workers = pool_width();
    let mut entropy = EntropySource::Process;
    reduce::<RandSimdWorker>(num_iter, workers, &mut entropy)
}

/// The fast deterministic engine, scalar layout, full 256-bit width.
pub fn wyrand(num_iter: u64) -> (r: u32)
    ensures
        reduction_contract::<WyScalarWorker>(num_iter, r),
        process_run::<WyScalarWorker>(num_iter, r),
{
    let workers = pool_width();
    let mut entropy = EntropySource::Process;
    reduce::<WyScalarWorker>(num_iter, workers, &mut entropy)
}

/// The fast deterministic engine, vector layout, masked count.
pub fn wyrand_simd(num_iter: u64) -> (r: u32)
    ensures
        reduction_contract::<WySimdWorker>(num_iter, r),
        process_run::<WySimdWorker>(num_iter, r),
{
    let workers = pool_width();
    let mut entropy = EntropySource::Process;
    reduce::<WySimdWorker>(num_iter, workers, &mut entropy)
}

/// The scrambled long-period engine, vector layout, masked count.
pub fn xoshiro(num_iter: u64) -> (r: u32)
    ensures
        reduction_contract::<XoshiroWorker>(num_iter, r),
        process_run::<XoshiroWorker>(num_iter, r),
{
    let workers = pool_width();
    let mut entropy = EntropySource::Process;
    reduce::<XoshiroWorker>(num_iter, workers, &mut entropy)
}


/// Lanes assembled from the `n`-th draws of four deterministic engines.
pub open spec fn wy_quad(s0: u64, s1: u64, s2: u64, s3: u64, n: nat) -> Bits256 {
    Bits256 { l0: wy_draw(s0, n), l1: wy_draw(s1, n), l2: wy_draw(s2, n), l3: wy_draw(s3, n) }
}

/// Outcome of one batched trial: four 256-bit AND trials assembled from the
/// first and second draws of sixteen independent engines, reduced locally
/// with max before reaching the engine.
pub open spec fn wy_multi_outcome(pre: WyMultiWorker) -> int {
    let p0 = pop_masked(and256(wy_quad(pre.g0.state, pre.g1.state, pre.g2.state, pre.g3.state, 1),
        wy_quad(pre.g4.state, pre.g5.state, pre.g6.state, pre.g7.state, 1))) as int;
    let p1 = pop_masked(and256(wy_quad(pre.g8.state, pre.g9.state, pre.g10.state, pre.g11.state, 1),
        wy_quad(pre.g12.state, pre.g13.state, pre.g14.state, pre.g15.state, 1))) as int;
    let p2 = pop_masked(and256(wy_quad(pre.g0.state, pre.g1.state, pre.g2.state, pre.g3.state, 2),
        wy_quad(pre.g4.state, pre.g5.state, pre.g6.state, pre.g7.state, 2))) as int;
    let p3 = pop_masked(and256(wy_quad(pre.g8.state, pre.g9.state, pre.g10.state, pre.g11.state, 2),
        wy_quad(pre.g12.state, pre.g13.state, pre.g14.state, pre.g15.state, 2))) as int;
    imax(imax(p0, p1), imax(p2, p3))
}

/// Multi-stream batched trial strategy: sixteen private engines whose
/// output is interleaved into four masked AND trials per call.
pub struct WyMultiWorker {
    pub g0: WyRand,
    pub g1: WyRand,
    pub g2: WyRand,
    pub g3: WyRand,
    pub g4: WyRand,
    pub g5: WyRand,
    pub g6: WyRand,
    pub g7: WyRand,
    pub g8: WyRand,
    pub g9: WyRand,
    pub g10: WyRand,
    pub g11: WyRand,
    pub g12: WyRand,
    pub g13: WyRand,
    pub g14: WyRand,
    pub g15: WyRand,
}

impl Worker for WyMultiWorker {
    open spec fn wf(&self) -> bool {
        true
    }

    open spec fn width() -> u32 {
        WIDTH_MASKED
    }

    open spec fn trial_post(pre: Self, post: Self, r: u32) -> bool {
        &&& post.g0.state == wy_state_n(pre.g0.state, 2)
        &&& post.g1.state == wy_state_n(pre.g1.state, 2)
        &&& post.g2.state == wy_state_n(pre.g2.state, 2)
        &&& post.g3.state == wy_state_n(pre.g3.state, 2)
        &&& post.g4.state == wy_state_n(pre.g4.state, 2)
        &&& post.g5.state == wy_state_n(pre.g5.state, 2)
        &&& post.g6.state == wy_state_n(pre.g6.state, 2)
        &&& post.g7.state == wy_state_n(pre.g7.state, 2)
        &&& post.g8.state == wy_state_n(pre.g8.state, 2)
        &&& post.g9.state == wy_state_n(pre.g9.state, 2)
        &&& post.g10.state == wy_state_n(pre.g10.state, 2)
        &&& post.g11.state == wy_state_n(pre.g11.state, 2)
        &&& post.g12.state == wy_state_n(pre.g12.state, 2)
        &&& post.g13.state == wy_state_n(pre.g13.state, 2)
        &&& post.g14.state == wy_state_n(pre.g14.state, 2)
        &&& post.g15.state == wy_state_n(pre.g15.state, 2)
        &&& r == wy_multi_outcome(pre)
    }

    open spec fn init_post(pre: EntropySource, post: EntropySource, w: Self) -> bool {
        &&& post == seed_after(pre, 16)
        &&& (pre matches EntropySource::Fixed { counter, stride } ==> {
            &&& w.g0.state == fixed_counter(seed_after(pre, 0))
            &&& w.g1.state == fixed_counter(seed_after(pre, 1))
            &&& w.g2.state == fixed_counter(seed_after(pre, 2))
            &&& w.g3.state == fixed_counter(seed_after(pre, 3))
            &&& w.g4.state == fixed_counter(seed_after(pre, 4))
            &&& w.g5.state == fixed_counter(seed_after(pre, 5))
            &&& w.g6.state == fixed_counter(seed_after(pre, 6))
            &&& w.g7.state == fixed_counter(seed_after(pre, 7))
            &&& w.g8.state == fixed_counter(seed_after(pre, 8))
            &&& w.g9.state == fixed_counter(seed_after(pre, 9))
            &&& w.g10.state == fixed_counter(seed_after(pre, 10))
            &&& w.g11.state == fixed_counter(seed_after(pre, 11))
            &&& w.g12.state == fixed_counter(seed_after(pre, 12))
            &&& w.g13.state == fixed_counter(seed_after(pre, 13))
            &&& w.g14.state == fixed_counter(seed_after(pre, 14))
            &&& w.g15.state == fixed_counter(seed_after(pre, 15))
        })
    }

    fn init_worker(entropy: &mut EntropySource) -> (w: Self) {
        let ghost p0 = *entropy;
        let s0 = entropy.next_seed();
        proof {
            assert(seed_after(p0, 1) == seed_step(seed_after(p0, 0)));
        }
        let s1 = entropy.next_seed();
        proof {
            assert(seed_after(p0, 2) == seed_step(seed_after(p0, 1)));
        }
        let s2 = entropy.next_seed();
        proof {
            assert(seed_after(p0, 3) == seed_step(seed_after(p0, 2)));
        }
        let s3 = entropy.next_seed();
        proof {
            assert(seed_after(p0, 4) == seed_step(seed_after(p0, 3)));
        }
        let s4 = entropy.next_seed();
        proof {
            assert(seed_after(p0, 5) == seed_step(seed_after(p0, 4)));
        }
        let s5 = entropy.next_seed();
        proof {
            assert(seed_after(p0, 6) == seed_step(seed_after(p0, 5)));
        }
        let s6 = entropy.next_seed();
        proof {
            assert(seed_after(p0, 7) == seed_step(seed_after(p0, 6)));
        }
        let s7 = entropy.next_seed();
        proof {
            assert(seed_after(p0, 8) == seed_step(seed_after(p0, 7)));
        }
        let s8 = entropy.next_seed();
        proof {
            assert(seed_after(p0, 9) == seed_step(seed_after(p0, 8)));
        }
        let s9 = entropy.next_seed();
        proof {
            assert(seed_after(p0, 10) == seed_step(seed_after(p0, 9)));
        }
        let s10 = entropy.next_seed();
        proof {
            assert(seed_after(p0, 11) == seed_step(seed_after(p0, 10)));
        }
        let s11 = entropy.next_seed();
        proof {
            assert(seed_after(p0, 12) == seed_step(seed_after(p0, 11)));
        }
        let s12 = entropy.next_seed();
        proof {
            assert(seed_after(p0, 13) == seed_step(seed_after(p0, 12)));
        }
        let s13 = entropy.next_seed();
        proof {
            assert(seed_after(p0, 14) == seed_step(seed_after(p0, 13)));
        }
        let s14 = entropy.next_seed();
        proof {
            assert(seed_after(p0, 15) == seed_step(seed_after(p0, 14)));
        }
        let s15 = entropy.next_seed();
        proof {
            assert(seed_after(p0, 16) == seed_step(seed_after(p0, 15)));
        }
        WyMultiWorker {
            g0: WyRand::new(s0),
            g1: WyRand::new(s1),
            g2: WyRand::new(s2),
            g3: WyRand::new(s3),
            g4: WyRand::new(s4),
            g5: WyRand::new(s5),
            g6: WyRand::new(s6),
            g7: WyRand::new(s7),
            g8: WyRand::new(s8),
            g9: WyRand::new(s9),
            g10: WyRand::new(s10),
            g11: WyRand::new(s11),
            g12: WyRand::new(s12),
            g13: WyRand::new(s13),
            g14: WyRand::new(s14),
            g15: WyRand::new(s15),
        }
    }

    fn run_trial(&mut self) -> (r: u32) {
        let ghost s0 = self.g0.state;
        let ghost s1 = self.g1.state;
        let ghost s2 = self.g2.state;
        let ghost s3 = self.g3.state;
        let ghost s4 = self.g4.state;
        let ghost s5 = self.g5.state;
        let ghost s6 = self.g6.state;
        let ghost s7 = self.g7.state;
        let ghost s8 = self.g8.state;
        let ghost s9 = self.g9.state;
        let ghost s10 = self.g10.state;
        let ghost s11 = self.g11.state;
        let ghost s12 = self.g12.state;
        let ghost s13 = self.g13.state;
        let ghost s14 = self.g14.state;
        let ghost s15 = self.g15.state;
        let d1_0 = self.g0.rand();
        proof {
            assert(wy_state_n(s0, 1) == wy_step(wy_state_n(s0, 0)));
        }
        let d1_1 = self.g1.rand();
        proof {
            assert(wy_state_n(s1, 1) == wy_step(wy_state_n(s1, 0)));
        }
        let d1_2 = self.g2.rand();
        proof {
            assert(wy_state_n(s2, 1) == wy_step(wy_state_n(s2, 0)));
        }
        let d1_3 = self.g3.rand();
        proof {
            assert(wy_state_n(s3, 1) == wy_step(wy_state_n(s3, 0)));
        }
        let d1_4 = self.g4.rand();
        proof {
            assert(wy_state_n(s4, 1) == wy_step(wy_state_n(s4, 0)));
        }
        let d1_5 = self.g5.rand();
        proof {
            assert(wy_state_n(s5, 1) == wy_step(wy_state_n(s5, 0)));
        }
        let d1_6 = self.g6.rand();
        proof {
            assert(wy_state_n(s6, 1) == wy_step(wy_state_n(s6, 0)));
        }
        let d1_7 = self.g7.rand();
        proof {
            assert(wy_state_n(s7, 1) == wy_step(wy_state_n(s7, 0)));
        }
        let d1_8 = self.g8.rand();
        proof {
            assert(wy_state_n(s8, 1) == wy_step(wy_state_n(s8, 0)));
        }
        let d1_9 = self.g9.rand();
        proof {
            assert(wy_state_n(s9, 1) == wy_step(wy_state_n(s9, 0)));
        }
        let d1_10 = self.g10.rand();
        proof {
            assert(wy_state_n(s10, 1) == wy_step(wy_state_n(s10, 0)));
        }
        let d1_11 = self.g11.rand();
        proof {
            assert(wy_state_n(s11, 1) == wy_step(wy_state_n(s11, 0)));
        }
        let d1_12 = self.g12.rand();
        proof {
            assert(wy_state_n(s12, 1) == wy_step(wy_state_n(s12, 0)));
        }
        let d1_13 = self.g13.rand();
        proof {
            assert(wy_state_n(s13, 1) == wy_step(wy_state_n(s13, 0)));
        }
        let d1_14 = self.g14.rand();
        proof {
            assert(wy_state_n(s14, 1) == wy_step(wy_state_n(s14, 0)));
        }
        let d1_15 = self.g15.rand();
        proof {
            assert(wy_state_n(s15, 1) == wy_step(wy_state_n(s15, 0)));
        }
        let d2_0 = self.g0.rand();
        proof {
            assert(wy_state_n(s0, 2) == wy_step(wy_state_n(s0, 1)));
        }
        let d2_1 = self.g1.rand();
        proof {
            assert(wy_state_n(s1, 2) == wy_step(wy_state_n(s1, 1)));
        }
        let d2_2 = self.g2.rand();
        proof {
            assert(wy_state_n(s2, 2) == wy_step(wy_state_n(s2, 1)));
        }
        let d2_3 = self.g3.rand();
        proof {
            assert(wy_state_n(s3, 2) == wy_step(wy_state_n(s3, 1)));
        }
        let d2_4 = self.g4.rand();
        proof {
            assert(wy_state_n(s4, 2) == wy_step(wy_state_n(s4, 1)));
        }
        let d2_5 = self.g5.rand();
        proof {
            assert(wy_state_n(s5, 2) == wy_step(wy_state_n(s5, 1)));
        }
        let d2_6 = self.g6.rand();
        proof {
            assert(wy_state_n(s6, 2) == wy_step(wy_state_n(s6, 1)));
        }
        let d2_7 = self.g7.rand();
        proof {
            assert(wy_state_n(s7, 2) == wy_step(wy_state_n(s7, 1)));
        }
        let d2_8 = self.g8.rand();
        proof {
            assert(wy_state_n(s8, 2) == wy_step(wy_state_n(s8, 1)));
        }
        let d2_9 = self.g9.rand();
        proof {
            assert(wy_state_n(s9, 2) == wy_step(wy_state_n(s9, 1)));
        }
        let d2_10 = self.g10.rand();
        proof {
            assert(wy_state_n(s10, 2) == wy_step(wy_state_n(s10, 1)));
        }
        let d2_11 = self.g11.rand();
        proof {
            assert(wy_state_n(s11, 2) == wy_step(wy_state_n(s11, 1)));
        }
        let d2_12 = self.g12.rand();
        proof {
            assert(wy_state_n(s12, 2) == wy_step(wy_state_n(s12, 1)));
        }
        let d2_13 = self.g13.rand();
        proof {
            assert(wy_state_n(s13, 2) == wy_step(wy_state_n(s13, 1)));
        }
        let d2_14 = self.g14.rand();
        proof {
            assert(wy_state_n(s14, 2) == wy_step(wy_state_n(s14, 1)));
        }
        let d2_15 = self.g15.rand();
        proof {
            assert(wy_state_n(s15, 2) == wy_step(wy_state_n(s15, 1)));
        }
        let va0 = Bits256 { l0: d1_0, l1: d1_1, l2: d1_2, l3: d1_3 };
        let vb0 = Bits256 { l0: d1_4, l1: d1_5, l2: d1_6, l3: d1_7 };
        let va1 = Bits256 { l0: d1_8, l1: d1_9, l2: d1_10, l3: d1_11 };
        let vb1 = Bits256 { l0: d1_12, l1: d1_13, l2: d1_14, l3: d1_15 };
        let va2 = Bits256 { l0: d2_0, l1: d2_1, l2: d2_2, l3: d2_3 };
        let vb2 = Bits256 { l0: d2_4, l1: d2_5, l2: d2_6, l3: d2_7 };
        let va3 = Bits256 { l0: d2_8, l1: d2_9, l2: d2_10, l3: d2_11 };
        let vb3 = Bits256 { l0: d2_12, l1: d2_13, l2: d2_14, l3: d2_15 };
        let p0 = popcnt_arr(and_lanes(va0, vb0));
        let p1 = popcnt_arr(and_lanes(va1, vb1));
        let p2 = popcnt_arr(and_lanes(va2, vb2));
        let p3 = popcnt_arr(and_lanes(va3, vb3));
        let m01 = if p0 > p1 { p0 } else { p1 };
        let m23 = if p2 > p3 { p2 } else { p3 };
        if m01 > m23 { m01 } else { m23 }
    }
}

/// Outcome of one wide trial: a 512-bit draw assembled from eight engines,
/// its low and high 256-bit halves ANDed and counted at full width.
pub open spec fn wy_wide_outcome(pre: WyWideWorker) -> int {
    pop_full(and256(wy_quad(pre.h0.state, pre.h1.state, pre.h2.state, pre.h3.state, 1),
        wy_quad(pre.h4.state, pre.h5.state, pre.h6.state, pre.h7.state, 1))) as int
}

/// Wide trial strategy: eight private engines fill one 512-bit draw whose
/// halves are the trial's two operands.
pub struct WyWideWorker {
    pub h0: WyRand,
    pub h1: WyRand,
    pub h2: WyRand,
    pub h3: WyRand,
    pub h4: WyRand,
    pub h5: WyRand,
    pub h6: WyRand,
    pub h7: WyRand,
}

impl Worker for WyWideWorker {
    open spec fn wf(&self) -> bool {
        true
    }

    open spec fn width() -> u32 {
        WIDTH_FULL
    }

    open spec fn trial_post(pre: Self, post: Self, r: u32) -> bool {
        &&& post.h0.state == wy_state_n(pre.h0.state, 1)
        &&& post.h1.state == wy_state_n(pre.h1.state, 1)
        &&& post.h2.state == wy_state_n(pre.h2.state, 1)
        &&& post.h3.state == wy_state_n(pre.h3.state, 1)
        &&& post.h4.state == wy_state_n(pre.h4.state, 1)
        &&& post.h5.state == wy_state_n(pre.h5.state, 1)
        &&& post.h6.state == wy_state_n(pre.h6.state, 1)
        &&& post.h7.state == wy_state_n(pre.h7.state, 1)
        &&& r == wy_wide_outcome(pre)
    }

    open spec fn init_post(pre: EntropySource, post: EntropySource, w: Self) -> bool {
        &&& post == seed_after(pre, 8)
        &&& (pre matches EntropySource::Fixed { counter, stride } ==> {
            &&& w.h0.state == fixed_counter(seed_after(pre, 0))
            &&& w.h1.state == fixed_counter(seed_after(pre, 1))
            &&& w.h2.state == fixed_counter(seed_after(pre, 2))
            &&& w.h3.state == fixed_counter(seed_after(pre, 3))
            &&& w.h4.state == fixed_counter(seed_after(pre, 4))
            &&& w.h5.state == fixed_counter(seed_after(pre, 5))
            &&& w.h6.state == fixed_counter(seed_after(pre, 6))
            &&& w.h7.state == fixed_counter(seed_after(pre, 7))
        })
    }

    fn init_worker(entropy: &mut EntropySource) -> (w: Self) {
        let ghost p0 = *entropy;
        let s0 = entropy.next_seed();
        proof {
            assert(seed_after(p0, 1) == seed_step(seed_after(p0, 0)));
        }
        let s1 = entropy.next_seed();
        proof {
            assert(seed_after(p0, 2) == seed_step(seed_after(p0, 1)));
        }
        let s2 = entropy.next_seed();
        proof {
            assert(seed_after(p0, 3) == seed_step(seed_after(p0, 2)));
        }
        let s3 = entropy.next_seed();
        proof {
            assert(seed_after(p0, 4) == seed_step(seed_after(p0, 3)));
        }
        let s4 = entropy.next_seed();
        proof {
            assert(seed_after(p0, 5) == seed_step(seed_after(p0, 4)));
        }
        let s5 = entropy.next_seed();
        proof {
            assert(seed_after(p0, 6) == seed_step(seed_after(p0, 5)));
        }
        let s6 = entropy.next_seed();
        proof {
            assert(seed_after(p0, 7) == seed_step(seed_after(p0, 6)));
        }
        let s7 = entropy.next_seed();
        proof {
            assert(seed_after(p0, 8) == seed_step(seed_after(p0, 7)));
        }
        WyWideWorker {
            h0: WyRand::new(s0),
            h1: WyRand::new(s1),
            h2: WyRand::new(s2),
            h3: WyRand::new(s3),
            h4: WyRand::new(s4),
            h5: WyRand::new(s5),
            h6: WyRand::new(s6),
            h7: WyRand::new(s7),
        }
    }

    fn run_trial(&mut self) -> (r: u32) {
        let ghost s0 = self.h0.state;
        let ghost s1 = self.h1.state;
        let ghost s2 = self.h2.state;
        let ghost s3 = self.h3.state;
        let ghost s4 = self.h4.state;
        let ghost s5 = self.h5.state;
        let ghost s6 = self.h6.state;
        let ghost s7 = self.h7.state;
        let w0 = self.h0.rand();
        proof {
            assert(wy_state_n(s0, 1) == wy_step(wy_state_n(s0, 0)));
        }
        let w1 = self.h1.rand();
        proof {
            assert(wy_state_n(s1, 1) == wy_step(wy_state_n(s1, 0)));
        }
        let w2 = self.h2.rand();
        proof {
            assert(wy_state_n(s2, 1) == wy_step(wy_state_n(s2, 0)));
        }
        let w3 = self.h3.rand();
        proof {
            assert(wy_state_n(s3, 1) == wy_step(wy_state_n(s3, 0)));
        }
        let w4 = self.h4.rand();
        proof {
            assert(wy_state_n(s4, 1) == wy_step(wy_state_n(s4, 0)));
        }
        let w5 = self.h5.rand();
        proof {
            assert(wy_state_n(s5, 1) == wy_step(wy_state_n(s5, 0)));
        }
        let w6 = self.h6.rand();
        proof {
            assert(wy_state_n(s6, 1) == wy_step(wy_state_n(s6, 0)));
        }
        let w7 = self.h7.rand();
        proof {
            assert(wy_state_n(s7, 1) == wy_step(wy_state_n(s7, 0)));
        }
        let low = Bits256 { l0: w0, l1: w1, l2: w2, l3: w3 };
        let high = Bits256 { l0: w4, l1: w5, l2: w6, l3: w7 };
        popcnt_arr_full(and_lanes(low, high))
    }
}

/// How many of the eight bytes of a word are below 64 (a quarter of the
/// byte range, so each is set with probability one quarter).
pub open spec fn count_bytes_lt64(x: u64) -> int {
    (if ((x >> 0) & 0xff) < 64 { 1int } else { 0int }) + (if ((x >> 8) & 0xff) < 64 { 1int } else { 0int }) + (if ((x >> 16) & 0xff) < 64 { 1int } else { 0int }) + (if ((x >> 24) & 0xff) < 64 { 1int } else { 0int }) + (if ((x >> 32) & 0xff) < 64 { 1int } else { 0int }) + (if ((x >> 40) & 0xff) < 64 { 1int } else { 0int }) + (if ((x >> 48) & 0xff) < 64 { 1int } else { 0int }) + (if ((x >> 56) & 0xff) < 64 { 1int } else { 0int })
}

/// Counts the bytes of one word that are below 64.
pub fn count_low_bytes(x: u64) -> (r: u32)
    ensures
        r == count_bytes_lt64(x),
        r <= 8,
{
    let t0: u32 = if ((x >> 0) & 0xff) < 64 { 1 } else { 0 };
    let t1: u32 = if ((x >> 8) & 0xff) < 64 { 1 } else { 0 };
    let t2: u32 = if ((x >> 16) & 0xff) < 64 { 1 } else { 0 };
    let t3: u32 = if ((x >> 24) & 0xff) < 64 { 1 } else { 0 };
    let t4: u32 = if ((x >> 32) & 0xff) < 64 { 1 } else { 0 };
    let t5: u32 = if ((x >> 40) & 0xff) < 64 { 1 } else { 0 };
    let t6: u32 = if ((x >> 48) & 0xff) < 64 { 1 } else { 0 };
    let t7: u32 = if ((x >> 56) & 0xff) < 64 { 1 } else { 0 };
    t0 + t1 + t2 + t3 + t4 + t5 + t6 + t7
}

/// Byte-roll trial strategy: 231 single-byte rolls per trial, counting the
/// rolls whose byte is no multiple of four.
pub struct Par1Worker {
    pub rng: rand::rngs::ThreadRng,
}

impl Worker for Par1Worker {
    open spec fn wf(&self) -> bool {
        true
    }

    open spec fn width() -> u32 {
        WIDTH_MASKED
    }

    open spec fn trial_post(pre: Self, post: Self, r: u32) -> bool {
        r <= WIDTH_MASKED
    }

    open spec fn init_post(pre: EntropySource, post: EntropySource, w: Self) -> bool {
        post == pre
    }

    fn init_worker(entropy: &mut EntropySource) -> (w: Self) {
        Par1Worker { rng: fresh_thread_rng() }
    }

    fn run_trial(&mut self) -> (r: u32) {
        let mut count: u32 = 0;
        let mut k: u32 = 0;
        while k < 231
            invariant
                count <= k,
                k <= 231,
            decreases 231 - k,
        {
            let d = thread_rng_u64(&mut self.rng);
            if d % 4 != 0 {
                count = count + 1;
            }
            k = k + 1;
        }
        count
    }
}

/// Byte-lane trial strategy: eight rounds of 32 drawn bytes, counting the
/// bytes below 64; 256 rolls per trial in all.
pub struct Par2Worker {
    pub rng: rand::rngs::ThreadRng,
}

impl Worker for Par2Worker {
    open spec fn wf(&self) -> bool {
        true
    }

    open spec fn width() -> u32 {
        WIDTH_FULL
    }

    open spec fn trial_post(pre: Self, post: Self, r: u32) -> bool {
        r <= WIDTH_FULL
    }

    open spec fn init_post(pre: EntropySource, post: EntropySource, w: Self) -> bool {
        post == pre
    }

    fn init_worker(entropy: &mut EntropySource) -> (w: Self) {
        Par2Worker { rng: fresh_thread_rng() }
    }

    fn run_trial(&mut self) -> (r: u32) {
        let mut total: u32 = 0;
        let mut round: u32 = 0;
        while round < 8
            invariant
                total <= 32 * round,
                round <= 8,
            decreases 8 - round,
        {
            let c0 = count_low_bytes(thread_rng_u64(&mut self.rng));
            let c1 = count_low_bytes(thread_rng_u64(&mut self.rng));
            let c2 = count_low_bytes(thread_rng_u64(&mut self.rng));
            let c3 = count_low_bytes(thread_rng_u64(&mut self.rng));
            total = total + c0 + c1 + c2 + c3;
            round = round + 1;
        }
        total
    }
}

/// Batched variant over sixteen interleaved engines; invoked with
/// `num_iter / 4` calls since one call performs four logical trials, so a
/// remainder below a multiple of four is truncated, never an error.
pub fn wyrand_simd_multiple_rng(num_iter: u64) -> (r: u32)
    ensures
        reduction_contract::<WyMultiWorker>(num_iter / 4, r),
        process_run::<WyMultiWorker>(num_iter / 4, r),
{
    let workers = pool_width();
    let mut entropy = EntropySource::Process;
    reduce::<WyMultiWorker>(num_iter / 4, workers, &mut entropy)
}

/// Wide variant: one 512-bit draw per trial, halves ANDed, full count.
pub fn wyrand_avx512(num_iter: u64) -> (r: u32)
    ensures
        reduction_contract::<WyWideWorker>(num_iter, r),
        process_run::<WyWideWorker>(num_iter, r),
{
    let workers = pool_width();
    let mut entropy = EntropySource::Process;
    reduce::<WyWideWorker>(num_iter, workers, &mut entropy)
}

/// Byte-roll variant: 231 rolls per trial, each set with probability three
/// quarters.
pub fn par_iter_1(num_iter: u64) -> (r: u8)
    ensures
        r <= 231,
        reduction_contract::<Par1Worker>(num_iter, r as u32),
        process_run::<Par1Worker>(num_iter, r as u32),
{
    let workers = pool_width();
    let mut entropy = EntropySource::Process;
    let wide = reduce::<Par1Worker>(num_iter, workers, &mut entropy);
    assert(wide <= 231);
    wide as u8
}

/// Byte-lane variant: 256 byte rolls per trial, each set with probability
/// one quarter.
pub fn par_iter_2(num_iter: u64) -> (r: u32)
    ensures
        reduction_contract::<Par2Worker>(num_iter, r),
        process_run::<Par2Worker>(num_iter, r),
{
    let workers = pool_width();
    let mut entropy = EntropySource::Process;
    reduce::<Par2Worker>(num_iter, workers, &mut entropy)
}

/// Vector draws from the thread-local generator, full 256-bit count.
pub fn par_iter_3_manual(num_iter: u64) -> (r: u32)
    ensures
        reduction_contract::<RandVecWorker>(num_iter, r),
        process_run::<RandVecWorker>(num_iter, r),
{
    let workers = pool_width();
    let mut entropy = EntropySource::Process;
    reduce::<RandVecWorker>(num_iter, workers, &mut entropy)
}

/// The same reduction as `par_iter_3_manual`, returned as a signed count as
/// the wide-register summation path yields it.
pub fn par_iter_3_avx512(num_iter: u64) -> (r: i64)
    ensures
        0 <= r <= 256,
        reduction_contract::<RandVecWorker>(num_iter, r as u32),
        process_run::<RandVecWorker>(num_iter, r as u32),
{
    let workers = pool_width();
    let mut entropy = EntropySource::Process;
    let wide = reduce::<RandVecWorker>(num_iter, workers, &mut entropy);
    assert(wide <= 256);
    wide as i64
}

} // verus!
