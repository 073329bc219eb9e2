//! Tests of the reduction engine, the deterministic engine, the entropy
//! double, the stub scenarios, and the distribution of real runs.
use popmax::doubles::{stub_disjoint_max, stub_full_width_max, CycleStub};
use popmax::entropy::EntropySource;
use popmax::reduce::reduce_worker;
use popmax::strategies::{
    par_iter_1, par_iter_2, par_iter_3_avx512, par_iter_3_manual, rand_simd, wyrand, wyrand_avx512,
    wyrand_simd, wyrand_simd_multiple_rng, xoshiro,
};
use popmax::wyrand::WyRand;

#[test]
fn zero_iterations_return_zero_everywhere() {
    assert_eq!(rand_simd(0), 0);
    assert_eq!(wyrand(0), 0);
    assert_eq!(wyrand_simd(0), 0);
    assert_eq!(wyrand_simd_multiple_rng(0), 0);
    assert_eq!(wyrand_avx512(0), 0);
    assert_eq!(xoshiro(0), 0);
    assert_eq!(par_iter_1(0), 0);
    assert_eq!(par_iter_2(0), 0);
    assert_eq!(par_iter_3_manual(0), 0);
    assert_eq!(par_iter_3_avx512(0), 0);
}

#[test]
fn batched_variant_truncates_below_batch_factor() {
    // one call performs four logical trials, so fewer than four trials round
    // down to no work at all
    assert_eq!(wyrand_simd_multiple_rng(3), 0);
}

#[test]
fn engine_matches_outside_crate() {
    for seed in [0u64, 1, 42, 0xdead_beef, u64::MAX] {
        let mut ours = WyRand::new(seed);
        let mut theirs = wyrand::WyRand::new(seed);
        for _ in 0..16 {
            assert_eq!(ours.rand(), theirs.rand());
        }
    }
}

#[test]
fn stub_disjoint_draws_reduce_to_zero() {
    assert_eq!(stub_disjoint_max(0), 0);
    assert_eq!(stub_disjoint_max(1), 0);
    assert_eq!(stub_disjoint_max(17), 0);
}

#[test]
fn stub_identical_ones_reduce_to_full_width() {
    assert_eq!(stub_full_width_max(0), 0);
    assert_eq!(stub_full_width_max(1), 256);
    assert_eq!(stub_full_width_max(9), 256);
}

#[test]
fn split_reduction_matches_full_pass() {
    let vals = vec![3u32, 1, 4, 1, 5, 9, 2, 6];
    let mut whole = CycleStub::new(vals.clone());
    let full = reduce_worker(&mut whole, 8);

    let mut again = CycleStub::new(vals);
    let left = reduce_worker(&mut again, 3);
    let right = reduce_worker(&mut again, 5);
    assert_eq!(full, left.max(right));
    assert_eq!(full, 9);

    // an uneven split of the same range agrees as well
    let mut third = CycleStub::new(vec![3u32, 1, 4, 1, 5, 9, 2, 6]);
    let a = reduce_worker(&mut third, 1);
    let b = reduce_worker(&mut third, 7);
    assert_eq!(full, a.max(b));
}

#[test]
fn entropy_double_hands_out_progression() {
    let mut es = EntropySource::Fixed { counter: 5, stride: 3 };
    assert_eq!(es.next_seed(), 5);
    assert_eq!(es.next_seed(), 8);
    assert_eq!(es.next_seed(), 11);
}

#[test]
fn workers_with_distinct_seeds_diverge() {
    let mut first = WyRand::new(1);
    let mut second = WyRand::new(2);
    let a: Vec<u64> = (0..16).map(|_| first.rand()).collect();
    let b: Vec<u64> = (0..16).map(|_| second.rand()).collect();
    assert_ne!(a, b);
}

#[test]
fn fixed_entropy_makes_runs_repeatable() {
    let mut e1 = EntropySource::Fixed { counter: 7, stride: 11 };
    let mut e2 = EntropySource::Fixed { counter: 7, stride: 11 };
    let r1 = popmax::reduce::reduce::<popmax::strategies::WyScalarWorker>(100, 4, &mut e1);
    let r2 = popmax::reduce::reduce::<popmax::strategies::WyScalarWorker>(100, 4, &mut e2);
    assert_eq!(r1, r2);
    assert!(r1 <= 256);
}

#[test]
fn distribution_sanity_full_width() {
    // AND of two uniform draws sets each of 256 bits with probability 1/4:
    // outcomes are Binomial(256, 0.25), mean 64. The maximum over 50,000
    // trials lies well above 70 and far below 150 with overwhelming odds.
    let max = wyrand(50_000);
    assert!(max > 70, "observed maximum {} suspiciously low", max);
    assert!(max < 150, "observed maximum {} suspiciously high", max);
}

#[test]
fn distribution_sanity_byte_lane_variant() {
    // same Binomial(256, 0.25) statistic built from byte rolls
    let max = par_iter_2(2_000);
    assert!(max > 70 && max < 150);
}

#[test]
fn byte_roll_variant_stays_high() {
    // 231 rolls each set with probability 3/4: mean 173
    let max = par_iter_1(1_000);
    assert!(max > 160 && max <= 231);
}

#[test]
fn outside_generator_variants_stay_in_width() {
    assert!(rand_simd(500) <= 231);
    assert!(xoshiro(500) <= 231);
    assert!(par_iter_3_manual(500) <= 256);
    let wide = par_iter_3_avx512(500);
    assert!(0 <= wide && wide <= 256);
    assert!(wyrand_simd(500) <= 231);
    assert!(wyrand_avx512(500) <= 256);
    assert!(wyrand_simd_multiple_rng(500) <= 231);
}

#[test]
fn fixed_entropy_run_matches_replay() {
    // four workers over 100 trials: four chunks of 25, seeded 7, 18, 29, 40
    let mut e = EntropySource::Fixed { counter: 7, stride: 11 };
    let got = popmax::reduce::reduce::<popmax::strategies::WyScalarWorker>(100, 4, &mut e);
    let mut expect = 0u32;
    for k in 0..4u64 {
        let mut rng = wyrand::WyRand::new(7 + 11 * k);
        for _ in 0..25 {
            let mut outcome = 0u32;
            for _ in 0..4 {
                let a = rng.rand();
                let b = rng.rand();
                outcome += (a & b).count_ones();
            }
            expect = expect.max(outcome);
        }
    }
    assert_eq!(got, expect);
}
