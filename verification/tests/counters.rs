//! Golden-vector tests for the bit-population counters: both verified
//! implementations against the platform's own count, and the masked and
//! full 256-bit counters on known patterns.
use popmax::popcount::{popcount_word, popcount_word_swar};
use popmax::words::{and_lanes, popcnt_arr, popcnt_arr_full, Bits256};

fn golden_words() -> Vec<u64> {
    vec![
        0,
        1,
        u64::MAX,
        0x5555_5555_5555_5555,
        0xaaaa_aaaa_aaaa_aaaa,
        0x0123_4567_89ab_cdef,
        0xdead_beef_dead_beef,
        1u64 << 63,
        0x0000_007f_ffff_ffff,
        0x8000_0000_0000_0001,
        0x00ff_00ff_00ff_00ff,
        0xfedc_ba98_7654_3210,
    ]
}

#[test]
fn popcount_word_matches_count_ones() {
    for w in golden_words() {
        assert_eq!(popcount_word(w), w.count_ones());
    }
}

#[test]
fn counter_equivalence_scalar_vs_swar() {
    for w in golden_words() {
        assert_eq!(popcount_word(w), popcount_word_swar(w));
    }
    let mut x: u64 = 0x9e37_79b9_7f4a_7c15;
    for _ in 0..1000 {
        x = x.wrapping_mul(0x5851_f42d_4c95_7f2d).wrapping_add(0x1405_7b7e_f767_814f);
        assert_eq!(popcount_word(x), popcount_word_swar(x));
        assert_eq!(popcount_word(x), x.count_ones());
    }
}

#[test]
fn counter_equivalence_vectors() {
    let pats = golden_words();
    for i in 0..pats.len() {
        let v = Bits256 {
            l0: pats[i],
            l1: pats[(i + 1) % pats.len()],
            l2: pats[(i + 2) % pats.len()],
            l3: pats[(i + 3) % pats.len()],
        };
        let full = v.l0.count_ones() + v.l1.count_ones() + v.l2.count_ones() + v.l3.count_ones();
        let masked = (v.l0 & 0x0000_007f_ffff_ffff).count_ones() + v.l1.count_ones()
            + v.l2.count_ones() + v.l3.count_ones();
        assert_eq!(popcnt_arr_full(v), full);
        assert_eq!(popcnt_arr(v), masked);
    }
}

#[test]
fn masked_counter_full_width_values() {
    let ones = Bits256 { l0: u64::MAX, l1: u64::MAX, l2: u64::MAX, l3: u64::MAX };
    assert_eq!(popcnt_arr(ones), 231);
    assert_eq!(popcnt_arr_full(ones), 256);
    let zeros = Bits256 { l0: 0, l1: 0, l2: 0, l3: 0 };
    assert_eq!(popcnt_arr(zeros), 0);
    assert_eq!(popcnt_arr_full(zeros), 0);
}

#[test]
fn and_then_count_stays_in_width() {
    let pats = golden_words();
    for a0 in &pats {
        for b0 in &pats {
            let a = Bits256 { l0: *a0, l1: *b0, l2: !*a0, l3: *a0 ^ *b0 };
            let b = Bits256 { l0: *b0, l1: *a0, l2: *b0, l3: !*b0 };
            let v = and_lanes(a, b);
            assert!(popcnt_arr_full(v) <= 256);
            assert!(popcnt_arr(v) <= 231);
        }
    }
}
