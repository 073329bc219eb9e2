//! The fast non-cryptographic engine: a 64-bit state stepped by a fixed odd
//! constant, whose output mixes the state with a folded 128-bit multiply.
//! The step and the output are fully specified, so every draw is a proved
//! function of the seed.
use vstd::prelude::*;

verus! {

/// State increment of one draw.
pub const WY_STEP: u64 = 0x2d35_8dcc_aa6c_78a5;

/// Xor constant applied to the state before the mixing multiply.
pub const WY_XOR: u64 = 0x8bb8_4b93_962e_acc9;

/// The state after one draw.
pub open spec fn wy_step(s: u64) -> u64 {
    ((s + WY_STEP) % 0x1_0000_0000_0000_0000) as u64
}

/// Folds the 128-bit product of the two halves to 64 bits.
pub open spec fn wy_mix(a: u64, b: u64) -> u64 {
    (((a * b) % 0x1_0000_0000_0000_0000) as u64) ^ (((a * b)
        / 0x1_0000_0000_0000_0000) as u64)
}

/// The value one draw returns, as a function of the stepped state.
pub open spec fn wy_out(s: u64) -> u64 {
    wy_mix(s, s ^ WY_XOR)
}

/// The state after `n` draws.
pub open spec fn wy_state_n(s: u64, n: nat) -> u64
    decreases n,
{
    if n == 0 {
        s
    } else {
        wy_step(wy_state_n(s, (n - 1) as nat))
    }
}

/// The value of draw number `n` (first draw is `n == 1`).
pub open spec fn wy_draw(s: u64, n: nat) -> u64 {
    wy_out(wy_state_n(s, n))
}

/// The fast engine: seeded once, stepped once per draw.
pub struct WyRand {
    pub state: u64,
}

impl WyRand {
    /// Seeds the engine; the seed is the whole state.
    pub fn new(seed: u64) -> (r: WyRand)
        ensures
            r.state == seed,
    {
        WyRand { state: seed }
    }

    /// One draw: steps the state and returns the mixed value.
    pub fn rand(&mut self) -> (r: u64)
        ensures
            final(self).state == wy_step(old(self).state),
            r == wy_out(final(self).state),
    {
        self.state = self.state.wrapping_add(WY_STEP);
        let a: u128 = self.state as u128;
        let b: u128 = (self.state ^ WY_XOR) as u128;
        proof {
            assert(a * b < 0x1_0000_0000_0000_0000_0000_0000_0000_0000) by (nonlinear_arith)
                requires
                    a < 0x1_0000_0000_0000_0000,
                    b < 0x1_0000_0000_0000_0000,
            ;
            assert((a * b) / 0x1_0000_0000_0000_0000 < 0x1_0000_0000_0000_0000);
        }
        let t: u128 = a * b;
        let lo: u64 = (t % 0x1_0000_0000_0000_0000) as u64;
        let hi: u64 = (t / 0x1_0000_0000_0000_0000) as u64;
        lo ^ hi
    }
}

/// Stepping is injective: two engines seeded differently still differ after
/// any number of draws.
pub proof fn lemma_distinct_seeds_distinct_states(s1: u64, s2: u64, n: nat)
    requires
        s1 != s2,
    ensures
        wy_state_n(s1, n) != wy_state_n(s2, n),
    decreases n,
{
    if n > 0 {
        lemma_distinct_seeds_distinct_states(s1, s2, (n - 1) as nat);
        let a = wy_state_n(s1, (n - 1) as nat);
        let b = wy_state_n(s2, (n - 1) as nat);
        lemma_wy_step_injective(a, b);
    }
}

proof fn lemma_wy_step_injective(a: u64, b: u64)
    requires
        a != b,
    ensures
        wy_step(a) != wy_step(b),
{
    let m: int = 0x1_0000_0000_0000_0000;
    let x: int = a + WY_STEP;
    let y: int = b + WY_STEP;
    if x < m && y < m {
        vstd::arithmetic::div_mod::lemma_small_mod(x as nat, m as nat);
        vstd::arithmetic::div_mod::lemma_small_mod(y as nat, m as nat);
    } else if x >= m && y >= m {
        vstd::arithmetic::div_mod::lemma_mod_sub_multiples_vanish(x, m);
        vstd::arithmetic::div_mod::lemma_small_mod((x - m) as nat, m as nat);
        vstd::arithmetic::div_mod::lemma_mod_sub_multiples_vanish(y, m);
        vstd::arithmetic::div_mod::lemma_small_mod((y - m) as nat, m as nat);
    } else if x < m && y >= m {
        vstd::arithmetic::div_mod::lemma_small_mod(x as nat, m as nat);
        vstd::arithmetic::div_mod::lemma_mod_sub_multiples_vanish(y, m);
        vstd::arithmetic::div_mod::lemma_small_mod((y - m) as nat, m as nat);
    } else {
        vstd::arithmetic::div_mod::lemma_mod_sub_multiples_vanish(x, m);
        vstd::arithmetic::div_mod::lemma_small_mod((x - m) as nat, m as nat);
        vstd::arithmetic::div_mod::lemma_small_mod(y as nat, m as nat);
    }
}

} // verus!
