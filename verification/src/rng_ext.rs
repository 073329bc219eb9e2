//! Trusted boundary to the outside generators: the thread-local generator of
//! rand and the scrambled long-period generator of rand_xoshiro. A draw from
//! either is unpredictable, so no wrapper promises anything of its value;
//! everything the library proves holds whatever these calls return.
use vstd::prelude::*;

verus! {

/// rand's thread-local generator, declared so values of it can be held.
#[verifier::external_type_specification]
#[verifier::external_body]
pub struct ExThreadRng(rand::rngs::ThreadRng);

/// The scrambled long-period generator, declared so values of it can be held.
#[verifier::external_type_specification]
#[verifier::external_body]
pub struct ExXoshiro(rand_xoshiro::Xoshiro256StarStar);

/// Relies on rand::rng: a handle to the thread-local generator, freshly
/// seeded from the operating system on first use in a thread.
#[verifier::external_body]
pub(crate) fn fresh_thread_rng() -> rand::rngs::ThreadRng {
    rand::rng()
}

/// Relies on rand's Rng::next_u64 for ThreadRng: one 64-bit draw.
#[verifier::external_body]
pub(crate) fn thread_rng_u64(rng: &mut rand::rngs::ThreadRng) -> u64 {
    rand::Rng::next_u64(rng)
}

/// Relies on rand's SeedableRng::seed_from_u64 for Xoshiro256StarStar: a
/// generator whose 256-bit state is expanded from the given seed.
#[verifier::external_body]
pub(crate) fn xoshiro_from_seed(seed: u64) -> rand_xoshiro::Xoshiro256StarStar {
    rand_xoshiro::rand_core::SeedableRng::seed_from_u64(seed)
}

/// Relies on rand_core's Rng::next_u64 for Xoshiro256StarStar: one 64-bit
/// draw that advances the generator.
#[verifier::external_body]
pub(crate) fn xoshiro_u64(rng: &mut rand_xoshiro::Xoshiro256StarStar) -> u64 {
    rand_xoshiro::rand_core::Rng::next_u64(rng)
}

/// Relies on rayon::current_num_threads: how wide the pool is. The verified
/// caller clamps the value, so nothing is assumed of it.
#[verifier::external_body]
pub(crate) fn pool_width() -> usize {
    rayon::current_num_threads()
}

} // verus!
