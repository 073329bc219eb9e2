//! The entropy source that seeds each worker: injectable, so tests can hand
//! out known, distinct seeds while production draws from the process source.
use vstd::prelude::*;

verus! {

/// Seed provider consumed once per worker at initialization. `Process`
/// draws fresh entropy; `Fixed` is a deterministic double handing out an
/// arithmetic progression of seeds.
#[derive(Clone, Copy, PartialEq, Eq, Structural)]
pub enum EntropySource {
    Process,
    Fixed { counter: u64, stride: u64 },
}

/// The source after one seed has been handed out: the deterministic double
/// advances its counter by its stride, the process source is unchanged.
pub open spec fn seed_step(e: EntropySource) -> EntropySource {
    match e {
        EntropySource::Process => EntropySource::Process,
        EntropySource::Fixed { counter, stride } => EntropySource::Fixed {
            counter: ((counter + stride) % 0x1_0000_0000_0000_0000) as u64,
            stride,
        },
    }
}

/// The source after `n` seeds have been handed out.
pub open spec fn seed_after(e: EntropySource, n: nat) -> EntropySource
    decreases n,
{
    if n == 0 {
        e
    } else {
        seed_step(seed_after(e, (n - 1) as nat))
    }
}

/// The counter a deterministic source would hand out next (0 where the
/// source is the process one; only meaningful behind a `Fixed` test).
pub open spec fn fixed_counter(e: EntropySource) -> u64 {
    match e {
        EntropySource::Process => 0u64,
        EntropySource::Fixed { counter, stride } => counter,
    }
}

/// Relies on rand::random::<u64>: one fresh 64-bit value from the
/// process-wide generator. Nothing can be promised of its value.
#[verifier::external_body]
fn os_entropy_u64() -> u64 {
    rand::random::<u64>()
}

impl EntropySource {
    /// Hands out the next seed and steps the source. The deterministic
    /// double yields its counter; nothing is promised of a process draw.
    pub fn next_seed(&mut self) -> (s: u64)
        ensures
            *final(self) == seed_step(*old(self)),
            (*old(self)) matches EntropySource::Fixed { counter, stride } ==> s == counter,
    {
        match *self {
            EntropySource::Process => os_entropy_u64(),
            EntropySource::Fixed { counter, stride } => {
                *self = EntropySource::Fixed { counter: counter.wrapping_add(stride), stride };
                counter
            },
        }
    }
}

} // verus!
