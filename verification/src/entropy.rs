//! The random source of the jitter mode.
//!
//! The numbers come from the `rand` crate. Nothing here is proved of that
//! crate: the declaration of its generator type and the two items at the
//! end of this file state what its source shows, and the verifier takes
//! them on trust.

use rand::rngs::ThreadRng;
use vstd::prelude::*;

verus! {

/// `rand::rngs::ThreadRng`, the generator that `rand` keeps for each thread.
/// The verifier sees nothing inside a value of it.
#[verifier::external_type_specification]
#[verifier::external_body]
pub struct ExThreadRng(ThreadRng);

/// A source of uniformly distributed integers, owned by one runner.
pub struct RandomSource {
    rng: ThreadRng,
}

impl RandomSource {
    /// Opens the random source of the current thread. The generator behind
    /// it is seeded by the operating system at the first call in a thread;
    /// where the operating system refuses the seed, `rand` panics.
    pub fn new() -> (source: RandomSource) {
        RandomSource { rng: rand::thread_rng() }
    }

    /// Draws an integer between `low` and `high`, both included. Two draws
    /// from the same range may differ, so the contract bounds the result and
    /// says nothing more. The generator reseeds itself from the operating
    /// system from time to time; where that is refused, `rand` panics.
    pub(crate) fn draw(&mut self, low: u64, high: u64) -> (value: u64)
        requires
            low <= high,
        ensures
            low <= value <= high,
    {
        uniform_inclusive(&mut self.rng, low, high)
    }
}

/// Trusted: `rand::thread_rng` hands out the calling thread's generator,
/// which `rand` seeds from the operating system at the first call in a
/// thread. Nothing is claimed of the value returned. Where the operating
/// system gives no seed, `rand` panics in that first call.
pub assume_specification[ rand::thread_rng ]() -> (rng: ThreadRng)
;

/// Trusted: `rand::Rng::gen_range` on the inclusive range `low..=high` of
/// `u64`. The crate rejects an empty range by panicking, which `requires`
/// rules out; for any other range its sampler returns `low` plus an offset
/// smaller than the number of values in the range, so the result lies in
/// the range. Which value comes back is left open. No input decides the
/// one panic that remains: the generator reseeds itself from the operating
/// system after a fixed amount of output, and panics where that fails.
#[verifier::external_body]
fn uniform_inclusive(rng: &mut ThreadRng, low: u64, high: u64) -> (value: u64)
    requires
        low <= high,
    ensures
        low <= value <= high,
{
    rand::Rng::gen_range(rng, low..=high)
}

} // verus!
