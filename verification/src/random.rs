//! The source of random draws.

use rand::distributions::Distribution;
use rand::distributions::Uniform;
use rand::rngs::ThreadRng;
use vstd::prelude::*;

verus! {

/// The thread-local generator of the `rand` crate. Nothing is known of its
/// state.
#[verifier::external_type_specification]
#[verifier::external_body]
pub struct ExThreadRng(rand::rngs::ThreadRng);

/// `rand::thread_rng` hands out the calling thread's generator. It takes no
/// argument and nothing is claimed of what it returns.
pub assume_specification[ rand::thread_rng ]() -> (rng: ThreadRng)
;

/// `Uniform::from(min..max).sample(rng)`: one draw from the half-open range
/// from `min` to `max`. The range must not be empty, or the constructor
/// panics. Every outcome lies in the range; which one comes is left open.
#[verifier::external_body]
fn sample_range(rng: &mut ThreadRng, min: i32, max: i32) -> (value: i32)
    requires
        min < max,
    ensures
        min <= value < max,
{
    Uniform::from(min..max).sample(rng)
}

/// A source of uniform draws.
pub struct RandomGenerator {
    rng: ThreadRng,
}

impl RandomGenerator {
    /// A generator on the calling thread's random source.
    pub fn new() -> (generator: RandomGenerator) {
        RandomGenerator { rng: rand::thread_rng() }
    }

    /// One integer drawn uniformly from `min` up to, but not including,
    /// `max`.
    pub fn random_int(&mut self, min: i32, max: i32) -> (value: i32)
        requires
            min < max,
        ensures
            min <= value < max,
    {
        sample_range(&mut self.rng, min, max)
    }
}

} // verus!
