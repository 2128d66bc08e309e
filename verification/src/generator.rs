//! The noise generator that drives a session's input value, and the seeds it
//! is made from.
//!
//! The generator is the `noise` crate's Perlin noise. The library makes one
//! per session and keeps it; sampling it is floating-point work, so the
//! caller samples and hands the sample back as a fixed-point value.

use vstd::prelude::*;

verus! {

/// The `noise` crate's Perlin generator. Nothing inside it is visible to the
/// proofs: a session carries it along for the caller to sample.
#[verifier::external_type_specification]
#[verifier::external_body]
pub struct ExPerlin(noise::Perlin);

/// The generator that `noise::Perlin::new` makes from `seed`. The generator
/// holds the seed and a table of 256 bytes that is shuffled by a generator of
/// random numbers started from the seed alone, so the same seed makes the
/// same generator wherever it is made.
pub uninterp spec fn perlin_of(seed: u32) -> noise::Perlin;

/// `noise::Perlin::new` builds a generator from a seed. It accepts every
/// seed, and what it returns depends on the seed alone: the contract gives
/// that generator its name and claims nothing else of it.
pub assume_specification[ noise::Perlin::new ](seed: u32) -> (generator: noise::Perlin)
    ensures
        generator == perlin_of(seed),
;

/// Draws a seed with `rand::random`, which reads the thread-local random
/// number generator. Nothing is claimed of the value: two calls may differ.
/// The call takes no argument; it fails only where the operating system has
/// no entropy to start the generator with.
#[verifier::external_body]
pub(crate) fn fresh_seed() -> (seed: u32) {
    rand::random::<u32>()
}

} // verus!
