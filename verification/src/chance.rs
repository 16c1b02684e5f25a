//! Dice rolls, drawn from the thread-local generator of `rand`.
use vstd::prelude::*;
use rand::rngs::ThreadRng;
use rand::Rng;

verus! {

/// The thread-local random number generator of `rand`; opaque here.
#[verifier::external_type_specification]
#[verifier::external_body]
pub struct ExThreadRng(ThreadRng);

/// Calls `rand::thread_rng`: a handle on the generator of the current thread. Nothing is
/// claimed of it.
#[verifier::external_body]
pub(crate) fn thread_rng() -> (rng: ThreadRng) {
    rand::thread_rng()
}

/// Calls `rand::Rng::gen_ratio`: `true` with probability `numerator / denominator`.
/// The outcome is left open, but for the two ends that `rand` documents and its source
/// shows: a numerator of zero always gives `false`, a numerator equal to the denominator
/// always gives `true`. `rand` panics on a zero denominator or a numerator above it,
/// which `requires` rules out.
#[verifier::external_body]
pub(crate) fn gen_ratio(rng: &mut ThreadRng, numerator: u32, denominator: u32) -> (r: bool)
    requires
        0 < denominator,
        numerator <= denominator,
    ensures
        numerator == 0 ==> !r,
        numerator == denominator ==> r,
{
    rng.gen_ratio(numerator, denominator)
}

/// Calls `rand::Rng::gen_range` with the inclusive range `low..=high`: some number in
/// that range, which one being left open. `rand` panics on an empty range, which
/// `requires` rules out.
#[verifier::external_body]
pub(crate) fn gen_range_inclusive(rng: &mut ThreadRng, low: u32, high: u32) -> (r: u32)
    requires
        low <= high,
    ensures
        low <= r <= high,
{
    rng.gen_range(low..=high)
}

} // verus!
