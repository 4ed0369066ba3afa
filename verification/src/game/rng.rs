//! The random source. Nothing here is proved: each item states what the
//! `rand` crate documents of the call it makes.

use rand::rngs::ThreadRng;
use rand::Rng;
use vstd::prelude::*;

verus! {

/// `rand::rngs::ThreadRng`, the handle to the thread's generator. Nothing is
/// known of what it holds.
#[verifier::external_type_specification]
#[verifier::external_body]
pub struct ExThreadRng(rand::rngs::ThreadRng);

/// `rand::rng` hands out the handle to the thread's generator. Nothing is
/// claimed of it.
pub assume_specification[ rand::rng ]() -> (generator: ThreadRng);

/// `Rng::random_range` on the half-open range `low..high`: the value lies in
/// the range. The call panics on an empty range, which `requires` leaves
/// out. Which value comes is not said, nor that two calls agree.
#[verifier::external_body]
pub(crate) fn random_range(generator: &mut ThreadRng, low: usize, high: usize) -> (value: usize)
    requires
        low < high,
    ensures
        low <= value < high,
{
    generator.random_range(low..high)
}

/// `Rng::random_ratio`: true with a chance of `numerator` in `denominator`.
/// Only the two certain cases are stated: never true for a numerator of 0,
/// always true when both are equal. The call panics on a denominator of 0
/// and on a numerator above it, which `requires` leaves out.
#[verifier::external_body]
pub(crate) fn random_ratio(generator: &mut ThreadRng, numerator: u32, denominator: u32) -> (hit:
    bool)
    requires
        0 < denominator,
        numerator <= denominator,
    ensures
        numerator == 0 ==> !hit,
        numerator == denominator ==> hit,
{
    generator.random_ratio(numerator, denominator)
}

} // verus!
