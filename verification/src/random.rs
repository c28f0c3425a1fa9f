//! The pseudo-random generator behind obstacle placement.
//!
//! The generator is the `rand` crate's `StdRng`. Verus does not look inside it:
//! the three functions below are the only places where it is touched, and their
//! contracts are taken on trust from the `rand` sources.

use rand::rngs::StdRng;
use rand::Rng;
use rand::SeedableRng;
use vstd::prelude::*;

verus! {

/// Declares `rand::rngs::StdRng`, so that a generator can stand in fields and
/// signatures. Nothing is known of what is inside one.
#[verifier::external_type_specification]
#[verifier::external_body]
pub struct ExStdRng(rand::rngs::StdRng);

/// Calls `SeedableRng::seed_from_u64` for `StdRng`.
///
/// Nothing is claimed of the generator that comes back.
#[verifier::external_body]
pub(crate) fn seeded_rng(seed: u64) -> (rng: StdRng) {
    StdRng::seed_from_u64(seed)
}

/// Calls `Rng::gen_range` on the inclusive range `low..=high`.
///
/// `gen_range` panics on an empty range, which the precondition rules out. For a
/// non-empty inclusive integer range it returns a value inside the range; which
/// one depends on the generator's state, so nothing more is claimed.
#[verifier::external_body]
pub(crate) fn random_in_range(rng: &mut StdRng, low: i64, high: i64) -> (value: i64)
    requires
        low <= high,
    ensures
        low <= value <= high,
{
    rng.gen_range(low..=high)
}

/// Calls `Rng::gen_ratio`, a Bernoulli trial that succeeds with probability
/// `numerator / denominator`.
///
/// `gen_ratio` panics when the denominator is zero or smaller than the
/// numerator. It documents that the result is always `true` when both are equal
/// and always `false` when the numerator is zero.
#[verifier::external_body]
pub(crate) fn random_ratio(rng: &mut StdRng, numerator: u32, denominator: u32) -> (success: bool)
    requires
        denominator > 0,
        numerator <= denominator,
    ensures
        numerator == denominator ==> success,
        numerator == 0 ==> !success,
{
    rng.gen_ratio(numerator, denominator)
}

} // verus!
