//! The pseudorandom source, behind trusted wrappers.
//!
//! All nondeterminism in the simulation flows through the three functions in
//! this module. Their contracts state only what holds of every possible
//! outcome (a range, or that a shuffle permutes); everything done with the
//! drawn values is verified for every value the contracts allow.

use vstd::prelude::*;

use rand::seq::SliceRandom;
use rand::Rng;

verus! {

/// Draws a uniform value in `[0, 1000)`, for per-mille chance checks.
///
/// Relies on rand's `Rng::gen_range`, which returns a uniform sample in the
/// given range and panics only when the range is empty; `0..1000` is not.
#[verifier::external_body]
pub fn random_permille() -> (r: u16)
    ensures
        r < 1000,
{
    rand::thread_rng().gen_range(0..1000u16)
}

/// Draws a uniform value in `[0, bound)`.
///
/// Relies on rand's `Rng::gen_range`, which returns a uniform sample in the
/// given range and panics only when the range is empty; `bound > 0` rules
/// that out.
#[verifier::external_body]
pub fn random_below(bound: u16) -> (r: u16)
    requires
        bound > 0,
    ensures
        r < bound,
{
    rand::thread_rng().gen_range(0..bound)
}

/// Returns the given steps in a uniformly random order.
///
/// Relies on rand's `SliceRandom::shuffle`, which permutes the slice in
/// place: the result holds exactly the elements that went in.
#[verifier::external_body]
pub fn shuffle_steps(steps: Vec<(i32, i32)>) -> (r: Vec<(i32, i32)>)
    ensures
        r@.to_multiset() == steps@.to_multiset(),
        r@.len() == steps@.len(),
        forall|i: int| 0 <= i < r@.len() ==> steps@.contains(r@[i]),
{
    let mut shuffled = steps;
    shuffled.shuffle(&mut rand::thread_rng());
    shuffled
}

} // verus!
