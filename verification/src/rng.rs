//! The renderer's source of randomness.

use vstd::prelude::*;

verus! {

/// Returns a random integer in `[min, max]`, both ends included.
///
/// Relies on `rand::RngExt::random_range`: for a non-empty inclusive range
/// it returns a value inside the range (and panics on an empty one, which
/// the precondition rules out).
#[verifier::external_body]
pub fn random_int(min: u32, max: u32) -> (r: u32)
    requires
        min <= max,
    ensures
        min <= r <= max,
{
    rand::RngExt::random_range(&mut rand::rng(), min..=max)
}

} // verus!
