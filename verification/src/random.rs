//! The random draws the spawners need, taken from a seedable generator.

use vstd::prelude::*;
use rand::rngs::StdRng;
use rand::Rng;

verus! {

/// `rand::rngs::StdRng`, the generator the spawners draw from. Nothing is
/// known of its state.
#[verifier::external_type_specification]
#[verifier::external_body]
pub struct ExStdRng(StdRng);

/// `Rng::random_range` of `rand` on the half-open range `low..high`.
/// The range must not be empty, or the call panics. Claimed: the value lies
/// in the range. Which value comes is not known.
#[verifier::external_body]
pub(crate) fn uniform_below(rng: &mut StdRng, low: i64, high: i64) -> (x: i64)
    requires
        low < high,
    ensures
        low <= x < high,
{
    rng.random_range(low..high)
}

/// `Rng::random_range` of `rand` on the closed range `low..=high`.
/// The range must not be empty, or the call panics. Claimed: the value lies
/// in the range. Which value comes is not known.
#[verifier::external_body]
pub(crate) fn uniform_through(rng: &mut StdRng, low: u64, high: u64) -> (x: u64)
    requires
        low <= high,
    ensures
        low <= x <= high,
{
    rng.random_range(low..=high)
}

} // verus!
