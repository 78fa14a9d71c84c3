//! The seeded stream of random draws.

use rand::{Rng, SeedableRng};
use rand::rngs::StdRng;
use vstd::prelude::*;

verus! {

/// `rand::rngs::StdRng`, the generator behind every draw. Its state is opaque
/// to the proofs.
#[verifier::external_type_specification]
#[verifier::external_body]
pub struct ExStdRng(StdRng);

/// Calls `StdRng::seed_from_u64`. Nothing is claimed of the generator that it
/// returns.
#[verifier::external_body]
pub(crate) fn seeded_stream(seed: u64) -> (rng: StdRng) {
    StdRng::seed_from_u64(seed)
}

/// Calls `Rng::gen_range` on the half-open range from `low` to `high`. The
/// claim is the one its documentation makes: the value lies in that range. An
/// empty range, on which it panics, is excluded.
#[verifier::external_body]
pub(crate) fn draw_in_range(rng: &mut StdRng, low: i64, high: i64) -> (value: i64)
    requires
        low < high,
    ensures
        low <= value < high,
{
    rng.gen_range(low..high)
}

} // verus!
