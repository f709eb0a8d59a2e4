//! The session's pseudo-random generator: a seeded small RNG, consulted only
//! to pick among equally eligible modes and for the cosmetic startup delay.

use vstd::prelude::*;

verus! {

#[verifier::external_type_specification]
#[verifier::external_body]
pub struct ExSmallRng(rand::rngs::SmallRng);

/// Relies on rand's `SeedableRng::seed_from_u64`: constructs a generator from
/// a seed. Nothing is promised of the values it will produce.
#[verifier::external_body]
pub(crate) fn rng_from_seed(seed: u64) -> (r: rand::rngs::SmallRng) {
    <rand::rngs::SmallRng as rand::SeedableRng>::seed_from_u64(seed)
}

/// Relies on rand's `Rng::gen_range`: a sample from `0..n` lies below `n`;
/// the range is nonempty, so the call cannot panic.
#[verifier::external_body]
pub(crate) fn rng_below(rng: &mut rand::rngs::SmallRng, n: usize) -> (r: usize)
    requires
        n >= 1,
    ensures
        r < n,
{
    rand::Rng::gen_range(rng, 0..n)
}

} // verus!
