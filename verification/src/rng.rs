//! Trusted boundary to the `rand` crate: opaque generator types and the two
//! draws the map code needs. Nothing is assumed of a draw beyond its range.

use vstd::prelude::*;
use rand::Rng;
use rand::SeedableRng;

verus! {

#[verifier::external_type_specification]
#[verifier::external_body]
pub struct ExStdRng(rand::rngs::StdRng);

#[verifier::external_type_specification]
#[verifier::external_body]
pub struct ExThreadRng(rand::rngs::ThreadRng);

/// Relies on rand's StdRng::seed_from_u64 (SeedableRng): makes a generator
/// from a seed. Nothing is promised of the values it will produce.
#[verifier::external_body]
pub(crate) fn seeded_rng(seed: u64) -> rand::rngs::StdRng {
    rand::rngs::StdRng::seed_from_u64(seed)
}

/// Relies on rand's thread_rng: hands out the thread-local generator.
/// Nothing is promised of the values it will produce.
#[verifier::external_body]
pub(crate) fn thread_rng() -> rand::rngs::ThreadRng {
    rand::thread_rng()
}

/// Relies on rand's Rng::gen_range on a seeded generator: the result lies in
/// the given range, which must not be empty.
#[verifier::external_body]
pub(crate) fn gen_index(rng: &mut rand::rngs::StdRng, n: usize) -> (r: usize)
    requires
        n >= 1,
    ensures
        r < n,
{
    rng.gen_range(0..n)
}

/// Relies on rand's Rng::gen_range on the thread-local generator: the result
/// lies in the given range, which must not be empty.
#[verifier::external_body]
pub(crate) fn thread_gen_index(rng: &mut rand::rngs::ThreadRng, n: usize) -> (r: usize)
    requires
        n >= 1,
    ensures
        r < n,
{
    rng.gen_range(0..n)
}

} // verus!
