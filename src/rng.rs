//! The pseudo-random source behind `Cxnn`, taken from the rand crate.
use vstd::prelude::*;
use rand::Rng;
use rand::SeedableRng;
use rand::rngs::StdRng;

verus! {

#[verifier::external_type_specification]
#[verifier::external_body]
pub struct ExStdRng(StdRng);

/// Relies on rand's `SeedableRng::from_rng` for `StdRng` with `OsRng`: a
/// generator seeded from the operating system's entropy source, or `None`
/// when the operating system reports an error instead of entropy.
#[verifier::external_body]
pub(crate) fn rng_from_os() -> Option<StdRng> {
    StdRng::from_rng(rand::rngs::OsRng).ok()
}

/// Relies on rand's `SeedableRng::seed_from_u64` for `StdRng`: a generator
/// whose output is fixed by `seed`.
#[verifier::external_body]
pub(crate) fn rng_from_seed(seed: u64) -> StdRng {
    StdRng::seed_from_u64(seed)
}

/// Relies on rand's `Rng::gen::<u8>`: the next byte of the generator. Any
/// byte may come back.
#[verifier::external_body]
pub(crate) fn next_byte(rng: &mut StdRng) -> u8 {
    rng.gen::<u8>()
}

} // verus!
