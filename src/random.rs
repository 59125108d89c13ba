//! The seeded pseudo-random generator shared by the unlock and lobby phases.

use vstd::prelude::*;

verus! {

/// fastrand's generator, carried through opaquely: nothing is assumed of
/// its state.
#[verifier::external_type_specification]
#[verifier::external_body]
pub struct ExRng(fastrand::Rng);

/// Relies on `fastrand::Rng::with_seed`: a generator whose state is the seed.
#[verifier::external_body]
pub(crate) fn rng_from_seed(seed: u64) -> (r: fastrand::Rng) {
    fastrand::Rng::with_seed(seed)
}

/// Relies on `fastrand::Rng::usize`: a draw from the half-open range
/// `0..n`, which panics only when the range is empty.
#[verifier::external_body]
pub(crate) fn rng_below(rng: &mut fastrand::Rng, n: usize) -> (r: usize)
    requires
        0 < n,
    ensures
        r < n,
{
    rng.usize(0..n)
}

/// Relies on `fastrand::Rng::u8`: a draw from the inclusive range
/// `lo..=hi`, which panics only when the range is empty.
#[verifier::external_body]
pub(crate) fn rng_between(rng: &mut fastrand::Rng, lo: u8, hi: u8) -> (r: u8)
    requires
        lo <= hi,
    ensures
        lo <= r <= hi,
{
    rng.u8(lo..=hi)
}

} // verus!
