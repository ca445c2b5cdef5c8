//! Trusted boundary to the `rand` crate: a seeded generator and a
//! uniform draw from an integer range. Nothing here is verified; the
//! contracts state only what `rand`'s source shows of every outcome.

use rand::Rng;
use rand::SeedableRng;
use rand::rngs::StdRng;
use vstd::prelude::*;

verus! {

#[verifier::external_type_specification]
#[verifier::external_body]
pub struct ExStdRng(StdRng);

/// Relies on `rand::rngs::StdRng::from_entropy`: seeds a fresh
/// generator from the operating system's entropy source. Nothing can
/// be promised of the values it will produce; it aborts only if that
/// source itself fails, which no input of ours controls.
#[verifier::external_body]
pub(crate) fn fresh_rng() -> StdRng {
    StdRng::from_entropy()
}

/// Relies on `rand::Rng::gen_range` over `lo..hi`: returns a value
/// drawn uniformly from the half-open range, and panics only on an
/// empty range, which the precondition rules out. Beyond the bounds,
/// nothing is promised of the draw.
#[verifier::external_body]
pub(crate) fn gen_range_u64(rng: &mut StdRng, lo: u64, hi: u64) -> (r: u64)
    requires
        lo < hi,
    ensures
        lo <= r < hi,
{
    rng.gen_range(lo..hi)
}

} // verus!
