//! The random source behind procedural reveal.

use vstd::prelude::*;

verus! {

/// Relies on `rand::thread_rng` and `rand::Rng::gen_range`: a draw from the
/// thread-local generator over the half-open range `0..bound`, which is
/// non-empty because `bound >= 1`. Nothing is assumed of which value comes
/// back beyond its range.
#[verifier::external_body]
pub(crate) fn random_below(bound: u64) -> (r: u64)
    requires
        bound >= 1,
    ensures
        r < bound,
{
    rand::Rng::gen_range(&mut rand::thread_rng(), 0..bound)
}

} // verus!
