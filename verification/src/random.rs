//! The engine's single source of randomness: scattered background targets
//! and layout jitter are drawn through here.

use vstd::prelude::*;
use rand::Rng;

verus! {

/// Relies on rand's `Rng::random_range` over `lo..hi`: a draw from the
/// uniform distribution on `[lo, hi)`, which panics only when the range is
/// empty.
#[verifier::external_body]
pub(crate) fn random_in_range(lo: i64, hi: i64) -> (r: i64)
    requires
        lo < hi,
    ensures
        lo <= r < hi,
{
    rand::rng().random_range(lo..hi)
}

} // verus!
