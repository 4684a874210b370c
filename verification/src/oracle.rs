//! The uniform-choice oracle used for random draws.

use rand::RngExt;
use vstd::prelude::*;

verus! {

/// Relies on rand::RngExt::random_range over the thread generator from
/// rand::rng(): a draw from the half-open range `0..n` lies below `n`.
/// The range is non-empty, so the call does not panic on it.
#[verifier::external_body]
pub(crate) fn random_below(n: usize) -> (r: usize)
    requires
        0 < n,
    ensures
        r < n,
{
    rand::rng().random_range(0..n)
}

} // verus!
