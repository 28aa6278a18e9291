//! Random draws used by the rules (wave composition, spawn lanes, garlic
//! lane changes), taken from the `rand` thread generator.

use rand::RngExt;
use vstd::prelude::*;

verus! {

/// A uniformly drawn index below `n`.
///
/// Trusted: wraps `rand::rng()` and `RngExt::random_range` on the range
/// `0..n`. rand documents that the draw lies in the half-open range and
/// panics only on an empty range, which `n > 0` rules out. Which index
/// comes out is left open.
#[verifier::external_body]
pub(crate) fn random_below(n: usize) -> (r: usize)
    requires
        n > 0,
    ensures
        r < n,
{
    rand::rng().random_range(0..n)
}

/// A fair coin.
///
/// Trusted: wraps `rand::rng()` and `RngExt::random_ratio(1, 2)`, which rand
/// documents as true with chance one in two and panics only when the
/// denominator is zero or below the numerator (not the case here). Nothing
/// is promised of the outcome.
#[verifier::external_body]
pub(crate) fn coin_flip() -> (r: bool) {
    rand::rng().random_ratio(1, 2)
}

} // verus!
