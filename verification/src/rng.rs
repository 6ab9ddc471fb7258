//! The random draws that the game rules make, taken from the `rand` crate.

use vstd::prelude::*;
use rand::Rng;

verus! {

/// Draws a value uniformly from `lo..=hi` with `rand::thread_rng().gen_range`.
///
/// The crate documents that `gen_range` panics on an empty range and
/// otherwise returns a value inside the range; that is all this contract
/// claims. Which value comes back is left open.
#[verifier::external_body]
pub(crate) fn gen_range_inclusive(lo: u64, hi: u64) -> (r: u64)
    requires
        lo <= hi,
    ensures
        lo <= r <= hi,
{
    rand::thread_rng().gen_range(lo..=hi)
}

/// Draws an arbitrary `u32` with `rand::random`. Nothing is claimed of the
/// value: every `u32` may come back.
#[verifier::external_body]
pub(crate) fn random_u32() -> (r: u32) {
    rand::random::<u32>()
}

} // verus!
