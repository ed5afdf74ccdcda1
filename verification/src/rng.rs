//! The one place where the crate touches a random source.

use vstd::prelude::*;

verus! {

/// Relies on rand::Rng::gen_range over the half-open range `lo..hi`, with the
/// thread-local generator from rand::thread_rng: for a non-empty range the
/// draw lies in `[lo, hi)`; an empty range would panic, so it is excluded.
#[verifier::external_body]
pub(crate) fn draw_in_range(lo: i64, hi: i64) -> (r: i64)
    requires
        lo < hi,
    ensures
        lo <= r < hi,
{
    rand::Rng::gen_range(&mut rand::thread_rng(), lo..hi)
}

} // verus!
