use rand::Rng;
use vstd::prelude::*;

verus! {

/// A random number in `lo..hi`.
///
/// Calls `rand::Rng::gen_range` on `rand::thread_rng()`, which draws
/// uniformly from the half-open range and panics when it is empty; the
/// contract states only the range, since the draw is random.
#[verifier::external_body]
pub(crate) fn random_in_range(lo: u64, hi: u64) -> (r: u64)
    requires
        lo < hi,
    ensures
        lo <= r < hi,
{
    rand::thread_rng().gen_range(lo..hi)
}

/// A random index below `n`.
///
/// Calls `rand::Rng::gen_range` on `rand::thread_rng()` with `0..n`; it
/// panics when `n` is zero.
#[verifier::external_body]
pub(crate) fn random_index(n: usize) -> (r: usize)
    requires
        n > 0,
    ensures
        r < n,
{
    rand::thread_rng().gen_range(0..n)
}

} // verus!
