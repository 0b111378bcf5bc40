//! Draws from the process-wide random generator.
use vstd::prelude::*;
use rand::Rng;

verus! {

/// Relies on `rand::Rng::gen_range` on `rand::thread_rng()`: a value drawn
/// from `0..n`, which panics only when the range is empty.
#[verifier::external_body]
pub(crate) fn roll(n: u64) -> (r: u64)
    requires
        n > 0,
    ensures
        r < n,
{
    rand::thread_rng().gen_range(0..n)
}

/// A value drawn from `lo..hi`.
pub(crate) fn roll_between(lo: i64, hi: i64) -> (r: i64)
    requires
        lo < hi,
    ensures
        lo <= r < hi,
{
    let span: u64 = (hi as i128 - lo as i128) as u64;
    let k = roll(span);
    (lo as i128 + k as i128) as i64
}

/// True with probability `num / den`.
pub(crate) fn chance(num: u64, den: u64) -> (r: bool)
    requires
        den > 0,
{
    roll(den) < num
}

} // verus!
