//! The share of an amount taken by `sp_arithmetic::Percent`.
use sp_arithmetic::Percent;
use vstd::prelude::*;

verus! {

/// `Percent::from_percent(p) * x`: `p` is capped at 100, and `x * p / 100`
/// is rounded to the nearest integer, a remainder of exactly one half
/// rounding down.
pub open spec fn percent_of(p: int, x: int) -> int {
    let parts = if p > 100 { 100 } else { p };
    let t = x * parts;
    t / 100 + if t % 100 > 50 { 1int } else { 0int }
}

/// `sp_arithmetic::Percent::from_percent` followed by `Percent * u64`
/// (`overflow_prune_mul` with `Rounding::NearestPrefDown`). The `Percent`
/// built from `p` never leaves this function.
#[verifier::external_body]
pub(crate) fn percent_mul(p: u8, x: u64) -> (r: u64)
    ensures
        r == percent_of(p as int, x as int),
{
    Percent::from_percent(p) * x
}

} // verus!
