//! Random draws from the process-wide generator of `quad_rand`.
use vstd::prelude::*;

verus! {

/// Bound on the magnitude of a random draw's range ends.
pub const DRAW_MAX: i64 = 0x4000_0000;

/// Relies on `quad_rand::gen_range` for `i64`: it scales a random `u32` into
/// `[low, high)` in `f64` and truncates, which lands within `[low, high]`.
#[verifier::external_body]
pub(crate) fn random_between(low: i64, high: i64) -> (r: i64)
    requires
        low <= high,
        -DRAW_MAX <= low,
        high <= DRAW_MAX,
    ensures
        low <= r <= high,
{
    quad_rand::gen_range(low, high)
}

} // verus!
