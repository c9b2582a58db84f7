//! The engine's one source of randomness, behind a trusted wrapper.

use vstd::prelude::*;

verus! {

/// Relies on macroquad's `rand::gen_range` (the re-exported
/// `quad_rand::gen_range`): for an integer type it returns
/// `low + trunc((high - low) * r)` for a random fraction `r` in [0, 1),
/// so with `low < high` the result lies between `low` and `high`. The
/// result is random: nothing relates one call to the next.
#[verifier::external_body]
pub(crate) fn gen_range_i64(low: i64, high: i64) -> (r: i64)
    requires
        -1_000_000_000 <= low < high <= 1_000_000_000,
    ensures
        low <= r <= high,
{
    macroquad::rand::gen_range(low, high)
}

} // verus!
