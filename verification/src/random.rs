//! The source of randomness.

use vstd::prelude::*;

verus! {

/// Draws a pseudo-random integer with `macroquad::rand::gen_range`, which is
/// the function of that name of the crate quad-rand.
///
/// That function takes the next number of a global generator as a fraction
/// `f` with `0 <= f < 1`, computes `low + (high - low) * f` in 64-bit floating
/// point and rounds the result towards zero. Nothing is proved of it. The
/// contract claims that the result is not below `low` and not above `high`;
/// which number of that span comes out depends on the state of the generator.
/// The bounds on the arguments keep the floating-point arithmetic exact.
#[verifier::external_body]
pub(crate) fn gen_range(low: i32, high: i32) -> (r: i32)
    requires
        -1_048_576 <= low < high <= 1_048_576,
    ensures
        low <= r <= high,
{
    macroquad::rand::gen_range(low, high)
}

} // verus!
