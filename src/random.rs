//! Draws from the thread-local random generator of `rand`.

use rand::Rng;
use vstd::prelude::*;

verus! {

/// Relies on rand's `Rng::gen_range` over `low..high` on `rand::thread_rng()`:
/// the value lies in the half-open range, which must not be empty (it panics
/// on an empty one).
#[verifier::external_body]
pub(crate) fn random_in_range(low: u32, high: u32) -> (r: u32)
    requires
        low < high,
    ensures
        low <= r < high,
{
    rand::thread_rng().gen_range(low..high)
}

/// Relies on rand's `Rng::gen_ratio` on `rand::thread_rng()`: true with chance
/// `numerator / denominator`; always false for a zero numerator and always true
/// when numerator and denominator are equal; it panics for a zero denominator
/// or a numerator above the denominator.
#[verifier::external_body]
pub(crate) fn random_ratio(numerator: u32, denominator: u32) -> (r: bool)
    requires
        0 < denominator,
        numerator <= denominator,
    ensures
        numerator == 0 ==> !r,
        numerator == denominator ==> r,
{
    rand::thread_rng().gen_ratio(numerator, denominator)
}

} // verus!
