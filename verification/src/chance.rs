//! The one source of randomness: which lane, which heading and which sprite
//! a new vehicle gets.

use vstd::prelude::*;
use rand::Rng;

verus! {

/// A number drawn by `rand::thread_rng().gen_range(0..bound)`.
///
/// Not proved, taken from `rand`: for a non-empty range `gen_range` returns a
/// value at or above the lower end and below the upper end. Which value it is
/// differs from call to call, so nothing more is claimed.
#[verifier::external_body]
pub(crate) fn random_below(bound: u32) -> (drawn: u32)
    requires
        bound > 0,
    ensures
        drawn < bound,
{
    rand::thread_rng().gen_range(0..bound)
}

} // verus!
