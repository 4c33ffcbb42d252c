//! The source of randomness for picking animation frames.

use rand::Rng;
use vstd::prelude::*;

verus! {

/// `rand::Rng::gen_range` on `rand::thread_rng()`, with the half-open
/// range `0..bound`: some value of that range, which differs from call to
/// call. The range must not be empty, or the call panics; it panics too
/// where the system has no randomness to start the generator with.
#[verifier::external_body]
pub(crate) fn random_below(bound: usize) -> (r: usize)
    requires
        bound > 0,
    ensures
        r < bound,
{
    rand::thread_rng().gen_range(0..bound)
}

} // verus!
