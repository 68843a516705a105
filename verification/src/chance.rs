//! The one source of randomness in the simulation.

use vstd::prelude::*;

verus! {

/// A fair coin, taken from `rand::random::<bool>()`: one sample of the
/// standard distribution from the thread-local generator that the operating
/// system seeds.
///
/// Nothing is claimed about the outcome. Two calls may differ, and every
/// caller is verified for both values. The generator panics if the operating
/// system cannot seed it.
#[verifier::external_body]
pub(crate) fn coin_flip() -> bool {
    rand::random::<bool>()
}

} // verus!
