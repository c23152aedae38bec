//! The single point where randomness enters the simulation.

use vstd::prelude::*;

verus! {

/// Relies on `rand::random`: an independent draw of a `u64` from the thread's
/// generator. Nothing is promised of the value; every caller must cope with
/// every outcome.
#[verifier::external_body]
pub(crate) fn random_u64() -> u64 {
    rand::random::<u64>()
}

} // verus!
