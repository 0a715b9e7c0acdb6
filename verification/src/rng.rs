//! The randomness source for the opening serve direction.

use vstd::prelude::*;

verus! {

/// Relies on rand::random::<bool>: one draw from the thread-local generator.
/// Nothing is promised of the outcome; callers state what holds either way.
#[verifier::external_body]
pub(crate) fn coin_flip() -> bool {
    rand::random()
}

} // verus!
