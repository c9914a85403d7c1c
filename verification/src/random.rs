//! Random numbers drawn from the thread-local generator of `rand`.

use vstd::prelude::*;

verus! {

/// Calls `rand::random::<u32>()`.  The value depends on the generator's state,
/// so nothing is promised of it: any `u32` may come back.
#[verifier::external_body]
pub(crate) fn random_u32() -> u32 {
    rand::random::<u32>()
}

/// Calls `rand::random::<usize>()`.  The value depends on the generator's state,
/// so nothing is promised of it: any `usize` may come back.
#[verifier::external_body]
pub(crate) fn random_usize() -> usize {
    rand::random::<usize>()
}

} // verus!
