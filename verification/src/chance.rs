//! The source of the numbers by which the food is placed.

use vstd::prelude::*;

verus! {

/// Draws a number with `rand::random::<usize>`, which asks the thread's
/// generator for one. Nothing is claimed of the number drawn: any `usize`
/// may come back, and two draws need not agree.
#[verifier::external_body]
pub(crate) fn draw() -> (number: usize) {
    rand::random::<usize>()
}

} // verus!
