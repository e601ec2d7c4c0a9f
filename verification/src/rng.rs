//! The one place where the library draws randomness, behind a single
//! trusted wrapper around the `rand` crate.

use vstd::prelude::*;

verus! {

/// Relies on rand::random_range: the result lies in the given range
/// (here `0..bound`); it panics only on an empty range, which the
/// precondition rules out. Nothing more is assumed of the draw: two
/// calls with the same bound may differ.
#[verifier::external_body]
pub(crate) fn random_below(bound: u32) -> (r: u32)
    requires
        bound > 0,
    ensures
        r < bound,
{
    rand::random_range(0..bound)
}

} // verus!
