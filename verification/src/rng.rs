//! The injected source of randomness for the spawn director.

use vstd::prelude::*;
use rand::Rng;

verus! {

/// Relies on `rand::Rng::gen_range` over an inclusive integer range: the
/// sample always lies between the two bounds. `rand` panics on an empty
/// range, which the precondition rules out. Nothing more is assumed: every
/// caller's contract holds for every value between the bounds.
#[verifier::external_body]
pub(crate) fn rand_range(lo: u64, hi: u64) -> (r: u64)
    requires
        lo <= hi,
    ensures
        lo <= r <= hi,
{
    rand::thread_rng().gen_range(lo..=hi)
}

} // verus!
