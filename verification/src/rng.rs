//! The single entry point to the process-wide random number generator.
//! Nothing is assumed of a random draw beyond its range.

use vstd::prelude::*;
use rand::Rng;

verus! {

/// Relies on rand::thread_rng and rand::Rng::gen_range on an inclusive
/// range, which panics only on an empty range and returns a value from the
/// range: the draw lies in [lo, hi]. Nothing more is assumed of it.
#[verifier::external_body]
pub(crate) fn sample_uniform(lo: i32, hi: i32) -> (r: i32)
    requires
        lo <= hi,
    ensures
        lo <= r <= hi,
{
    rand::thread_rng().gen_range(lo..=hi)
}

} // verus!
