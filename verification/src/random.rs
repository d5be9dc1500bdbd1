//! The one place the library draws randomness from.

use vstd::prelude::*;

verus! {

/// Relies on `rand::Rng::gen_range` on `rand::thread_rng()`: a value
/// uniformly drawn from `lo..hi`. It panics only on an empty range,
/// which the precondition rules out; nothing more than the range can
/// be promised of a random draw.
#[verifier::external_body]
pub(crate) fn sample_range(lo: u64, hi: u64) -> (r: u64)
    requires
        lo < hi,
    ensures
        lo <= r < hi,
{
    rand::Rng::gen_range(&mut rand::thread_rng(), lo..hi)
}

} // verus!
