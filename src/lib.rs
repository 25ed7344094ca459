//! Bulk character-encoding conversion: deciding which encoding a byte buffer
//! is in (signature, statistical guess, configured fallbacks), decoding it and
//! re-encoding the text in a target encoding without silent loss.

use vstd::prelude::*;

pub mod charset;
pub mod pipeline;
pub mod laws;

verus! {

/// The sum of two counters; the caller keeps it within `u64`.
pub fn add(left: u64, right: u64) -> (r: u64)
    requires
        left + right <= u64::MAX,
    ensures
        r == left + right,
{
    left + right
}

} // verus!
