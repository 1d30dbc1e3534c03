//! A constant provider: one operation, `get_37`, which takes no arguments
//! and returns the unsigned 32-bit integer 37, every time, unconditionally.

use vstd::prelude::*;

verus! {

/// The one value in the system: the constant that `Get37::get_37` returns.
pub open spec fn spec_get_37() -> u32 {
    37
}

/// Exposes a zero-argument operation that returns the fixed value 37.
pub struct Get37;

impl Get37 {
    /// Returns 37. The operation is pure: it takes no input, touches no
    /// state, and cannot fail.
    pub fn get_37() -> (r: u32)
        ensures
            r == spec_get_37(),
            r == 37,
    {
        37
    }
}

/// Idempotence: however many calls of `get_37` are made, and in whatever
/// order, every result is the same value, 37. Each call's contract gives
/// `spec_get_37()` for its result, so a sequence of results from any number
/// of calls is 37 throughout, with no dependence on call count or history.
pub proof fn lemma_get_37_idempotent(results: Seq<u32>)
    requires
        forall|i: int| 0 <= i < results.len() ==> results[i] == spec_get_37(),
    ensures
        forall|i: int| 0 <= i < results.len() ==> results[i] == 37,
{
}

} // verus!
