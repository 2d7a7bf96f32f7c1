//! Counters: every count of this library is held in thirty-two bits, and a count
//! that would pass the largest value stays there.

use vstd::prelude::*;

verus! {

/// Largest value that a counter holds; additions stop here.
pub const COUNTER_MAX: u32 = 0xFFFF_FFFF;

/// The sum of two counts, stopped at `COUNTER_MAX`.
pub open spec fn capped_sum(a: nat, b: nat) -> nat {
    if a + b > COUNTER_MAX {
        COUNTER_MAX as nat
    } else {
        a + b
    }
}

} // verus!
