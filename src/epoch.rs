//! Cancellation by generation counter: a download captures the epoch that is
//! current when it starts, and is stale once the current epoch differs.

use vstd::prelude::*;

verus! {

/// Whether a download that captured `epoch` has been cancelled, given the
/// epoch that is current now.
pub fn is_cancelled(current: u64, epoch: u64) -> (r: bool)
    ensures
        r == (current != epoch),
{
    current != epoch
}

} // verus!
