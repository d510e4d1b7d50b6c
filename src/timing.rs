//! Elapsed time on the monitor's clock, in milliseconds.
use vstd::prelude::*;

verus! {

/// Time from `since` to `now`, zero if the clock reads earlier.
pub open spec fn elapsed_ms(since: u64, now: u64) -> u64 {
    if now >= since {
        (now - since) as u64
    } else {
        0
    }
}

/// Time from `since` to `now`, zero if the clock reads earlier.
pub fn elapsed(since: u64, now: u64) -> (r: u64)
    ensures
        r == elapsed_ms(since, now),
{
    if now >= since {
        now - since
    } else {
        0
    }
}

} // verus!
