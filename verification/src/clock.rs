//! Instants and spans.
//!
//! An instant is a number of nanoseconds since a fixed start, on a clock that never goes back.

use vstd::prelude::*;

verus! {

/// Nanoseconds in a millisecond.
pub const MILLI: u64 = 1_000_000;

/// Nanoseconds in a second.
pub const SECOND: u64 = 1_000_000_000;

/// Nanoseconds from `since` to `now`, none where `since` lies ahead.
pub open spec fn span(now: u64, since: u64) -> int {
    if now >= since {
        now - since
    } else {
        0
    }
}

/// Nanoseconds from `since` to `now`, none where `since` lies ahead.
pub fn elapsed(now: u64, since: u64) -> (d: u64)
    ensures
        d == span(now, since),
{
    if now >= since {
        now - since
    } else {
        0
    }
}

/// The time from one instant to a later one, added to the first, gives the later one; to an earlier
/// one there is none.
pub proof fn law_elapsed_time(now: u64, since: u64, d: u64)
    requires
        call_ensures(elapsed, (now, since), d),
    ensures
        since <= now ==> since + d == now,
        since > now ==> d == 0,
{
}

} // verus!
