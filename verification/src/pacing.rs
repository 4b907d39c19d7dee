//! An optional minimum-interval policy between requests, honouring the
//! remote service's wish for conservative request volume.  The caller
//! supplies the clock readings; the policy only decides how long to
//! wait.

use vstd::prelude::*;

verus! {

/// The milliseconds still to wait before the next request may go out:
/// zero when no request was sent yet or the interval has passed, the
/// remainder of the interval otherwise.  A clock that ran backwards
/// counts as no time elapsed, so the full interval is waited.
pub open spec fn spec_wait(min_interval: u64, last: Option<u64>, now: u64) -> u64 {
    match last {
        None => 0u64,
        Some(l) => if now < l {
            min_interval
        } else if now - l >= min_interval {
            0u64
        } else {
            (min_interval - (now - l)) as u64
        },
    }
}

/// Computes the wait the policy asks for, from the time of the last
/// request and the time now, both in milliseconds of one caller-chosen
/// clock.
pub fn wait_before_request(min_interval: u64, last: Option<u64>, now: u64) -> (r: u64)
    ensures
        r == spec_wait(min_interval, last, now),
{
    match last {
        None => 0,
        Some(l) => {
            if now < l {
                min_interval
            } else if now - l >= min_interval {
                0
            } else {
                min_interval - (now - l)
            }
        },
    }
}

} // verus!
