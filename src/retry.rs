//! Back-off for rescheduling a price fetch that found no new data.

use vstd::prelude::*;

verus! {

/// A scheduled retry: how many attempts have been made, and when (seconds since
/// 1970) the next one runs.
#[derive(Clone, Copy, Debug, PartialEq, Eq, Structural)]
pub struct MessageBody {
    pub retry_attempt: u16,
    pub retry_time: i64,
}

/// Attempts beyond this many are not scheduled.
pub const MAX_RETRY_ATTEMPTS: u16 = 5;

/// Minutes to wait after attempt `attempt`.
pub open spec fn retry_delay_minutes(attempt: int) -> int {
    if attempt == 1 || attempt == 2 {
        5
    } else if attempt == 3 {
        10
    } else {
        20
    }
}

/// Seconds to wait after attempt `retry_attempt`.
pub fn calculate_retry_delay(retry_attempt: u16) -> (r: i64)
    ensures
        r == 60 * retry_delay_minutes(retry_attempt as int),
{
    match retry_attempt {
        1 => 5 * 60,
        2 => 5 * 60,
        3 => 10 * 60,
        4 => 20 * 60,
        _ => 20 * 60,
    }
}

/// The retry to schedule at `now`: the first one, five minutes from now, when
/// there was no previous message; otherwise the next attempt after the previous
/// attempt's delay.
pub fn get_new_message(previous: Option<MessageBody>, now: i64) -> (r: MessageBody)
    requires
        previous matches Some(m) ==> m.retry_attempt < u16::MAX,
        now <= i64::MAX - 1200,
    ensures
        previous is None ==> r.retry_attempt == 1 && r.retry_time == now + 300,
        previous matches Some(m) ==> r.retry_attempt == m.retry_attempt + 1 && r.retry_time == now
            + 60 * retry_delay_minutes(m.retry_attempt as int),
{
    match previous {
        Some(m) => MessageBody {
            retry_attempt: m.retry_attempt + 1,
            retry_time: now + calculate_retry_delay(m.retry_attempt),
        },
        None => MessageBody { retry_attempt: 1, retry_time: now + 5 * 60 },
    }
}

impl MessageBody {
    /// The attempt is past the last one that may be scheduled.
    pub fn retries_exhausted(&self) -> (r: bool)
        ensures
            r == (self.retry_attempt > MAX_RETRY_ATTEMPTS),
    {
        self.retry_attempt > MAX_RETRY_ATTEMPTS
    }
}

} // verus!
