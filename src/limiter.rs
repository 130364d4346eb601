//! Spacing of outbound commands: no two transmissions closer than
//! [`MIN_TIME_BETWEEN_CMDS`] milliseconds.

use vstd::prelude::*;

verus! {

/// Least gap, in milliseconds, between two transmissions to the device.
pub const MIN_TIME_BETWEEN_CMDS: u128 = 890;

/// How long a sender must wait at time `now` when the previous transmission
/// was recorded at `last` (`None`: nothing sent yet). A clock that went
/// backwards earns the full interval.
pub open spec fn wait_for(last: Option<u128>, now: u128) -> u128 {
    match last {
        None => 0,
        Some(l) => if now < l {
            MIN_TIME_BETWEEN_CMDS
        } else if now - l < MIN_TIME_BETWEEN_CMDS {
            (MIN_TIME_BETWEEN_CMDS - (now - l)) as u128
        } else {
            0
        },
    }
}

/// The time of the last transmission, in milliseconds since the epoch.
///
/// A sender holds the limiter exclusively from [`RateLimiter::wait_time`]
/// through [`RateLimiter::mark_sent`] and its write, so that concurrent
/// senders are serialised.
#[derive(Debug, Clone, Copy, PartialEq, Eq, Structural)]
pub struct RateLimiter {
    pub last_time: Option<u128>,
}

impl RateLimiter {
    /// A limiter for a fresh session: nothing has been sent.
    pub fn new() -> (r: RateLimiter)
        ensures
            r.last_time.is_none(),
    {
        RateLimiter { last_time: None }
    }

    /// Milliseconds to wait, at time `now`, before the next transmission.
    pub fn wait_time(&self, now: u128) -> (r: u128)
        ensures
            r == wait_for(self.last_time, now),
            r <= MIN_TIME_BETWEEN_CMDS,
    {
        match self.last_time {
            None => 0,
            Some(l) => match now.checked_sub(l) {
                None => MIN_TIME_BETWEEN_CMDS,
                Some(waited) => if waited < MIN_TIME_BETWEEN_CMDS {
                    MIN_TIME_BETWEEN_CMDS - waited
                } else {
                    0
                },
            },
        }
    }

    /// Records a transmission at time `now`, just before it is written.
    pub fn mark_sent(&mut self, now: u128)
        ensures
            final(self).last_time == Some(now),
    {
        self.last_time = Some(now);
    }
}

/// A transmission that waits as told, on a clock that has not gone
/// backwards since the last one, comes at least the minimum interval after it.
pub proof fn lemma_spacing(last: u128, now: u128, sent: u128)
    requires
        last <= now,
        sent >= now + wait_for(Some(last), now),
    ensures
        sent >= last + MIN_TIME_BETWEEN_CMDS,
{
}

/// Transmissions made one after another through one limiter are spaced:
/// sender `i` checks at `checks[i]`, no earlier than the previous
/// transmission `sent[i - 1]`, waits as told and transmits at `sent[i]`,
/// which it records. Then every two consecutive transmissions are at least
/// the minimum interval apart, and the first one waited for nothing.
pub proof fn lemma_serialised_senders(checks: Seq<u128>, sent: Seq<u128>)
    requires
        checks.len() == sent.len(),
        forall|i: int| 0 < i < sent.len() ==> sent[i - 1] <= #[trigger] checks[i],
        sent.len() > 0 ==> sent[0] >= checks[0] + wait_for(None, checks[0]),
        forall|i: int|
            0 < i < sent.len() ==> #[trigger] sent[i] >= checks[i] + wait_for(
                Some(sent[i - 1]),
                checks[i],
            ),
    ensures
        sent.len() > 0 ==> wait_for(None, checks[0]) == 0,
        forall|i: int| 0 < i < sent.len() ==> #[trigger] sent[i] >= sent[i - 1] + MIN_TIME_BETWEEN_CMDS,
{
    assert forall|i: int| 0 < i < sent.len() implies #[trigger] sent[i] >= sent[i - 1] + MIN_TIME_BETWEEN_CMDS by {
        lemma_spacing(sent[i - 1], checks[i], sent[i]);
    }
}

} // verus!
