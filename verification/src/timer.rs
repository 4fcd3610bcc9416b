//! A timer that tells whether a duration has passed since it was started.
//!
//! The timer reads no clock. Whoever owns the clock hands in the present time,
//! in milliseconds on any monotonic scale, with each call.

use vstd::prelude::*;

verus! {

/// A timer with a duration and the instant of its last start, in milliseconds.
#[derive(Clone, Copy, Debug, PartialEq, Eq, Structural)]
pub struct Timer {
    pub duration: u64,
    pub instant: u64,
}

impl Timer {
    /// The time that has passed at `now` since the last start; none if `now`
    /// lies before it.
    pub open spec fn elapsed(self, now: u64) -> int {
        if now >= self.instant {
            now - self.instant
        } else {
            0
        }
    }

    /// Whether the duration has passed at `now`.
    pub open spec fn expired(self, now: u64) -> bool {
        self.elapsed(now) >= self.duration
    }

    /// Starts a new timer at `now` with the given duration in milliseconds.
    pub fn new(milliseconds: u64, now: u64) -> (r: Timer)
        ensures
            r == (Timer { duration: milliseconds, instant: now }),
    {
        Timer { duration: milliseconds, instant: now }
    }

    /// Starts the timer again at `now`.
    pub fn reset(&mut self, now: u64)
        ensures
            *final(self) == (Timer { instant: now, ..*old(self) }),
    {
        self.instant = now;
    }

    /// Checks whether the timer has expired at `now`. The timer is left as it
    /// is.
    pub fn is_expired(&self, now: u64) -> (r: bool)
        ensures
            r == self.expired(now),
    {
        let elapsed: u64 = if now >= self.instant {
            now - self.instant
        } else {
            0
        };
        elapsed >= self.duration
    }
}

/// A timer started at `start` is expired at a later `now` exactly from
/// `start + duration` on, and a timer of no duration is always expired.
pub proof fn lemma_expiry(timer: Timer, now: u64)
    ensures
        now >= timer.instant ==> (timer.expired(now) <==> now >= timer.instant + timer.duration),
        timer.duration == 0 ==> timer.expired(now),
        now < timer.instant && timer.duration > 0 ==> !timer.expired(now),
{
}

/// Once expired, a timer stays expired until it is started again.
pub proof fn lemma_expiry_is_monotonic(timer: Timer, now: u64, later: u64)
    requires
        now <= later,
        timer.expired(now),
    ensures
        timer.expired(later),
{
}

} // verus!
