//! Ticks at a regular interval, which can be held up.

use vstd::prelude::*;

use crate::time::{from_secs, instant_from_unix, Clock};
#[allow(unused_imports)]
use crate::time::{instant_at, NANOS_PER_SEC};

verus! {

/// Controls an interval.
#[derive(Debug)]
pub struct Handle {
    period: u128,
    /// The Unix time until which the interval waits, in seconds; zero where it is not held up.
    next_tick: u64,
}

/// Ticks at a regular interval, controlled by a handle.
#[derive(Debug)]
pub struct Interval {
    deadline: i128,
}

/// What an interval waits for.
#[derive(Copy, Clone, Debug, PartialEq, Eq, Structural)]
pub enum Wait {
    /// The interval has ended.
    Done,
    /// The next tick is at a reading of the monotonic clock.
    Until(i128),
}

/// The later one of two numbers.
pub open spec fn later(a: int, b: int) -> int {
    if a < b {
        b
    } else {
        a
    }
}

impl Handle {
    /// The time between two ticks, in nanoseconds.
    pub closed spec fn period(&self) -> u128 {
        self.period
    }

    /// The Unix time until which the interval is held up; zero where it is not.
    pub closed spec fn delayed_until(&self) -> u64 {
        self.next_tick
    }

    /// Makes the handle of an interval that is not held up.
    pub fn new(period: u128) -> (r: Self)
        ensures
            r.period() == period,
            r.delayed_until() == 0,
    {
        Handle { period, next_tick: 0 }
    }

    /// Delays the next tick of the associated interval to the specified time.
    ///
    /// Does nothing if the current next tick is after the specified time.
    pub fn delay(&mut self, after: u64)
        ensures
            final(self).period() == old(self).period(),
            final(self).delayed_until() == later(old(self).delayed_until() as int, after as int),
    {
        if self.next_tick < after {
            self.next_tick = after;
        }
    }

    /// Takes the time until which the interval is held up, as a reading of the monotonic clock.
    fn decode_next_tick(&mut self, clock: &Clock) -> (r: Option<i128>)
        requires
            clock.wf(),
        ensures
            final(self).period() == old(self).period(),
            final(self).delayed_until() == 0,
            if old(self).delayed_until() == 0 {
                r is None
            } else {
                r matches Some(instant) && instant == instant_at(
                    *clock,
                    old(self).delayed_until() * NANOS_PER_SEC,
                )
            },
    {
        let next_tick: u64 = self.next_tick;
        self.next_tick = 0;
        if next_tick != 0 {
            Some(instant_from_unix(clock, from_secs(next_tick)))
        } else {
            None
        }
    }
}

impl Interval {
    /// The moment of the next tick.
    pub closed spec fn deadline(&self) -> i128 {
        self.deadline
    }

    /// Makes an interval that ticks at once.
    pub fn new(clock: &Clock) -> (r: Self)
        ensures
            r.deadline() == clock.instant,
    {
        Interval::at(clock.instant)
    }

    /// Makes an interval that ticks first at a moment.
    pub fn at(at: i128) -> (r: Self)
        ensures
            r.deadline() == at,
    {
        Interval { deadline: at }
    }

    /// Returns what the interval waits for, once it was held up as its handle says. It has ended
    /// where its handle is gone.
    pub fn poll_next(&mut self, handle: Option<&mut Handle>, clock: &Clock) -> (r: Wait)
        requires
            clock.wf(),
        ensures
            match handle {
                None => r == Wait::Done && final(self).deadline() == old(self).deadline(),
                Some(handle) => {
                    &&& r == Wait::Until(final(self).deadline())
                    &&& final(handle).period() == handle.period()
                    &&& final(handle).delayed_until() == 0
                    &&& final(self).deadline() == (if handle.delayed_until() == 0 {
                        old(self).deadline() as int
                    } else {
                        later(
                            old(self).deadline() as int,
                            instant_at(*clock, handle.delayed_until() * NANOS_PER_SEC),
                        )
                    })
                },
            },
    {
        match handle {
            Some(handle) => {
                if let Some(next_tick) = handle.decode_next_tick(clock) {
                    if self.deadline < next_tick {
                        self.deadline = next_tick;
                    }
                }
                Wait::Until(self.deadline)
            },
            None => Wait::Done,
        }
    }

    /// Tells whether the moment of the next tick has passed.
    pub fn is_due(&self, now: i128) -> (r: bool)
        ensures
            r == (self.deadline() < now),
    {
        self.deadline < now
    }

    /// Sets the moment of the tick after the one that has come: a period later, or now where that
    /// has passed already.
    pub fn tick(&mut self, handle: &Handle, now: i128)
        requires
            old(self).deadline() + handle.period() <= i128::MAX,
        ensures
            final(self).deadline() == later(
                old(self).deadline() + handle.period(),
                now as int,
            ),
    {
        let period: u128 = handle.period;
        let next_tick: i128 = if self.deadline >= 0 {
            self.deadline + period as i128
        } else {
            let behind: u128 = (-(self.deadline + 1)) as u128 + 1;
            if period >= behind {
                (period - behind) as i128
            } else {
                -((behind - period - 1) as i128) - 1
            }
        };
        self.deadline = if next_tick < now {
            now
        } else {
            next_tick
        };
    }
}

/// However late a tick comes, the moment of the next one is not in the past and no more than a period
/// away. Where whole periods were missed it is now, so that a single tick makes up for all of them:
/// the one that follows is a period away again.
pub proof fn missed_ticks_are_skipped(deadline: int, period: int, now: int, then: int)
    requires
        period > 0,
        deadline <= now <= then,
    ensures
        now <= later(deadline + period, now) <= now + period,
        deadline + period <= now ==> later(deadline + period, now) == now,
        now + period <= later(later(deadline + period, now) + period, then),
{
}

/// The later one of two moments is one of them and not before either.
pub proof fn later_is_the_greater_one(a: int, b: int)
    ensures
        later(a, b) == a || later(a, b) == b,
        later(a, b) >= a,
        later(a, b) >= b,
{
}

} // verus!
