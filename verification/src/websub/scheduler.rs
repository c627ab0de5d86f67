//! The time of the next renewal.

use vstd::prelude::*;

use crate::time::{from_secs, instant_from_unix, Clock};
#[allow(unused_imports)]
use crate::time::{instant_at, NANOS_PER_SEC};

verus! {

/// The Unix time of the next tick, in seconds; `u64::MAX` where there is none.
#[derive(Debug)]
pub struct Handle {
    next_tick: u64,
}

/// What a scheduler waits for.
#[derive(Copy, Clone, Debug, PartialEq, Eq, Structural)]
pub enum Wait {
    /// The scheduler has ended.
    Done,
    /// There is no next tick until the handle is told of one.
    Idle,
    /// The next tick is at a reading of the monotonic clock.
    Until(i128),
}

/// Waits for the ticks of a handle. Each tick decides on the next one.
#[derive(Debug)]
pub struct Scheduler {
    delay: Option<i128>,
}

/// The reading of the monotonic clock at a Unix time in seconds.
pub open spec fn tick_instant(clock: Clock, secs: u64) -> int {
    instant_at(clock, secs * NANOS_PER_SEC)
}

/// The tick hastened to a time: the earlier one of the two.
pub open spec fn hastened(tick: Option<u64>, to: u64) -> Option<u64> {
    match tick {
        Some(tick) => if to < tick {
            Some(to)
        } else {
            Some(tick)
        },
        None => if to < u64::MAX {
            Some(to)
        } else {
            None
        },
    }
}

impl Handle {
    /// The Unix time of the next tick.
    pub closed spec fn tick(&self) -> Option<u64> {
        if self.next_tick == u64::MAX {
            None
        } else {
            Some(self.next_tick)
        }
    }

    /// The first tick; the last moment that can be represented stands for none.
    pub fn new(first_tick: Option<u64>) -> (r: Self)
        ensures
            r.tick() == (if first_tick == Some(u64::MAX) {
                None
            } else {
                first_tick
            }),
    {
        Handle {
            next_tick: match first_tick {
                Some(first_tick) => first_tick,
                None => u64::MAX,
            },
        }
    }

    /// Hastens the next tick to the specified time, and tells whether the scheduler is to be woken.
    ///
    /// Does nothing if the current next tick is before the specified time.
    pub fn hasten(&mut self, next_tick: u64) -> (wake: bool)
        ensures
            final(self).tick() == hastened(old(self).tick(), next_tick),
            wake <==> final(self).tick() != old(self).tick(),
    {
        let prev: u64 = self.next_tick;
        if next_tick < prev {
            self.next_tick = next_tick;
            true
        } else {
            false
        }
    }

    /// Returns the reading of the monotonic clock at the next tick.
    pub fn decode_next_tick(&self, clock: &Clock) -> (r: Option<i128>)
        requires
            clock.wf(),
        ensures
            match self.tick() {
                Some(tick) => r matches Some(instant) && instant == tick_instant(*clock, tick),
                None => r is None,
            },
    {
        if self.next_tick == u64::MAX {
            None
        } else {
            Some(instant_from_unix(clock, from_secs(self.next_tick)))
        }
    }
}

/// The moment that a scheduler waits for: the earlier one of that which it waits for already and
/// the next tick of its handle.
pub open spec fn earlier(delay: Option<i128>, next: Option<int>) -> Option<int> {
    match (delay, next) {
        (Some(delay), Some(next)) => if next < delay {
            Some(next)
        } else {
            Some(delay as int)
        },
        (Some(delay), None) => Some(delay as int),
        (None, next) => next,
    }
}

/// The moment of the next tick of a handle.
pub open spec fn handle_instant(handle: Handle, clock: Clock) -> Option<int> {
    match handle.tick() {
        Some(tick) => Some(tick_instant(clock, tick)),
        None => None,
    }
}

/// The value of an optional moment.
pub open spec fn opt_int(v: Option<i128>) -> Option<int> {
    match v {
        Some(v) => Some(v as int),
        None => None,
    }
}

impl Scheduler {
    /// The moment that the scheduler waits for.
    pub closed spec fn deadline(&self) -> Option<i128> {
        self.delay
    }

    /// Waits for the first tick of a handle.
    pub fn new(handle: &Handle, clock: &Clock) -> (r: Self)
        requires
            clock.wf(),
        ensures
            opt_int(r.deadline()) == handle_instant(*handle, *clock),
    {
        Scheduler { delay: handle.decode_next_tick(clock) }
    }

    /// Returns what the scheduler waits for. It has ended where its handle is gone.
    pub fn poll(&mut self, handle: Option<&Handle>, clock: &Clock) -> (r: Wait)
        requires
            clock.wf(),
        ensures
            match handle {
                None => r == Wait::Done && final(self).deadline() == old(self).deadline(),
                Some(handle) => {
                    &&& opt_int(final(self).deadline()) == earlier(
                        old(self).deadline(),
                        handle_instant(*handle, *clock),
                    )
                    &&& r == match final(self).deadline() {
                        Some(deadline) => Wait::Until(deadline),
                        None => Wait::Idle,
                    }
                },
            },
    {
        let handle = match handle {
            Some(handle) => handle,
            None => return Wait::Done,
        };
        let next_tick = handle.decode_next_tick(clock);
        match (self.delay, next_tick) {
            (Some(delay), Some(next_tick)) => {
                if next_tick < delay {
                    self.delay = Some(next_tick);
                }
            },
            (Some(_), None) => {},
            (None, next_tick) => {
                self.delay = next_tick;
            },
        }
        match self.delay {
            Some(delay) => Wait::Until(delay),
            None => Wait::Idle,
        }
    }

    /// Takes the time of the tick after the one that has come.
    pub fn tick(&mut self, handle: &mut Handle, next_tick: Option<u64>, clock: &Clock)
        requires
            clock.wf(),
        ensures
            match next_tick {
                Some(next_tick) => {
                    &&& final(handle).tick() == (if next_tick == u64::MAX {
                        None
                    } else {
                        Some(next_tick)
                    })
                    &&& final(self).deadline() matches Some(deadline)
                    &&& deadline == tick_instant(*clock, next_tick)
                },
                None => final(handle).tick() is None && final(self).deadline() is None,
            },
    {
        match next_tick {
            Some(next_tick) => {
                handle.next_tick = next_tick;
                self.delay = Some(instant_from_unix(clock, from_secs(next_tick)));
            },
            None => {
                handle.next_tick = u64::MAX;
                self.delay = None;
            },
        }
    }
}

/// Hastening never makes a tick later.
pub proof fn hastening_never_delays(tick: Option<u64>, to: u64)
    requires
        to != u64::MAX,
    ensures
        hastened(tick, to) matches Some(r) && r <= to,
        tick matches Some(t) ==> hastened(tick, to)->0 <= t,
        hastened(tick, to) == Some(to) || hastened(tick, to) == tick,
{
}

/// It does not matter in which order a tick is hastened to two times, nor how often.
pub proof fn hastening_commutes(tick: Option<u64>, a: u64, b: u64)
    ensures
        hastened(hastened(tick, a), b) == hastened(hastened(tick, b), a),
        hastened(hastened(tick, a), a) == hastened(tick, a),
{
}

/// A tick is hastened to a time exactly where there is none, or only a later one. At the end of time
/// there is none.
pub proof fn ticks_are_hastened_to_earlier_times(tick: Option<u64>, to: u64)
    ensures
        tick is None && to != u64::MAX ==> hastened(tick, to) == Some(to),
        hastened(None, u64::MAX) is None,
        tick matches Some(t) ==> to <= t ==> hastened(tick, to) == Some(to),
        tick matches Some(t) ==> t <= to ==> hastened(tick, to) == Some(t),
{
}

/// A scheduler waits for the earlier one of two moments, and for the only one where there is one.
pub proof fn earlier_moments_come_first(delay: Option<i128>, next: Option<int>)
    ensures
        delay is None ==> earlier(delay, next) == next,
        delay is Some && next is None ==> earlier(delay, next) == opt_int(delay),
        delay is Some && next is Some ==> {
            let r = earlier(delay, next);
            &&& r matches Some(moment)
            &&& moment <= delay->0 && moment <= next->0
            &&& moment == delay->0 || moment == next->0
        },
{
}

/// A tick is at the moment at which the system clock will show its time: as many seconds from now as
/// that lies ahead.
pub proof fn ticks_are_at_their_time(handle: Handle, clock: Clock)
    ensures
        handle.tick() is None ==> handle_instant(handle, clock) is None,
        handle.tick() matches Some(tick) ==> {
            &&& handle_instant(handle, clock) matches Some(moment)
            &&& moment - clock.instant == tick * 1_000_000_000 - clock.unix
        },
{
}

} // verus!
