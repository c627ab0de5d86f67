//! Renewal of the subscriptions before they expire, by the time at which the first one expires.

use vstd::prelude::*;

#[allow(unused_imports)]
use super::scheduler::{earlier, opt_int};
use super::scheduler::Wait;
use crate::time::{from_secs, Clock};
#[allow(unused_imports)]
use crate::time::{instant_at, NANOS_PER_SEC, TIME_MAX};

verus! {

/// The Unix time at which the first subscription expires, in seconds; `i64::MAX` where none does.
#[derive(Debug)]
pub struct Expiry {
    expires_at: i64,
}

/// Waits for the times at which subscriptions are to be renewed.
#[derive(Debug)]
pub struct Renewer {
    timer: Option<i128>,
    /// The time before its expiry at which a subscription is renewed, in nanoseconds.
    margin: u128,
}

/// The reading of the monotonic clock at which a subscription is to be renewed.
pub open spec fn refresh_instant(clock: Clock, expires_at: i64, margin: u128) -> int {
    instant_at(clock, expires_at * NANOS_PER_SEC) - margin
}

/// The moment at which the first subscription is to be renewed.
pub open spec fn expiry_instant(expiry: Expiry, clock: Clock, margin: u128) -> Option<int> {
    match expiry.time() {
        Some(time) => Some(refresh_instant(clock, time, margin)),
        None => None,
    }
}

/// Converts a Unix time in seconds, which may lie before the epoch, to a reading of the monotonic
/// clock.
pub fn instant_from_epoch(clock: &Clock, secs: i64) -> (r: i128)
    requires
        clock.wf(),
    ensures
        r == instant_at(*clock, secs * NANOS_PER_SEC),
{
    let nanos: i128 = secs as i128 * 1_000_000_000;
    clock.instant + (nanos - clock.unix as i128)
}

/// Returns the reading of the monotonic clock at which a subscription is to be renewed.
fn refresh_time(clock: &Clock, expires_at: i64, margin: u128) -> (r: i128)
    requires
        clock.wf(),
        margin <= TIME_MAX,
    ensures
        r == refresh_instant(*clock, expires_at, margin),
{
    instant_from_epoch(clock, expires_at) - margin as i128
}

impl Expiry {
    /// The Unix time at which the first subscription expires.
    pub closed spec fn time(&self) -> Option<i64> {
        if self.expires_at == i64::MAX {
            None
        } else {
            Some(self.expires_at)
        }
    }

    /// The first expiry; the last moment that can be represented stands for none.
    pub fn new(expires_at: Option<i64>) -> (r: Self)
        ensures
            r.time() == (if expires_at == Some(i64::MAX) {
                None
            } else {
                expires_at
            }),
    {
        Expiry {
            expires_at: match expires_at {
                Some(time) => time,
                None => i64::MAX,
            },
        }
    }

    /// Returns the Unix time at which the first subscription expires.
    pub fn decode_expires_at(&self) -> (r: Option<i64>)
        ensures
            r == self.time(),
    {
        if self.expires_at == i64::MAX {
            None
        } else {
            Some(self.expires_at)
        }
    }
}

impl Renewer {
    /// The moment that the renewer waits for.
    pub closed spec fn deadline(&self) -> Option<i128> {
        self.timer
    }

    /// The time before its expiry at which a subscription is renewed.
    pub closed spec fn margin(&self) -> u128 {
        self.margin
    }

    /// Tells whether the margin is a duration that the clocks can represent.
    pub open spec fn wf(&self) -> bool {
        self.margin() <= TIME_MAX
    }

    /// Waits for the first renewal, with a margin in seconds.
    pub fn new(expiry: &Expiry, margin: u64, clock: &Clock) -> (r: Self)
        requires
            clock.wf(),
        ensures
            r.wf(),
            r.margin() == margin * NANOS_PER_SEC,
            opt_int(r.deadline()) == expiry_instant(*expiry, *clock, r.margin()),
    {
        let margin: u128 = from_secs(margin);
        let timer = match expiry.decode_expires_at() {
            Some(time) => Some(refresh_time(clock, time, margin)),
            None => None,
        };
        Renewer { timer, margin }
    }

    /// Returns what the renewer waits for. It has ended where the service is gone.
    pub fn poll(&mut self, expiry: Option<&Expiry>, clock: &Clock) -> (r: Wait)
        requires
            old(self).wf(),
            clock.wf(),
        ensures
            final(self).wf(),
            final(self).margin() == old(self).margin(),
            match expiry {
                None => r == Wait::Done && final(self).deadline() == old(self).deadline(),
                Some(expiry) => {
                    &&& opt_int(final(self).deadline()) == earlier(
                        old(self).deadline(),
                        expiry_instant(*expiry, *clock, old(self).margin()),
                    )
                    &&& r == match final(self).deadline() {
                        Some(deadline) => Wait::Until(deadline),
                        None => Wait::Idle,
                    }
                },
            },
    {
        let expiry = match expiry {
            Some(expiry) => expiry,
            None => return Wait::Done,
        };
        match expiry.decode_expires_at() {
            Some(time) => {
                let refresh_at = refresh_time(clock, time, self.margin);
                match self.timer {
                    Some(timer) => {
                        if refresh_at < timer {
                            self.timer = Some(refresh_at);
                        }
                    },
                    None => {
                        self.timer = Some(refresh_at);
                    },
                }
            },
            None => {},
        }
        match self.timer {
            Some(timer) => Wait::Until(timer),
            None => Wait::Idle,
        }
    }

    /// Takes the time at which the first one of the subscriptions expires that are not being
    /// renewed, after the others have been, and returns what the renewer waits for next.
    pub fn renewed(&mut self, expiry: &mut Expiry, next: Option<i64>, clock: &Clock) -> (r: Wait)
        requires
            old(self).wf(),
            clock.wf(),
        ensures
            final(self).wf(),
            final(self).margin() == old(self).margin(),
            final(expiry).time() == (if next == Some(i64::MAX) {
                None
            } else {
                next
            }),
            match next {
                Some(time) => {
                    &&& r matches Wait::Until(deadline)
                    &&& deadline == refresh_instant(*clock, time, old(self).margin())
                    &&& final(self).deadline() == Some(deadline)
                },
                None => r == Wait::Idle && final(self).deadline() is None,
            },
    {
        match next {
            Some(time) => {
                expiry.expires_at = time;
                self.timer = Some(refresh_time(clock, time, self.margin));
            },
            None => {
                expiry.expires_at = i64::MAX;
                self.timer = None;
            },
        }
        self.poll(Some(&*expiry), clock)
    }
}

/// A renewal is due a margin before the moment at which the system clock will show the time of expiry.
pub proof fn renewals_are_due_before_the_expiry(expiry: Expiry, clock: Clock, margin: u128)
    ensures
        expiry.time() is None ==> expiry_instant(expiry, clock, margin) is None,
        expiry.time() matches Some(time) ==> {
            &&& expiry_instant(expiry, clock, margin) matches Some(moment)
            &&& moment + margin - clock.instant == time * 1_000_000_000 - clock.unix
        },
{
}

} // verus!
