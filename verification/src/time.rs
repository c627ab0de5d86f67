//! Readings of the clocks, in nanoseconds.

use vstd::prelude::*;

verus! {

/// The number of nanoseconds in a second.
pub const NANOS_PER_SEC: u128 = 1_000_000_000;

/// A bound on every reading and duration, beyond what the clocks can represent.
pub const TIME_MAX: i128 = 0x1_0000_0000_0000_0000_0000_0000;

/// Readings of the monotonic clock and of the system clock at one moment.
#[derive(Copy, Clone, Debug)]
pub struct Clock {
    /// The monotonic clock, from an origin of its own.
    pub instant: i128,
    /// The time that has passed since the Unix epoch.
    pub unix: u128,
}

impl Clock {
    /// Tells whether the readings are within what the clocks can represent.
    pub open spec fn wf(&self) -> bool {
        &&& -TIME_MAX <= self.instant <= TIME_MAX
        &&& self.unix <= TIME_MAX
    }
}

/// The reading of the monotonic clock at a Unix time.
pub open spec fn instant_at(clock: Clock, unix: int) -> int {
    clock.instant + (unix - clock.unix)
}

/// Converts a Unix time to a reading of the monotonic clock.
pub fn instant_from_unix(clock: &Clock, unix: u128) -> (r: i128)
    requires
        clock.wf(),
        unix <= TIME_MAX,
    ensures
        r == instant_at(*clock, unix as int),
{
    if clock.unix < unix {
        clock.instant + (unix - clock.unix) as i128
    } else {
        clock.instant - (clock.unix - unix) as i128
    }
}

/// Returns the Unix time of a reading of the system clock, given as its distance from the epoch.
pub fn now_unix(system_time: i128) -> (r: u128)
    requires
        system_time >= 0,
    ensures
        r == system_time,
{
    system_time as u128
}

/// Returns the duration of a number of seconds.
pub fn from_secs(secs: u64) -> (r: u128)
    ensures
        r == secs * NANOS_PER_SEC,
        r <= TIME_MAX,
{
    secs as u128 * NANOS_PER_SEC
}

/// Returns the number of whole seconds of a duration.
pub fn as_secs(nanos: u128) -> (r: u128)
    ensures
        r == nanos / NANOS_PER_SEC,
{
    nanos / NANOS_PER_SEC
}

/// The monotonic clock shows its current reading at the current time, and advances with the time.
pub proof fn clocks_advance_together(clock: Clock, unix: int, by: int)
    ensures
        instant_at(clock, clock.unix as int) == clock.instant,
        instant_at(clock, unix + by) == instant_at(clock, unix) + by,
{
}

} // verus!
