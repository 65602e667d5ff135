//! Plain-value model of instants and durations.
//!
//! An `Instant` is a point in time at or after the Unix epoch, stored as
//! whole seconds plus a sub-second nanosecond count; a `Duration` is a
//! non-negative span stored the same way. Both are well formed when the
//! nanosecond part is below one second.

use vstd::prelude::*;

verus! {

/// Number of nanoseconds in one second.
pub const NANOS_PER_SEC: u32 = 1_000_000_000;

/// A non-negative span of time: whole seconds plus a sub-second remainder.
#[derive(Clone, Copy, PartialEq, Eq, Structural, Debug)]
pub struct Duration {
    pub secs: u64,
    pub nanos: u32,
}

/// A point in time at or after the Unix epoch, as the span since the epoch.
#[derive(Clone, Copy, PartialEq, Eq, Structural, Debug)]
pub struct Instant {
    pub secs: u64,
    pub nanos: u32,
}

/// The two ways a clock computation can fail.
#[derive(Clone, Copy, PartialEq, Eq, Structural, Debug)]
pub enum TimeError {
    /// Comparing two readings failed: the clock reported the start as later
    /// than the current time.
    ClockComparisonFailure,
    /// Subtracting a span would leave the representable time range, which
    /// starts at the epoch.
    TimeRangeUnderflow,
}

impl Duration {
    /// The nanosecond part stays below one second.
    pub open spec fn wf(self) -> bool {
        self.nanos < NANOS_PER_SEC
    }

    /// The whole span in nanoseconds.
    pub open spec fn as_nanos(self) -> int {
        self.secs * (NANOS_PER_SEC as int) + self.nanos
    }

    pub fn new(secs: u64, nanos: u32) -> (d: Duration)
        requires
            nanos < NANOS_PER_SEC,
        ensures
            d.wf(),
            d.secs == secs,
            d.nanos == nanos,
    {
        Duration { secs, nanos }
    }

    pub fn from_secs(secs: u64) -> (d: Duration)
        ensures
            d.wf(),
            d.secs == secs,
            d.nanos == 0,
            d.as_nanos() == secs * (NANOS_PER_SEC as int),
    {
        Duration { secs, nanos: 0 }
    }

    /// The span in whole seconds, the sub-second remainder dropped.
    pub fn as_secs(&self) -> (s: u64)
        ensures
            s == self.secs,
    {
        self.secs
    }

    pub fn is_zero(&self) -> (z: bool)
        requires
            self.wf(),
        ensures
            z == (self.as_nanos() == 0),
    {
        self.secs == 0 && self.nanos == 0
    }
}

impl Instant {
    /// The nanosecond part stays below one second.
    pub open spec fn wf(self) -> bool {
        self.nanos < NANOS_PER_SEC
    }

    /// The span since the epoch, in nanoseconds.
    pub open spec fn since_epoch_nanos(self) -> int {
        self.secs * (NANOS_PER_SEC as int) + self.nanos
    }

    pub fn new(secs: u64, nanos: u32) -> (t: Instant)
        requires
            nanos < NANOS_PER_SEC,
        ensures
            t.wf(),
            t.secs == secs,
            t.nanos == nanos,
    {
        Instant { secs, nanos }
    }

    /// The fixed reference instant: 1970-01-01T00:00:00Z.
    pub fn epoch() -> (t: Instant)
        ensures
            t.wf(),
            t.secs == 0,
            t.nanos == 0,
            t.since_epoch_nanos() == 0,
    {
        Instant { secs: 0, nanos: 0 }
    }

    /// The span from `earlier` to `self`, defined only when `earlier` is not
    /// later than `self`; otherwise the comparison fails.
    pub fn duration_since(&self, earlier: &Instant) -> (r: Result<Duration, TimeError>)
        requires
            self.wf(),
            earlier.wf(),
        ensures
            r is Ok <==> earlier.since_epoch_nanos() <= self.since_epoch_nanos(),
            (r matches Ok(d) ==> d.wf() && d.as_nanos() == self.since_epoch_nanos()
                - earlier.since_epoch_nanos()),
            (r matches Err(e) ==> e == TimeError::ClockComparisonFailure),
    {
        if self.secs > earlier.secs || (self.secs == earlier.secs && self.nanos >= earlier.nanos) {
            if self.nanos >= earlier.nanos {
                Ok(Duration { secs: self.secs - earlier.secs, nanos: self.nanos - earlier.nanos })
            } else {
                Ok(
                    Duration {
                        secs: self.secs - earlier.secs - 1,
                        nanos: self.nanos + NANOS_PER_SEC - earlier.nanos,
                    },
                )
            }
        } else {
            Err(TimeError::ClockComparisonFailure)
        }
    }

    /// The instant `d` before `self`, defined only while it stays at or after
    /// the epoch; otherwise the subtraction underflows.
    pub fn checked_sub(&self, d: &Duration) -> (r: Result<Instant, TimeError>)
        requires
            self.wf(),
            d.wf(),
        ensures
            r is Ok <==> d.as_nanos() <= self.since_epoch_nanos(),
            (r matches Ok(t) ==> t.wf() && t.since_epoch_nanos() == self.since_epoch_nanos()
                - d.as_nanos()),
            (r matches Err(e) ==> e == TimeError::TimeRangeUnderflow),
    {
        if self.secs > d.secs || (self.secs == d.secs && self.nanos >= d.nanos) {
            if self.nanos >= d.nanos {
                Ok(Instant { secs: self.secs - d.secs, nanos: self.nanos - d.nanos })
            } else {
                Ok(
                    Instant {
                        secs: self.secs - d.secs - 1,
                        nanos: self.nanos + NANOS_PER_SEC - d.nanos,
                    },
                )
            }
        } else {
            Err(TimeError::TimeRangeUnderflow)
        }
    }
}

} // verus!
