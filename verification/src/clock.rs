//! Timestamps in whole seconds and the hours/minutes/seconds split shown on
//! the watch face.

use vstd::prelude::*;

verus! {

/// A moment in time, in whole seconds since the Unix epoch.
#[derive(Clone, Copy, Debug, PartialEq, Eq, Structural)]
pub struct Timestamp {
    pub secs: i64,
}

/// `t - d`, held at the earliest representable second.
pub open spec fn seconds_before(t: int, d: int) -> int {
    if t - d < i64::MIN {
        i64::MIN as int
    } else {
        t - d
    }
}

/// Whole seconds from `earlier` to `later`, zero when `later` is not after
/// `earlier`.
pub open spec fn seconds_between(earlier: int, later: int) -> int {
    if later < earlier {
        0
    } else {
        later - earlier
    }
}

impl Timestamp {
    pub fn new(secs: i64) -> (t: Timestamp)
        ensures
            t.secs == secs,
    {
        Timestamp { secs }
    }

    /// The moment `d` seconds before this one.
    pub open spec fn minus_seconds_spec(self, d: u64) -> Timestamp {
        Timestamp { secs: seconds_before(self.secs as int, d as int) as i64 }
    }

    /// The moment `d` seconds before this one, held at the earliest
    /// representable second instead of overflowing.
    pub fn minus_seconds(self, d: u64) -> (t: Timestamp)
        ensures
            t == self.minus_seconds_spec(d),
            t.secs as int == seconds_before(self.secs as int, d as int),
    {
        let wide: i128 = self.secs as i128 - d as i128;
        if wide < i64::MIN as i128 {
            Timestamp { secs: i64::MIN }
        } else {
            Timestamp { secs: wide as i64 }
        }
    }

    /// Whole seconds elapsed from `earlier` to this moment.
    pub open spec fn seconds_since_spec(self, earlier: Timestamp) -> u64 {
        seconds_between(earlier.secs as int, self.secs as int) as u64
    }

    /// Whole seconds elapsed from `earlier` to this moment, zero when this
    /// moment is not after `earlier`.
    pub fn seconds_since(self, earlier: Timestamp) -> (d: u64)
        ensures
            d == self.seconds_since_spec(earlier),
            d as int == seconds_between(earlier.secs as int, self.secs as int),
    {
        let wide: i128 = self.secs as i128 - earlier.secs as i128;
        if wide < 0 {
            0
        } else {
            wide as u64
        }
    }

    /// Whether this moment is strictly later than `other`.
    pub fn is_after(self, other: Timestamp) -> (b: bool)
        ensures
            b == (self.secs > other.secs),
    {
        self.secs > other.secs
    }
}

/// A duration split for display as `HH:MM:SS`.
#[derive(Clone, Copy, Debug, PartialEq, Eq, Structural)]
pub struct Clock {
    pub hours: u64,
    pub minutes: u64,
    pub seconds: u64,
}

/// The display split of `total` seconds.
pub open spec fn clock_of(total: u64) -> Clock {
    Clock { hours: total / 3600, minutes: (total % 3600) / 60, seconds: total % 60 }
}

/// Splits `total` seconds into hours, minutes below 60 and seconds below 60.
pub fn clock_from_seconds(total: u64) -> (c: Clock)
    ensures
        c == clock_of(total),
        c.minutes < 60,
        c.seconds < 60,
        c.hours * 3600 + c.minutes * 60 + c.seconds == total,
{
    Clock { hours: total / 3600, minutes: (total % 3600) / 60, seconds: total % 60 }
}

/// Whole seconds in a duration given in milliseconds, as an idle monitor
/// reports it.
pub fn millis_to_seconds(millis: u64) -> (s: u64)
    ensures
        s == millis / 1000,
{
    millis / 1000
}

/// Seconds in `minutes` minutes: zero for a non-positive setting, held at
/// `u64::MAX` where the product does not fit.
pub open spec fn seconds_of_minutes(minutes: i64) -> u64 {
    if minutes <= 0 {
        0
    } else if minutes * 60 > u64::MAX {
        u64::MAX
    } else {
        (minutes * 60) as u64
    }
}

/// Converts a configured number of minutes to seconds.
pub fn minutes_to_seconds(minutes: i64) -> (s: u64)
    ensures
        s == seconds_of_minutes(minutes),
{
    if minutes <= 0 {
        0
    } else {
        let wide: u128 = minutes as u128 * 60;
        if wide > u64::MAX as u128 {
            u64::MAX
        } else {
            wide as u64
        }
    }
}

} // verus!
