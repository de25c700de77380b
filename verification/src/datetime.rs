//! Points in time counted in 100-nanosecond ticks since the Unix epoch.

use vstd::prelude::*;
use crate::clock::current_unix_nanos;
use crate::timespan::Timespan;

verus! {

/// Ticks per second (10,000,000, one tick being 100 ns).
pub const TICKS_PER_SECOND: i64 = 10_000_000;

/// Ticks per millisecond.
pub const TICKS_PER_MILLISECOND: i64 = 10_000;

/// Ticks per microsecond.
pub const TICKS_PER_MICROSECOND: i64 = 10;

/// Ticks per day.
pub const TICKS_PER_DAY: i64 = 864_000_000_000;

/// Division truncated toward zero, as the machine divides signed
/// integers; `b` must be positive.
pub open spec fn trunc_div(a: int, b: int) -> int {
    if a >= 0 {
        a / b
    } else {
        -((-a) / b)
    }
}

/// The remainder left by `trunc_div`: it carries the sign of `a`.
pub open spec fn trunc_rem(a: int, b: int) -> int {
    a - trunc_div(a, b) * b
}

/// A timestamp in ticks of 100 nanoseconds since the Unix epoch;
/// negative ticks lie before it.
#[derive(Debug, Clone, Copy, PartialEq, Eq, Structural, PartialOrd, Ord, Hash)]
pub struct DateTime {
    /// Ticks since epoch (100-nanosecond intervals)
    pub ticks: i64,
}

impl DateTime {
    /// Create a timestamp from ticks.
    pub fn from_ticks(ticks: i64) -> (r: Self)
        ensures
            r.ticks == ticks,
    {
        Self { ticks }
    }

    /// The current time, read from the clock and truncated to ticks.
    pub fn now() -> Self {
        let nanos = current_unix_nanos();
        #[verifier::truncate]
        let signed = nanos as i64;
        Self::from_ticks(signed / 100)
    }

    /// The timestamp for a Unix time in whole seconds.
    pub fn from_unix_timestamp(seconds: i64) -> (r: Self)
        requires
            i64::MIN <= seconds * TICKS_PER_SECOND <= i64::MAX,
        ensures
            r.ticks == seconds * TICKS_PER_SECOND,
    {
        Self::from_ticks(seconds * TICKS_PER_SECOND)
    }

    /// The timestamp for a Unix time in whole milliseconds.
    pub fn from_unix_timestamp_millis(millis: i64) -> (r: Self)
        requires
            i64::MIN <= millis * TICKS_PER_MILLISECOND <= i64::MAX,
        ensures
            r.ticks == millis * TICKS_PER_MILLISECOND,
    {
        Self::from_ticks(millis * TICKS_PER_MILLISECOND)
    }

    /// The Unix time in whole seconds, truncated toward zero.
    pub fn to_unix_timestamp(self) -> (r: i64)
        ensures
            r == trunc_div(self.ticks as int, TICKS_PER_SECOND as int),
    {
        self.ticks / TICKS_PER_SECOND
    }

    /// The Unix time in whole milliseconds, truncated toward zero.
    pub fn to_unix_timestamp_millis(self) -> (r: i64)
        ensures
            r == trunc_div(self.ticks as int, TICKS_PER_MILLISECOND as int),
    {
        self.ticks / TICKS_PER_MILLISECOND
    }

    /// Moves the timestamp forward by a timespan; the sum must fit in
    /// the tick range.
    pub fn add_timespan(self, timespan: Timespan) -> (r: Self)
        requires
            i64::MIN <= self.ticks + timespan.ticks <= i64::MAX,
        ensures
            r.ticks == self.ticks + timespan.ticks,
    {
        Self::from_ticks(self.ticks + timespan.ticks)
    }

    /// Moves the timestamp backward by a timespan; the difference must
    /// fit in the tick range.
    pub fn sub_timespan(self, timespan: Timespan) -> (r: Self)
        requires
            i64::MIN <= self.ticks - timespan.ticks <= i64::MAX,
        ensures
            r.ticks == self.ticks - timespan.ticks,
    {
        Self::from_ticks(self.ticks - timespan.ticks)
    }

    /// The timespan from `other` up to this timestamp.
    pub fn difference(self, other: DateTime) -> (r: Timespan)
        requires
            i64::MIN <= self.ticks - other.ticks <= i64::MAX,
        ensures
            r.ticks == self.ticks - other.ticks,
    {
        Timespan::from_ticks(self.ticks - other.ticks)
    }

    /// The date part: the timestamp rounded toward zero to a whole day.
    pub fn date(self) -> (r: Self)
        ensures
            r.ticks == trunc_div(self.ticks as int, TICKS_PER_DAY as int) * TICKS_PER_DAY,
    {
        let days = self.ticks / TICKS_PER_DAY;
        Self::from_ticks(days * TICKS_PER_DAY)
    }

    /// The time of day: the remainder of the tick count within its day,
    /// negative before the epoch.
    pub fn time_of_day(self) -> (r: Timespan)
        ensures
            r.ticks == trunc_rem(self.ticks as int, TICKS_PER_DAY as int),
    {
        Timespan::from_ticks(self.ticks % TICKS_PER_DAY)
    }
}

} // verus!
