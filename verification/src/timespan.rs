//! Durations counted in 100-nanosecond ticks.

use vstd::prelude::*;

verus! {

/// A duration in ticks of 100 nanoseconds; negative ticks run backwards.
#[derive(Debug, Clone, Copy, PartialEq, Eq, Structural, PartialOrd, Ord, Hash)]
pub struct Timespan {
    /// Ticks (100-nanosecond intervals)
    pub ticks: i64,
}

impl Timespan {
    /// Create a timespan from ticks.
    pub fn from_ticks(ticks: i64) -> (r: Self)
        ensures
            r.ticks == ticks,
    {
        Self { ticks }
    }

    /// The zero-length timespan.
    pub fn zero() -> (r: Self)
        ensures
            r.ticks == 0,
    {
        Self { ticks: 0 }
    }

    /// Adds another timespan; the sum must fit in the tick range.
    pub fn add(self, other: Timespan) -> (r: Self)
        requires
            i64::MIN <= self.ticks + other.ticks <= i64::MAX,
        ensures
            r.ticks == self.ticks + other.ticks,
    {
        Self::from_ticks(self.ticks + other.ticks)
    }

    /// Subtracts another timespan; the difference must fit in the tick
    /// range.
    pub fn subtract(self, other: Timespan) -> (r: Self)
        requires
            i64::MIN <= self.ticks - other.ticks <= i64::MAX,
        ensures
            r.ticks == self.ticks - other.ticks,
    {
        Self::from_ticks(self.ticks - other.ticks)
    }

    /// The absolute value; the most negative tick count has none.
    pub fn abs(self) -> (r: Self)
        requires
            self.ticks != i64::MIN,
        ensures
            r.ticks == (if self.ticks < 0 {
                -self.ticks
            } else {
                self.ticks as int
            }),
    {
        if self.ticks < 0 {
            Self::from_ticks(-self.ticks)
        } else {
            self
        }
    }

    /// The duration: the absolute value of the timespan.
    pub fn duration(self) -> (r: Self)
        requires
            self.ticks != i64::MIN,
        ensures
            r.ticks == (if self.ticks < 0 {
                -self.ticks
            } else {
                self.ticks as int
            }),
    {
        self.abs()
    }

    /// Whether the timespan runs backwards.
    pub fn is_negative(self) -> (r: bool)
        ensures
            r == (self.ticks < 0),
    {
        self.ticks < 0
    }

    /// Whether the timespan runs forwards.
    pub fn is_positive(self) -> (r: bool)
        ensures
            r == (self.ticks > 0),
    {
        self.ticks > 0
    }

    /// Whether the timespan is empty.
    pub fn is_zero(self) -> (r: bool)
        ensures
            r == (self.ticks == 0),
    {
        self.ticks == 0
    }
}

impl Default for Timespan {
    /// The default timespan is zero.
    fn default() -> (r: Self)
        ensures
            r.ticks == 0,
    {
        Self::zero()
    }
}

} // verus!
