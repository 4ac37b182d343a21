//! Tick-based simulation time.
//!
//! All of simulated time is counted in whole ticks. One global constant,
//! [`GRANULARITY`], also serves as the fixed-point denominator of
//! [`crate::quantity::Quantity`]; it is chosen highly composite so that every
//! fractional amount used by game content, and every per-tick rate, exists
//! exactly.

use vstd::prelude::*;

verus! {

/// How many wall-clock nanoseconds one tick spans.
pub const NANOSECONDS_PER_TICK: u128 = 10;

/// Ticks per microsecond: 1000 nanoseconds at 10 nanoseconds per tick.
pub const TICKS_PER_MICROSECOND: u128 = 100;

/// Ticks per millisecond: `TICKS_PER_MICROSECOND * 1_000`.
pub const TICKS_PER_MILLISECOND: u128 = 100_000;

/// Ticks per second: `TICKS_PER_MICROSECOND * 1_000_000`.
pub const TICKS_PER_SECOND: u128 = 100_000_000;

pub const SECONDS_PER_MIN: u128 = 60;
pub const MINS_PER_HOUR: u128 = 60;
pub const HOURS_PER_DAY: u128 = 24;
pub const DAYS_PER_YEAR: u128 = 365;

/// `TICKS_PER_SECOND * SECONDS_PER_MIN`
pub const TICKS_PER_MINUTE: u128 = 6_000_000_000;

/// `TICKS_PER_MINUTE * MINS_PER_HOUR`
pub const TICKS_PER_HOUR: u128 = 360_000_000_000;

/// `TICKS_PER_HOUR * HOURS_PER_DAY`
pub const TICKS_PER_DAY: u128 = 8_640_000_000_000;

/// `TICKS_PER_DAY * DAYS_PER_YEAR`
pub const TICKS_PER_YEAR: u128 = 3_153_600_000_000_000;

/// After this many days, week, month and year boundaries align again.
pub const DAYS_UNTIL_WEEK_MONTH_AND_YEAR_ALIGN: u128 = 15330;

pub const FACTOR_FOR_EXACT_DECIMAL_NUMBERS_WITH_TWO_DIGITS: u128 = 100;

/// The fixed-point denominator shared by every quantity: residual parts are
/// counted in units of `1 / GRANULARITY`. Its value is
/// `TICKS_PER_DAY * DAYS_UNTIL_WEEK_MONTH_AND_YEAR_ALIGN * FACTOR_FOR_EXACT_DECIMAL_NUMBERS_WITH_TWO_DIGITS`,
/// divisible by every tick span up to a day, by 15330 days (so weeks, months
/// and years divide it), and by 100 (so two decimal digits are exact).
pub const GRANULARITY: u128 = 13_245_120_000_000_000_000;

/// A non-negative span of simulated time, counted in whole ticks.
///
/// Durations are immutable values; arithmetic produces new values.
#[derive(Clone, Copy, Debug, PartialEq, Eq, Structural)]
pub struct Duration {
    ticks: u128,
}

impl View for Duration {
    type V = int;

    /// A duration is modelled as its mathematical tick count.
    closed spec fn view(&self) -> int {
        self.ticks as int
    }
}

/// Relies on `core::time::Duration::as_nanos`: the whole number of
/// nanoseconds the interval spans. The interval itself is an opaque
/// wall-clock value, so nothing further is assumed of the result.
pub assume_specification[ core::time::Duration::as_nanos ](d: &core::time::Duration) -> u128;

impl Duration {
    /// Converts an elapsed wall-clock interval into simulated ticks,
    /// truncating towards zero. The caller guarantees monotonic elapsed
    /// time; the interval type itself is never negative.
    pub fn from_time_duration_rounded_down(time_duration: core::time::Duration) -> (d: Duration) {
        Duration { ticks: time_duration.as_nanos() / NANOSECONDS_PER_TICK }
    }

    /// The tick count of this duration.
    pub fn ticks(&self) -> (t: u128)
        ensures
            t == self@,
    {
        self.ticks
    }

    /// The duration of exactly `ticks` ticks.
    pub fn from_ticks(ticks: u128) -> (d: Duration)
        ensures
            d@ == ticks,
    {
        Duration { ticks }
    }

    /// The empty duration.
    pub fn instant() -> (d: Duration)
        ensures
            d@ == 0,
    {
        Duration { ticks: 0 }
    }

    /// A single tick.
    pub fn tick() -> (d: Duration)
        ensures
            d@ == 1,
    {
        Duration { ticks: 1 }
    }

    pub fn microsecond() -> (d: Duration)
        ensures
            d@ == TICKS_PER_MICROSECOND,
    {
        Duration { ticks: TICKS_PER_MICROSECOND }
    }

    pub fn second() -> (d: Duration)
        ensures
            d@ == TICKS_PER_SECOND,
    {
        Duration { ticks: TICKS_PER_SECOND }
    }

    pub fn minute() -> (d: Duration)
        ensures
            d@ == TICKS_PER_MINUTE,
    {
        Duration { ticks: TICKS_PER_MINUTE }
    }

    pub fn year() -> (d: Duration)
        ensures
            d@ == TICKS_PER_YEAR,
    {
        Duration { ticks: TICKS_PER_YEAR }
    }

    /// The duration of `seconds` whole seconds.
    pub fn from_seconds(seconds: u128) -> (d: Duration)
        requires
            seconds * TICKS_PER_SECOND <= u128::MAX,
        ensures
            d@ == seconds * TICKS_PER_SECOND,
    {
        Duration { ticks: seconds * TICKS_PER_SECOND }
    }

    /// Whether `self` is no longer than `other`.
    pub fn le(&self, other: &Duration) -> (r: bool)
        ensures
            r == (self@ <= other@),
    {
        self.ticks <= other.ticks
    }

    /// Whether `self` is strictly shorter than `other`.
    pub fn lt(&self, other: &Duration) -> (r: bool)
        ensures
            r == (self@ < other@),
    {
        self.ticks < other.ticks
    }

    /// Sum of two durations.
    pub fn add(self, rhs: Duration) -> (d: Duration)
        requires
            self@ + rhs@ <= u128::MAX,
        ensures
            d@ == self@ + rhs@,
    {
        Duration { ticks: self.ticks + rhs.ticks }
    }

    /// Difference of two durations. Elapsed time is monotonic, so the
    /// subtrahend never exceeds the minuend.
    pub fn sub(self, rhs: Duration) -> (d: Duration)
        requires
            rhs@ <= self@,
        ensures
            d@ == self@ - rhs@,
    {
        Duration { ticks: self.ticks - rhs.ticks }
    }

    /// This duration repeated `factor` times.
    pub fn times(self, factor: u128) -> (d: Duration)
        requires
            self@ * factor <= u128::MAX,
        ensures
            d@ == self@ * factor,
    {
        Duration { ticks: self.ticks * factor }
    }
}

} // verus!
