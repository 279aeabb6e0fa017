//! From a cadence configuration to the base delay between two clicks.

use std::time::Duration;
use vstd::prelude::*;

verus! {

/// Milliseconds in one hour.
pub const MILLIS_PER_HOUR: u64 = 3_600_000;

/// Milliseconds in one minute.
pub const MILLIS_PER_MINUTE: u64 = 60_000;

/// Milliseconds in one second.
pub const MILLIS_PER_SECOND: u64 = 1_000;

/// Nanoseconds in one millisecond.
pub const NANOS_PER_MILLI: u64 = 1_000_000;

/// Nanoseconds in one second.
pub const NANOS_PER_SECOND: u64 = 1_000_000_000;

/// How the cadence is chosen.
#[derive(Clone, Copy, Debug, PartialEq, Eq, Structural)]
pub enum IntervalMode {
    /// A fixed time between clicks.
    Time,
    /// A target number of clicks per second.
    Cps,
}

/// A fixed time between clicks, field by field.
#[derive(Clone, Copy, Debug, PartialEq, Eq, Structural)]
pub struct TimeInterval {
    pub hours: u8,
    pub minutes: u8,
    pub seconds: u8,
    pub milliseconds: u16,
}

/// The `Duration` that `Duration::from_millis` makes of a number of
/// milliseconds.
pub uninterp spec fn duration_of_millis(millis: u64) -> Duration;

/// The `Duration` that `Duration::from_nanos` makes of a number of
/// nanoseconds.
pub uninterp spec fn duration_of_nanos(nanos: u64) -> Duration;

/// `Duration::from_millis`: the result is a function of the argument alone.
/// Nothing more is claimed of it.
#[verifier::external_body]
pub(crate) fn duration_from_millis(millis: u64) -> (d: Duration)
    ensures
        d == duration_of_millis(millis),
{
    Duration::from_millis(millis)
}

/// `Duration::from_nanos`: the result is a function of the argument alone.
/// Nothing more is claimed of it.
#[verifier::external_body]
pub(crate) fn duration_from_nanos(nanos: u64) -> (d: Duration)
    ensures
        d == duration_of_nanos(nanos),
{
    Duration::from_nanos(nanos)
}

impl Default for TimeInterval {
    fn default() -> (t: Self)
        ensures
            t == (TimeInterval { hours: 0, minutes: 0, seconds: 0, milliseconds: 200 }),
    {
        TimeInterval { hours: 0, minutes: 0, seconds: 0, milliseconds: 200 }
    }
}

impl TimeInterval {
    /// The plain sum of the four fields, in milliseconds.
    pub open spec fn raw_millis(self) -> int {
        self.hours * 3_600_000 + self.minutes * 60_000 + self.seconds * 1_000
            + self.milliseconds
    }

    /// The interval in milliseconds: the sum of the fields, and 1 where that
    /// sum is 0.
    pub open spec fn spec_total_millis(self) -> int {
        if self.raw_millis() < 1 {
            1
        } else {
            self.raw_millis()
        }
    }

    /// The interval in whole milliseconds, never 0.
    pub fn total_millis(self) -> (millis: u64)
        ensures
            millis == self.spec_total_millis(),
            millis >= 1,
    {
        let raw: u64 = (self.hours as u64) * MILLIS_PER_HOUR + (self.minutes as u64)
            * MILLIS_PER_MINUTE + (self.seconds as u64) * MILLIS_PER_SECOND
            + (self.milliseconds as u64);
        if raw < 1 {
            1
        } else {
            raw
        }
    }

    /// The interval as a `Duration` of `total_millis` milliseconds.
    pub fn to_duration(self) -> (d: Duration)
        ensures
            d == duration_of_millis(self.spec_total_millis() as u64),
    {
        duration_from_millis(self.total_millis())
    }
}

/// A cadence: the mode, and the values of both modes. Only the values of the
/// chosen mode count.
#[derive(Clone, Copy, Debug, PartialEq, Eq, Structural)]
pub struct IntervalConfig {
    pub mode: IntervalMode,
    pub time: TimeInterval,
    /// Target clicks per second; 0 counts as 1.
    pub cps: u16,
}

/// The rate that is used for a configured rate: at least 1.
pub open spec fn effective_rate(cps: u16) -> int {
    if cps < 1 {
        1
    } else {
        cps as int
    }
}

/// A quotient rounded to the nearest whole number, a half upwards.
pub open spec fn div_nearest(n: int, d: int) -> int {
    (2 * n + d) / (2 * d)
}

/// The base delay of a cadence in nanoseconds.
///
/// A fixed time is the sum of its fields. A target rate is one second
/// divided by the rate, to the nearest nanosecond, so that fractions of a
/// millisecond are kept. Either is raised to one millisecond where it is
/// less.
pub open spec fn spec_base_delay_nanos(config: IntervalConfig) -> int {
    match config.mode {
        IntervalMode::Time => config.time.spec_total_millis() * 1_000_000,
        IntervalMode::Cps => {
            let nanos = div_nearest(1_000_000_000, effective_rate(config.cps));
            if nanos < 1_000_000 {
                1_000_000
            } else {
                nanos
            }
        },
    }
}

/// The base delay of a cadence in nanoseconds, at least one millisecond.
pub fn base_delay_nanos(config: IntervalConfig) -> (nanos: u64)
    ensures
        nanos == spec_base_delay_nanos(config),
        nanos >= NANOS_PER_MILLI,
{
    match config.mode {
        IntervalMode::Time => config.time.total_millis() * NANOS_PER_MILLI,
        IntervalMode::Cps => {
            let rate: u64 = if config.cps < 1 {
                1
            } else {
                config.cps as u64
            };
            let nanos: u64 = (2 * NANOS_PER_SECOND + rate) / (2 * rate);
            if nanos < NANOS_PER_MILLI {
                NANOS_PER_MILLI
            } else {
                nanos
            }
        },
    }
}

/// The base delay of a cadence as a `Duration`.
pub fn compute_base_delay(config: IntervalConfig) -> (d: Duration)
    ensures
        d == duration_of_nanos(spec_base_delay_nanos(config) as u64),
{
    duration_from_nanos(base_delay_nanos(config))
}

/// Every cadence has a base delay of at least one millisecond, and none
/// above the longest fixed time that the fields can hold.
pub proof fn lemma_base_delay_bounds(config: IntervalConfig)
    ensures
        1_000_000 <= spec_base_delay_nanos(config) <= 933_620_535 * 1_000_000,
{
    if config.mode == IntervalMode::Cps {
        lemma_div_nearest_is_nearest(1_000_000_000, effective_rate(config.cps));
    }
}

/// The rounded quotient is the whole number nearest to the true quotient: it
/// differs from it by at most a half.
pub proof fn lemma_div_nearest_is_nearest(n: int, d: int)
    requires
        n >= 0,
        d >= 1,
    ensures
        -d <= 2 * (n - d * div_nearest(n, d)) < d,
        0 <= div_nearest(n, d) <= n,
{
    let q = div_nearest(n, d);
    vstd::arithmetic::div_mod::lemma_fundamental_div_mod(2 * n + d, 2 * d);
    vstd::arithmetic::div_mod::lemma_mod_bound(2 * n + d, 2 * d);
    assert(2 * n + d == 2 * d * q + (2 * n + d) % (2 * d));
    assert(2 * d * q == 2 * (d * q)) by (nonlinear_arith);
    assert(q >= 0 && q <= n) by (nonlinear_arith)
        requires
            -d <= 2 * (n - d * q) < d,
            n >= 0,
            d >= 1,
    ;
}

/// A target rate that divides one second gives that part of a second
/// exactly.
pub proof fn lemma_exact_rate(cps: u16, nanos: int)
    requires
        cps >= 1,
        cps * nanos == 1_000_000_000,
    ensures
        div_nearest(1_000_000_000, cps as int) == nanos,
{
    let d = cps as int;
    lemma_div_nearest_is_nearest(1_000_000_000, d);
    let q = div_nearest(1_000_000_000, d);
    assert(q == nanos) by (nonlinear_arith)
        requires
            -d <= 2 * (d * nanos - d * q) < d,
            d >= 1,
    ;
}

} // verus!
