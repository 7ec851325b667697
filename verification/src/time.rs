//! Instants as chrono's `DateTime<Utc>` holds them, and the arithmetic the
//! server performs on them.

use vstd::prelude::*;

verus! {

/// Nanoseconds in one second.
pub const NANOS_PER_SEC: u32 = 1_000_000_000;

/// Seconds in one day.
pub const SECS_PER_DAY: i64 = 86_400;

/// First second that chrono's `DateTime<Utc>` can represent
/// (-262143-01-01T00:00:00Z), counted from the Unix epoch.
pub const MIN_TIMESTAMP_SECS: i64 = -8_334_601_315_200;

/// Last second that chrono's `DateTime<Utc>` can represent
/// (262142-12-31T23:59:59Z), counted from the Unix epoch.
pub const MAX_TIMESTAMP_SECS: i64 = 8_210_266_876_799;

/// Largest number of whole seconds a chrono `TimeDelta` can hold
/// (`i64::MAX` milliseconds, rounded down to seconds).
pub const MAX_DELTA_SECS: i64 = 9_223_372_036_854_775;

/// An instant in UTC: whole seconds since the Unix epoch and the
/// nanoseconds past that second.
#[derive(Clone, Copy, Debug, PartialEq, Eq, Structural)]
pub struct Timestamp {
    pub secs: i64,
    pub nanos: u32,
}

/// `x as i64` for a `u64`: two's complement reinterpretation.
pub open spec fn wrap_i64(x: u64) -> int {
    if x <= i64::MAX {
        x as int
    } else {
        x - 0x1_0000_0000_0000_0000
    }
}

/// Integer division rounding toward zero, for a positive divisor.
pub open spec fn trunc_div(a: int, b: int) -> int {
    if a >= 0 {
        a / b
    } else {
        -((-a) / b)
    }
}

impl Timestamp {
    /// A representable instant that is not a leap second.
    pub open spec fn wf(self) -> bool {
        &&& self.nanos < NANOS_PER_SEC
        &&& MIN_TIMESTAMP_SECS <= self.secs <= MAX_TIMESTAMP_SECS
    }

    pub open spec fn total_nanos(self) -> int {
        self.secs * 1_000_000_000 + self.nanos
    }

    /// Chronological order, as chrono compares two instants.
    pub open spec fn precedes(self, other: Timestamp) -> bool {
        ||| self.secs < other.secs
        ||| (self.secs == other.secs && self.nanos < other.nanos)
    }

    /// Whether `self` lies strictly before `other`.
    pub fn is_before(&self, other: &Timestamp) -> (r: bool)
        ensures
            r == self.precedes(*other),
    {
        self.secs < other.secs || (self.secs == other.secs && self.nanos < other.nanos)
    }
}

/// What a reading of the system clock can be: chrono's `Utc::now` never
/// yields an instant before the Unix epoch, a leap second, or an instant
/// past the representable range.
pub open spec fn clock_reading(t: Timestamp) -> bool {
    t.wf() && t.secs >= 0
}

/// Whole seconds from `earlier` to `later`, rounded toward zero, as
/// `later.signed_duration_since(earlier).num_seconds()` counts them.
pub open spec fn whole_seconds_between(later: Timestamp, earlier: Timestamp) -> int {
    trunc_div(later.total_nanos() - earlier.total_nanos(), 1_000_000_000)
}

/// `now` moved back by `secs` seconds, as `now - TimeDelta` computes it;
/// `None` where chrono panics (the delta or the result out of range).
pub open spec fn shifted_back(now: Timestamp, secs: int) -> Option<Timestamp> {
    if -MAX_DELTA_SECS <= secs <= MAX_DELTA_SECS && MIN_TIMESTAMP_SECS <= now.secs - secs
        <= MAX_TIMESTAMP_SECS {
        Some(Timestamp { secs: (now.secs - secs) as i64, nanos: now.nanos })
    } else {
        None
    }
}

/// `now - TimeDelta::days(days as i64)`.
pub open spec fn days_before(now: Timestamp, days: u64) -> Option<Timestamp> {
    shifted_back(now, wrap_i64(days) * SECS_PER_DAY)
}

/// `now - TimeDelta::seconds(secs as i64)`.
pub open spec fn seconds_before(now: Timestamp, secs: u64) -> Option<Timestamp> {
    shifted_back(now, wrap_i64(secs))
}

/// Reads the system clock through chrono's `Utc::now`.
///
/// Trusted: chrono builds the instant from `SystemTime::now()` measured from
/// the Unix epoch (it panics on a clock set before 1970) with sub-second
/// nanoseconds below one second, and unwraps it into the representable
/// range. Which instant comes back is not stated.
#[verifier::external_body]
pub(crate) fn current_timestamp() -> (t: Timestamp)
    ensures
        clock_reading(t),
{
    let now = chrono::Utc::now();
    Timestamp { secs: now.timestamp(), nanos: now.timestamp_subsec_nanos() }
}

/// `u64 as i64` computed in `i128`.
pub fn wrapped_as_i64(x: u64) -> (r: i128)
    ensures
        r == wrap_i64(x),
{
    if x <= 0x7fff_ffff_ffff_ffff {
        x as i128
    } else {
        x as i128 - 0x1_0000_0000_0000_0000i128
    }
}

/// Whole seconds elapsed from `earlier` to `later`, rounded toward zero.
pub fn whole_seconds_since(later: Timestamp, earlier: Timestamp) -> (r: i64)
    requires
        later.wf(),
        earlier.wf(),
    ensures
        r == whole_seconds_between(later, earlier),
{
    let d: i128 = (later.secs as i128 - earlier.secs as i128) * 1_000_000_000i128 + (
    later.nanos as i128 - earlier.nanos as i128);
    assert(d == later.total_nanos() - earlier.total_nanos());
    let q: i128 = if d >= 0 {
        d / 1_000_000_000i128
    } else {
        -((-d) / 1_000_000_000i128)
    };
    assert(-17_000_000_000_000i128 <= q <= 17_000_000_000_000i128) by {
        assert(-17_000_000_000_000_000_000_000 <= d <= 17_000_000_000_000_000_000_000);
    }
    q as i64
}

/// The instant `secs` seconds before `now`, or `None` where chrono's
/// subtraction panics.
pub fn shift_back(now: Timestamp, secs: i128) -> (r: Option<Timestamp>)
    requires
        -0x1_0000_0000_0000_0000_0000_0000 <= secs <= 0x1_0000_0000_0000_0000_0000_0000,
    ensures
        r == shifted_back(now, secs as int),
{
    if secs < -(MAX_DELTA_SECS as i128) || secs > MAX_DELTA_SECS as i128 {
        return None;
    }
    let s: i128 = now.secs as i128 - secs;
    if s < MIN_TIMESTAMP_SECS as i128 || s > MAX_TIMESTAMP_SECS as i128 {
        return None;
    }
    Some(Timestamp { secs: s as i64, nanos: now.nanos })
}

/// The cut-off `days` days before `now`, or `None` where chrono panics.
pub fn days_cutoff(now: Timestamp, days: u64) -> (r: Option<Timestamp>)
    ensures
        r == days_before(now, days),
{
    let d = wrapped_as_i64(days);
    shift_back(now, d * 86_400i128)
}

/// The cut-off `secs` seconds before `now`, or `None` where chrono panics.
pub fn seconds_cutoff(now: Timestamp, secs: u64) -> (r: Option<Timestamp>)
    ensures
        r == seconds_before(now, secs),
{
    shift_back(now, wrapped_as_i64(secs))
}

} // verus!
