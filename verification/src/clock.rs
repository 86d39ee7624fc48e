//! Instants as integers, and the wall clock.

use vstd::prelude::*;

verus! {

/// An instant, counted in nanoseconds since 1970-01-01T00:00:00 UTC.
pub type Timestamp = i128;

/// A span of time in nanoseconds.
pub type Nanos = i128;

/// Nanoseconds in one second.
pub const NANOS_PER_SEC: i128 = 1_000_000_000;

/// Nanoseconds in one millisecond.
pub const NANOS_PER_MILLI: i128 = 1_000_000;

/// The largest number of seconds that a `chrono::TimeDelta` can be built from.
pub const MAX_DELTA_SECONDS: i64 = 9_223_372_036_854_775;

/// The current UTC time as whole seconds since the epoch and the nanoseconds
/// past that second, read with `SystemTime::now` and converted by chrono's
/// `From<SystemTime> for DateTime<Utc>`, which takes a clock set before 1970
/// to a negative time; the nanoseconds are then below one second.
/// Unlike `Utc::now`, this does not panic on a clock before 1970; the
/// conversion still panics on a clock past chrono's last year, 262142.
#[verifier::external_body]
fn utc_now_parts() -> (r: (i64, u32))
    ensures
        r.1 < 1_000_000_000,
{
    let now = chrono::DateTime::<chrono::Utc>::from(std::time::SystemTime::now());
    (now.timestamp(), now.timestamp_subsec_nanos())
}

/// The instant `secs` seconds and `nanos` nanoseconds after the epoch.
pub open spec fn instant_of(secs: int, nanos: int) -> int {
    secs * 1_000_000_000 + nanos
}

/// The instant `secs` whole seconds and `subsec_nanos` nanoseconds after the epoch.
pub fn instant(secs: i64, subsec_nanos: u32) -> (r: Timestamp)
    ensures
        r == instant_of(secs as int, subsec_nanos as int),
{
    (secs as i128) * NANOS_PER_SEC + (subsec_nanos as i128)
}

/// The current UTC time: a whole number of seconds that fits `i64`, and the
/// nanoseconds past it.
pub fn now() -> (r: Timestamp)
    ensures
        exists|secs: i64, nanos: u32| nanos < 1_000_000_000 && r == #[trigger] instant_of(secs as int, nanos as int),
{
    let (secs, nanos) = utc_now_parts();
    instant(secs, nanos)
}

/// A span of `secs` seconds, as a `chrono::TimeDelta::seconds` call would give it.
pub fn seconds(secs: i64) -> (r: Nanos)
    requires
        -MAX_DELTA_SECONDS <= secs <= MAX_DELTA_SECONDS,
    ensures
        r == secs * 1_000_000_000,
{
    (secs as i128) * NANOS_PER_SEC
}

/// Floor division of `a` by the positive `b`.
pub open spec fn floor_div(a: int, b: int) -> int
    recommends
        b > 0,
{
    a / b
}

/// Whole milliseconds since the epoch (rounded down), saturated to the `i64` range.
pub open spec fn millis_of(t: int) -> int {
    let m = floor_div(t, 1_000_000);
    if m > i64::MAX {
        i64::MAX as int
    } else if m < i64::MIN {
        i64::MIN as int
    } else {
        m
    }
}

/// Whole seconds since the epoch (rounded down), saturated to the `i64` range.
pub open spec fn unix_seconds_of(t: int) -> int {
    let s = floor_div(t, 1_000_000_000);
    if s > i64::MAX {
        i64::MAX as int
    } else if s < i64::MIN {
        i64::MIN as int
    } else {
        s
    }
}

/// Floor division of an instant by a positive unit.
fn floor_div_i128(a: i128, b: i128) -> (r: i128)
    requires
        b > 1,
    ensures
        r == floor_div(a as int, b as int),
{
    if a >= 0 {
        a / b
    } else {
        let c: i128 = -(a + 1);
        let q: i128 = c / b;
        proof {
            lemma_floor_div_negative(a as int, b as int, c as int, q as int);
        }
        -q - 1
    }
}

proof fn lemma_floor_div_negative(a: int, b: int, c: int, q: int)
    requires
        b > 1,
        a < 0,
        c == -(a + 1),
        q == c / b,
    ensures
        a / b == -q - 1,
{
    let r = c % b;
    assert(c == q * b + r && 0 <= r < b) by {
        vstd::arithmetic::div_mod::lemma_fundamental_div_mod(c, b);
    }
    // a = -c - 1 = (-q - 1) * b + (b - 1 - r), with 0 <= b - 1 - r < b
    assert(a == (-q - 1) * b + (b - 1 - r)) by (nonlinear_arith)
        requires
            c == q * b + r,
            a == -c - 1,
    ;
    vstd::arithmetic::div_mod::lemma_fundamental_div_mod_converse(a, b, -q - 1, b - 1 - r);
}

/// Milliseconds since the epoch, as `DateTime::timestamp_millis` gives them.
pub fn millis(t: Timestamp) -> (r: i64)
    ensures
        r == millis_of(t as int),
{
    let m = floor_div_i128(t, NANOS_PER_MILLI);
    if m > i64::MAX as i128 {
        i64::MAX
    } else if m < i64::MIN as i128 {
        i64::MIN
    } else {
        m as i64
    }
}

/// Seconds since the epoch, as `DateTime::timestamp` gives them.
pub fn unix_seconds(t: Timestamp) -> (r: i64)
    ensures
        r == unix_seconds_of(t as int),
{
    let s = floor_div_i128(t, NANOS_PER_SEC);
    if s > i64::MAX as i128 {
        i64::MAX
    } else if s < i64::MIN as i128 {
        i64::MIN
    } else {
        s as i64
    }
}

/// The first second that `chrono` represents: -262143-01-01T00:00:00 UTC.
pub open spec fn chrono_min_seconds() -> int {
    -8_334_601_228_800
}

/// The last second that `chrono` represents: +262142-12-31T23:59:59 UTC.
pub open spec fn chrono_max_seconds() -> int {
    8_210_266_876_799
}

/// Whether `chrono` represents the instant `secs` seconds after the epoch:
/// its dates run from the year -262143 to the year 262142.
pub open spec fn chrono_accepts_seconds(secs: i64) -> bool {
    chrono_min_seconds() <= secs <= chrono_max_seconds()
}

/// Whether `chrono::DateTime::from_timestamp(secs, 0)` gives an instant: it
/// gives `None` exactly when the date of `secs` falls outside chrono's years
/// `MIN_YEAR` to `MAX_YEAR` (-262143 to 262142).
#[verifier::external_body]
fn seconds_in_range(secs: i64) -> (r: bool)
    ensures
        r == chrono_accepts_seconds(secs),
{
    chrono::DateTime::<chrono::Utc>::from_timestamp(secs, 0).is_some()
}

/// The instant `secs` seconds after the epoch, when `chrono` represents it.
pub fn from_unix_seconds(secs: i64) -> (r: Option<Timestamp>)
    ensures
        r == (if chrono_accepts_seconds(secs) {
            Some((secs * 1_000_000_000) as i128)
        } else {
            None::<i128>
        }),
{
    if seconds_in_range(secs) {
        Some((secs as i128) * NANOS_PER_SEC)
    } else {
        None
    }
}

/// The instant `secs` seconds after the epoch, or the current time when
/// `secs` lies outside the range that `chrono` represents.
pub fn from_unix_seconds_or_now(secs: i64) -> (r: Timestamp)
    ensures
        chrono_accepts_seconds(secs) ==> r == secs * 1_000_000_000,
{
    match from_unix_seconds(secs) {
        Some(t) => t,
        None => now(),
    }
}

/// Whether `chrono` represents the instant `ms` milliseconds after the
/// epoch: its whole second lies in the range of `chrono_accepts_seconds`.
pub open spec fn chrono_accepts_millis(ms: i64) -> bool {
    chrono_min_seconds() * 1000 <= ms <= chrono_max_seconds() * 1000 + 999
}

/// Whether `chrono::DateTime::from_timestamp_millis(ms)` gives an instant: it
/// calls `from_timestamp` with the whole second of `ms` and a valid
/// sub-second part, so it gives `None` exactly when that second is outside
/// chrono's range.
#[verifier::external_body]
fn millis_in_range(ms: i64) -> (r: bool)
    ensures
        r == chrono_accepts_millis(ms),
{
    chrono::DateTime::<chrono::Utc>::from_timestamp_millis(ms).is_some()
}

/// The instant `ms` milliseconds after the epoch, when `chrono` represents it.
pub fn from_millis(ms: i64) -> (r: Option<Timestamp>)
    ensures
        r == (if chrono_accepts_millis(ms) {
            Some((ms * 1_000_000) as i128)
        } else {
            None::<i128>
        }),
{
    if millis_in_range(ms) {
        Some((ms as i128) * NANOS_PER_MILLI)
    } else {
        None
    }
}

/// The instant `ms` milliseconds after the epoch, or the current time when
/// `chrono` does not represent it.
pub fn from_millis_or_now(ms: i64) -> (r: Timestamp)
    ensures
        chrono_accepts_millis(ms) ==> r == ms * 1_000_000,
{
    match from_millis(ms) {
        Some(t) => t,
        None => now(),
    }
}

/// Whether less than `span` nanoseconds passed from `then` to `now`.
pub fn elapsed_less_than(now: Timestamp, then: Timestamp, span: Nanos) -> (r: bool)
    ensures
        r == (now - then < span),
{
    match now.checked_sub(then) {
        Some(d) => d < span,
        None => now < then,
    }
}

/// Whether more than `span` nanoseconds passed from `then` to `now`.
pub fn elapsed_more_than(now: Timestamp, then: Timestamp, span: Nanos) -> (r: bool)
    ensures
        r == (now - then > span),
{
    match now.checked_sub(then) {
        Some(d) => d > span,
        None => now > then,
    }
}

} // verus!
