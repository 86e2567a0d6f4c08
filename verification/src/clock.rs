//! Points in time, as microseconds since the Unix epoch.

use chrono::{DateTime, Days, Utc};
use vstd::prelude::*;

verus! {

/// The microseconds of a day.
pub const DAY_MICROS: i64 = 86_400_000_000;

/// The first microsecond of the calendar.
pub const FIRST_MICROS: i64 = -8_334_601_228_800_000_000;

/// The last microsecond of the calendar.
pub const LAST_MICROS: i64 = 8_210_266_876_799_999_999;

/// The point in time a number of days after another, where the calendar reaches that far.
pub open spec fn days_after(now: i64, days: u64) -> Option<i64> {
    if FIRST_MICROS <= now && now + days * DAY_MICROS <= LAST_MICROS {
        Some((now + days * DAY_MICROS) as i64)
    } else {
        None
    }
}

/// Calls `chrono::Utc::now` and reads its `timestamp_micros`.
///
/// The contract claims that the clock stands within the calendar, at or after the epoch: where the
/// system's clock does not, `now` panics instead of returning.
#[verifier::external_body]
fn utc_now_micros() -> (r: i64)
    ensures
        0 <= r <= LAST_MICROS,
{
    Utc::now().timestamp_micros()
}

/// Calls `chrono::DateTime::<Utc>::checked_add_days`.
///
/// The contract claims that in UTC a day is always 86400 seconds long, that the time of day is
/// kept, and that there is no result exactly where the calendar ends before it.
#[verifier::external_body]
fn utc_checked_add_days(now: i64, days: u64) -> (r: Option<i64>)
    ensures
        r == days_after(now, days),
{
    DateTime::<Utc>::from_timestamp_micros(now)?.checked_add_days(Days::new(days)).map(
        |x| x.timestamp_micros(),
    )
}

/// The current time. The clock decides; it never stands before the epoch.
pub fn current_micros() -> (r: i64)
    ensures
        0 <= r <= LAST_MICROS,
{
    utc_now_micros()
}

/// Moves a point in time on by a number of days.
pub fn add_days(now: i64, days: u64) -> (r: Option<i64>)
    ensures
        r == days_after(now, days),
{
    utc_checked_add_days(now, days)
}

/// The second in which a point in time falls.
pub open spec fn seconds_of(micros: i64) -> int {
    micros as int / 1_000_000
}

/// The whole seconds since the epoch, rounded towards the past.
pub fn to_seconds(micros: i64) -> (r: i64)
    ensures
        r == seconds_of(micros),
{
    if micros >= 0 {
        micros / 1_000_000
    } else {
        let shifted: i64 = micros + 1;
        let q: i64 = -((-shifted) / 1_000_000) - 1;
        q
    }
}

/// A later point in time stays later when both move on by the same number of days.
pub proof fn law_days_keep_order(a: i64, b: i64, days: u64)
    requires
        a <= b,
        days_after(a, days) is Some,
        days_after(b, days) is Some,
    ensures
        days_after(a, days)->0 <= days_after(b, days)->0,
{
}

/// Days add up: moving on by `m` and then by `n` days is moving on by `m + n` days.
pub proof fn law_days_add_up(now: i64, m: u64, n: u64)
    requires
        m + n <= u64::MAX,
    ensures
        days_after(now, (m + n) as u64) == match days_after(now, m) {
            Some(t) => days_after(t, n),
            None => None,
        },
{
    assert((m + n) * DAY_MICROS == m * DAY_MICROS + n * DAY_MICROS) by (nonlinear_arith);
    assert(n * DAY_MICROS >= 0) by (nonlinear_arith);
    assert(m * DAY_MICROS >= 0) by (nonlinear_arith);
}

} // verus!
