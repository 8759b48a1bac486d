//! Trusted boundary to the system clock and the machine's local time zone.
//!
//! Everything here hands plain values (years, months, days, seconds) across
//! the boundary; the calendar logic that consumes them is verified. The local
//! time zone and the current time are machine state, so the contracts state
//! only what holds of every outcome.

use vstd::prelude::*;

use crate::calendar::{spec_days_in_month, valid_ymd};
use chrono::{Datelike, TimeZone, Timelike};

verus! {

/// A local calendar date with a time of day, as plain values.
#[derive(Clone, Copy, Debug, PartialEq, Eq, Structural)]
pub struct LocalCivil {
    pub year: i64,
    pub month: u8,
    pub day: u8,
    /// Seconds since local midnight, always below 86400.
    pub secs: u32,
}

/// How a naive local date-time maps to instants: one instant, two (around a
/// clock roll-back, earlier first), or none (inside a clock jump-forward).
#[derive(Clone, Copy, Debug, PartialEq, Eq, Structural)]
pub enum LocalResolution {
    Single(i64),
    Ambiguous(i64, i64),
    Absent,
}

/// Relies on chrono's `Utc::now`: the current moment in epoch seconds.
/// chrono aborts if the machine clock reads before 1970; no promise of
/// panic-freedom covers that machine state.
#[verifier::external_body]
pub fn now_timestamp() -> i64 {
    chrono::Utc::now().timestamp()
}

/// Relies on chrono's `TimeZone::timestamp_opt` on `Local`, `Datelike` and
/// `Timelike`: the local civil date and time of `ts`, when `ts` is
/// representable; chrono only produces valid Gregorian dates and in-range
/// times of day.
#[verifier::external_body]
pub fn local_civil_of(ts: i64) -> (r: Option<LocalCivil>)
    ensures
        r matches Some(c) ==> 1 <= c.month <= 12 && 1 <= c.day && c.day as int
            <= spec_days_in_month(c.year as int, c.month as int) && c.secs < 86400,
{
    let dt = chrono::Local.timestamp_opt(ts, 0).single()?;
    Some(LocalCivil {
        year: dt.year() as i64,
        month: dt.month() as u8,
        day: dt.day() as u8,
        secs: dt.num_seconds_from_midnight(),
    })
}

/// Relies on chrono's `TimeZone::from_local_datetime` on `Local`: how the
/// given naive local date-time resolves to instants. chrono documents that
/// the ambiguous case carries the earlier instant first.
#[verifier::external_body]
pub fn resolve_local_civil(year: i64, month: u8, day: u8, secs: u32) -> (r: LocalResolution)
    requires
        valid_ymd(year as int, month as int, day as int),
        secs < 86400,
    ensures
        r matches LocalResolution::Ambiguous(a, b) ==> a <= b,
{
    let date = chrono::NaiveDate::from_ymd_opt(year as i32, month as u32, day as u32);
    let time = chrono::NaiveTime::from_num_seconds_from_midnight_opt(secs, 0);
    let (Some(date), Some(time)) = (date, time) else {
        return LocalResolution::Absent;
    };
    match chrono::Local.from_local_datetime(&date.and_time(time)) {
        chrono::LocalResult::Single(dt) => LocalResolution::Single(dt.timestamp()),
        chrono::LocalResult::Ambiguous(a, b) => LocalResolution::Ambiguous(a.timestamp(), b.timestamp()),
        chrono::LocalResult::None => LocalResolution::Absent,
    }
}

} // verus!
