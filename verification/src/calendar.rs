//! Proleptic Gregorian calendar arithmetic on plain integers.
//!
//! Dates are modelled two ways: as a civil triple (year, month, day) and as a
//! day number counted from 1970-01-01 (day 0). The supported window runs from
//! 1970-01-01 up to day `MAX_CIVIL_DAY`; timestamps outside it are treated as
//! unrepresentable by the recurrence calculator and fall back to "now".

use vstd::prelude::*;

verus! {

/// Highest day number (since 1970-01-01) that the calendar accepts as an
/// input date; it lies in the year 9994.
pub const MAX_CIVIL_DAY: i64 = 2930949;

/// Exclusive upper bound on representable timestamps:
/// `(MAX_CIVIL_DAY + 1) * 86400`.
pub const TS_LIMIT: i64 = 253234080000;

/// A calendar date, always kept valid by the functions of this module.
#[derive(Clone, Copy, PartialEq, Eq, Structural, Debug)]
pub struct CivilDate {
    pub year: i64,
    pub month: u8,
    pub day: u8,
}

pub open spec fn is_leap_year(y: int) -> bool {
    (y % 4 == 0 && y % 100 != 0) || y % 400 == 0
}

pub open spec fn spec_days_in_year(y: int) -> int {
    if is_leap_year(y) {
        366
    } else {
        365
    }
}

pub open spec fn spec_days_in_month(y: int, m: int) -> int {
    if m == 2 {
        if is_leap_year(y) {
            29
        } else {
            28
        }
    } else if m == 4 || m == 6 || m == 9 || m == 11 {
        30
    } else {
        31
    }
}

/// Days from 1970-01-01 to y-01-01.
pub open spec fn spec_days_before_year(y: int) -> int
    decreases y - 1970 when y >= 1970
{
    if y <= 1970 {
        0
    } else {
        spec_days_before_year(y - 1) + spec_days_in_year(y - 1)
    }
}

/// Days from y-01-01 to y-m-01.
pub open spec fn spec_days_before_month(y: int, m: int) -> int
    decreases m when m >= 1
{
    if m <= 1 {
        0
    } else {
        spec_days_before_month(y, m - 1) + spec_days_in_month(y, m - 1)
    }
}

pub open spec fn valid_ymd(y: int, m: int, d: int) -> bool {
    1970 <= y <= 10040 && 1 <= m <= 12 && 1 <= d <= spec_days_in_month(y, m)
}

pub open spec fn valid_date(date: CivilDate) -> bool {
    valid_ymd(date.year as int, date.month as int, date.day as int)
}

/// Day number (since 1970-01-01) of the date y-m-d.
pub open spec fn spec_days_from_civil(y: int, m: int, d: int) -> int {
    spec_days_before_year(y) + spec_days_before_month(y, m) + (d - 1)
}

pub open spec fn spec_day_of(date: CivilDate) -> int {
    spec_days_from_civil(date.year as int, date.month as int, date.day as int)
}

/// Weekday of a day number, counted as Monday = 1 .. Sunday = 7
/// (1970-01-01 was a Thursday, weekday 4).
pub open spec fn spec_weekday_from_days(days: int) -> int {
    (days + 3) % 7 + 1
}

pub proof fn lemma_days_before_year_bounds(y: int)
    requires
        y >= 1970,
    ensures
        365 * (y - 1970) <= spec_days_before_year(y) <= 366 * (y - 1970),
    decreases y - 1970,
{
    if y > 1970 {
        lemma_days_before_year_bounds(y - 1);
    }
}

pub proof fn lemma_days_before_month_bounds(y: int, m: int)
    requires
        1 <= m <= 13,
    ensures
        0 <= spec_days_before_month(y, m) <= 366,
        m <= 12 ==> spec_days_before_month(y, m) + spec_days_in_month(y, m) <= 366,
    decreases m,
{
    if m > 1 {
        lemma_days_before_month_bounds(y, m - 1);
    }
    if m <= 12 {
        lemma_days_before_month_total(y, m);
    } else {
        lemma_days_before_month_total(y, 12);
    }
}

/// The twelve months of a year add up exactly to the year's length.
proof fn lemma_year_month_total(y: int)
    ensures
        spec_days_before_month(y, 12) + spec_days_in_month(y, 12) == spec_days_in_year(y),
{
    reveal_with_fuel(spec_days_before_month, 13);
}

/// Within one year, any month's end stays at or before the year's end.
proof fn lemma_days_before_month_total(y: int, m: int)
    requires
        1 <= m <= 12,
    ensures
        spec_days_before_month(y, m) + spec_days_in_month(y, m) <= spec_days_in_year(y),
    decreases 12 - m,
{
    if m == 12 {
        lemma_year_month_total(y);
    } else {
        lemma_days_before_month_total(y, m + 1);
        assert(spec_days_before_month(y, m + 1) == spec_days_before_month(y, m)
            + spec_days_in_month(y, m));
    }
}

pub fn days_in_month(year: i64, month: u8) -> (r: u8)
    requires
        year >= 0,
        1 <= month <= 12,
    ensures
        r == spec_days_in_month(year as int, month as int),
        28 <= r <= 31,
{
    if month == 2 {
        if (year % 4 == 0 && year % 100 != 0) || year % 400 == 0 {
            29
        } else {
            28
        }
    } else if month == 4 || month == 6 || month == 9 || month == 11 {
        30
    } else {
        31
    }
}

fn days_in_year(year: i64) -> (r: u16)
    requires
        year >= 0,
    ensures
        r == spec_days_in_year(year as int),
{
    if (year % 4 == 0 && year % 100 != 0) || year % 400 == 0 {
        366
    } else {
        365
    }
}

/// Day number of a valid civil date.
pub fn days_from_civil(year: i64, month: u8, day: u8) -> (r: i64)
    requires
        valid_ymd(year as int, month as int, day as int),
    ensures
        r == spec_days_from_civil(year as int, month as int, day as int),
        0 <= r,
{
    let mut acc: i64 = 0;
    let mut y: i64 = 1970;
    while y < year
        invariant
            1970 <= y <= year <= 10040,
            acc == spec_days_before_year(y as int),
            0 <= acc <= 366 * (y - 1970),
        decreases year - y,
    {
        acc = acc + days_in_year(y) as i64;
        y = y + 1;
        proof {
            lemma_days_before_year_bounds(y as int);
        }
    }
    proof {
        lemma_days_before_year_bounds(year as int);
    }
    let mut m: u8 = 1;
    while m < month
        invariant
            1 <= m <= month <= 12,
            1970 <= year <= 10040,
            acc == spec_days_before_year(year as int) + spec_days_before_month(
                year as int,
                m as int,
            ),
            0 <= acc <= 366 * (year - 1970) + 366,
        decreases month - m,
    {
        proof {
            lemma_days_before_year_bounds(year as int);
            lemma_days_before_month_bounds(year as int, m as int);
        }
        acc = acc + days_in_month(year, m) as i64;
        m = m + 1;
    }
    acc + (day as i64 - 1)
}

/// Civil date of a day number inside the supported window (with enough slack
/// above `MAX_CIVIL_DAY` to absorb a recurrence step past it).
pub fn civil_from_days(days: i64) -> (r: CivilDate)
    requires
        0 <= days <= 2939400,
    ensures
        valid_date(r),
        1970 <= r.year <= 10023,
        spec_day_of(r) == days,
{
    let mut y: i64 = 1970;
    let mut rem: i64 = days;
    loop
        invariant
            1970 <= y,
            rem == days - spec_days_before_year(y as int),
            0 <= rem,
            0 <= days <= 2939400,
        ensures
            0 <= rem < spec_days_in_year(y as int),
            rem == days - spec_days_before_year(y as int),
            1970 <= y <= 10023,
        decreases 2939400 - spec_days_before_year(y as int),
    {
        proof {
            // 365 * (y - 1970) <= days_before_year(y) <= days <= 2939400
            // < 365 * 8054, so y stays at or below 1970 + 8053.
            lemma_days_before_year_bounds(y as int);
        }
        let len = days_in_year(y) as i64;
        if rem < len {
            break;
        }
        rem = rem - len;
        y = y + 1;
    }
    let mut m: u8 = 1;
    loop
        invariant
            1 <= m <= 12,
            1970 <= y <= 10023,
            rem >= 0,
            rem + spec_days_before_month(y as int, m as int) < spec_days_in_year(y as int),
            rem + spec_days_before_month(y as int, m as int) == days - spec_days_before_year(
                y as int,
            ),
        ensures
            1 <= m <= 12,
            0 <= rem < spec_days_in_month(y as int, m as int),
            rem + spec_days_before_month(y as int, m as int) == days - spec_days_before_year(
                y as int,
            ),
        decreases 12 - m,
    {
        proof {
            lemma_days_before_month_total(y as int, m as int);
            lemma_year_month_total(y as int);
        }
        let len = days_in_month(y, m) as i64;
        if rem < len {
            break;
        }
        rem = rem - len;
        m = m + 1;
    }
    CivilDate { year: y, month: m, day: (rem + 1) as u8 }
}

pub proof fn lemma_days_before_year_monotone(y1: int, y2: int)
    requires
        1970 <= y1 <= y2,
    ensures
        spec_days_before_year(y1) <= spec_days_before_year(y2),
        y1 < y2 ==> spec_days_before_year(y1) + spec_days_in_year(y1) <= spec_days_before_year(y2),
    decreases y2 - y1,
{
    if y1 < y2 {
        lemma_days_before_year_monotone(y1 + 1, y2);
    }
}

pub proof fn lemma_days_before_month_monotone(y: int, m1: int, m2: int)
    requires
        1 <= m1 <= m2 <= 13,
    ensures
        spec_days_before_month(y, m1) <= spec_days_before_month(y, m2),
        m1 < m2 ==> spec_days_before_month(y, m1) + spec_days_in_month(y, m1)
            <= spec_days_before_month(y, m2),
    decreases m2 - m1,
{
    if m1 < m2 {
        lemma_days_before_month_monotone(y, m1 + 1, m2);
    }
}

/// Two valid civil dates with the same day number are the same date.
pub proof fn lemma_days_from_civil_injective(y1: int, m1: int, d1: int, y2: int, m2: int, d2: int)
    requires
        valid_ymd(y1, m1, d1),
        valid_ymd(y2, m2, d2),
        spec_days_from_civil(y1, m1, d1) == spec_days_from_civil(y2, m2, d2),
    ensures
        y1 == y2 && m1 == m2 && d1 == d2,
{
    lemma_within_year_bounds(y1, m1, d1);
    lemma_within_year_bounds(y2, m2, d2);
    if y1 < y2 {
        lemma_days_before_year_monotone(y1, y2);
    }
    if y2 < y1 {
        lemma_days_before_year_monotone(y2, y1);
    }
    if m1 < m2 {
        lemma_days_before_month_monotone(y1, m1, m2);
    }
    if m2 < m1 {
        lemma_days_before_month_monotone(y1, m2, m1);
    }
}

/// A valid date's offset within its year stays below the year's length.
pub proof fn lemma_within_year_bounds(y: int, m: int, d: int)
    requires
        valid_ymd(y, m, d),
    ensures
        0 <= spec_days_before_month(y, m) + (d - 1) < spec_days_in_year(y),
{
    lemma_days_before_month_bounds(y, m);
    lemma_days_before_month_total(y, m);
}

/// Every day number in the supported window decomposes into a valid date.
pub proof fn lemma_civil_exists(days: int)
    requires
        0 <= days <= 2939400,
    ensures
        exists|y: int, m: int, d: int|
            valid_ymd(y, m, d) && spec_days_from_civil(y, m, d) == days,
    decreases days,
{
    if days == 0 {
        assert(valid_ymd(1970, 1, 1) && spec_days_from_civil(1970, 1, 1) == 0);
    } else {
        lemma_civil_exists(days - 1);
        let c = choose|y: int, m: int, d: int|
            valid_ymd(y, m, d) && spec_days_from_civil(y, m, d) == days - 1;
        if c.2 < spec_days_in_month(c.0, c.1) {
            assert(valid_ymd(c.0, c.1, c.2 + 1) && spec_days_from_civil(c.0, c.1, c.2 + 1)
                == days);
        } else if c.1 < 12 {
            assert(spec_days_before_month(c.0, c.1 + 1) == spec_days_before_month(c.0, c.1)
                + spec_days_in_month(c.0, c.1));
            assert(valid_ymd(c.0, c.1 + 1, 1) && spec_days_from_civil(c.0, c.1 + 1, 1) == days);
        } else {
            lemma_year_month_total(c.0);
            lemma_days_before_year_bounds(c.0);
            lemma_days_before_month_bounds(c.0, c.1);
            assert(valid_ymd(c.0 + 1, 1, 1) && spec_days_from_civil(c.0 + 1, 1, 1) == days);
        }
    }
}

/// The (unique) valid civil date of a day number in the supported window.
pub open spec fn spec_civil_of(days: int) -> (int, int, int) {
    choose|y: int, m: int, d: int|
        valid_ymd(y, m, d) && spec_days_from_civil(y, m, d) == days
}

/// In the supported window, `spec_civil_of` is a valid date with the given
/// day number, and it is the only one.
pub proof fn lemma_spec_civil_of(days: int)
    requires
        0 <= days <= 2939400,
    ensures
        valid_ymd(spec_civil_of(days).0, spec_civil_of(days).1, spec_civil_of(days).2),
        spec_days_from_civil(spec_civil_of(days).0, spec_civil_of(days).1, spec_civil_of(days).2)
            == days,
        forall|y: int, m: int, d: int|
            valid_ymd(y, m, d) && spec_days_from_civil(y, m, d) == days ==> spec_civil_of(days)
                == (y, m, d),
{
    lemma_civil_exists(days);
    let c = spec_civil_of(days);
    assert forall|y: int, m: int, d: int|
        valid_ymd(y, m, d) && spec_days_from_civil(y, m, d) == days implies spec_civil_of(days)
        == (y, m, d) by {
        lemma_days_from_civil_injective(c.0, c.1, c.2, y, m, d);
    }
}

/// Weekday (Monday = 1 .. Sunday = 7) of a day number.
pub fn weekday_from_days(days: i64) -> (r: u8)
    requires
        0 <= days <= 3000000000,
    ensures
        r == spec_weekday_from_days(days as int),
        1 <= r <= 7,
{
    ((days + 3) % 7 + 1) as u8
}

} // verus!
