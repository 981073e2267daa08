use vstd::prelude::*;

use chrono::Datelike;

use crate::errors::ErrorCode;

verus! {

/// The civil date (proleptic Gregorian calendar, UTC) that a UNIX
/// timestamp falls on, as (year, month, day).  Names the result of the
/// calendar library's timestamp-to-date conversion, which depends on the
/// timestamp alone.
pub uninterp spec fn civil_of_timestamp(t: i64) -> (int, int, int);

/// The UNIX timestamp of midnight UTC on a civil date.  Names the result
/// of the calendar library's date-to-timestamp conversion, which depends
/// on the date alone.
pub uninterp spec fn timestamp_of_civil(y: int, m: int, d: int) -> i64;

/// Whether (y, m, d) is a real calendar date within the calendar
/// library's supported year range.  Names the success condition of the
/// library's date constructor, which depends on the date alone.
pub uninterp spec fn civil_date_valid(y: int, m: int, d: int) -> bool;

/// The first civil date falls strictly before the second, in calendar
/// order: an earlier year, or the same year and an earlier month, or the
/// same month and an earlier day.
pub open spec fn civil_earlier(y1: int, m1: int, d1: int, y2: int, m2: int, d2: int) -> bool {
    y1 < y2 || (y1 == y2 && (m1 < m2 || (m1 == m2 && d1 < d2)))
}

/// Relies on chrono's `DateTime::<Utc>::from_timestamp` and the `Datelike`
/// accessors.  The conversion is a function of the timestamp alone and
/// fails only outside chrono's roughly 262,000-year range, so every
/// timestamp from 1970 through year 9999 converts, to a real month and
/// day and a year in that window.  The returned date is the civil day the
/// timestamp falls on: a real calendar date whose midnight is at most the
/// timestamp, which in turn lies within the day's 86,400 non-leap
/// seconds.
#[verifier::external_body]
fn timestamp_to_civil(t: i64) -> (r: Option<(i32, u32, u32)>)
    ensures
        r matches Some(ymd) ==> (ymd.0 as int, ymd.1 as int, ymd.2 as int) == civil_of_timestamp(
            t,
        ),
        r matches Some(ymd) ==> 1 <= ymd.1 <= 12 && 1 <= ymd.2 <= 31,
        0 <= t <= 253_402_300_799 ==> r is Some,
        r matches Some(ymd) ==> (0 <= t <= 253_402_300_799 ==> 1970 <= ymd.0 <= 9999),
        r matches Some(ymd) ==> civil_date_valid(ymd.0 as int, ymd.1 as int, ymd.2 as int),
        r matches Some(ymd) ==> timestamp_of_civil(ymd.0 as int, ymd.1 as int, ymd.2 as int) <= t
            && t < timestamp_of_civil(ymd.0 as int, ymd.1 as int, ymd.2 as int) + 86_400,
{
    let dt = chrono::DateTime::<chrono::Utc>::from_timestamp(t, 0)?;
    Some((dt.year(), dt.month(), dt.day()))
}

/// Relies on chrono's `NaiveDate::from_ymd_opt`, `NaiveDate::and_hms_opt`
/// and `DateTime::timestamp`.  The timestamp of midnight on a civil date
/// is a function of the date alone; the date constructor succeeds exactly
/// on real calendar dates within chrono's year range, and every month has
/// at least 28 days, so any (year, month, day) with the day at most 28
/// and the year well inside that range is real.  Timestamps count 86,400
/// non-leap seconds per day, so the midnight of any strictly earlier real
/// date lies at least one whole day before the returned midnight.
#[verifier::external_body]
fn civil_to_timestamp(y: i32, m: u32, d: u32) -> (r: Option<i64>)
    ensures
        r is Some == civil_date_valid(y as int, m as int, d as int),
        r matches Some(ts) ==> ts == timestamp_of_civil(y as int, m as int, d as int),
        1 <= m <= 12 && 1 <= d <= 28 && -262_000 <= y <= 262_000 ==> r is Some,
        r matches Some(ts) ==> forall|y2: int, m2: int, d2: int|
            civil_date_valid(y2, m2, d2) && civil_earlier(
                y2,
                m2,
                d2,
                y as int,
                m as int,
                d as int,
            ) ==> #[trigger] timestamp_of_civil(y2, m2, d2) + 86_400 <= ts,
{
    let date = chrono::NaiveDate::from_ymd_opt(y, m, d)?;
    let datetime = date.and_hms_opt(0, 0, 0)?;
    Some(datetime.and_utc().timestamp())
}

/// The month after month `m`, wrapping December to January.
pub open spec fn next_month_of(m: int) -> int {
    m % 12 + 1
}

/// The year of the month after (`y`, `m`): the next year exactly when the
/// month wraps.
pub open spec fn next_year_of(y: int, m: int) -> int {
    if m % 12 + 1 == 1 {
        y + 1
    } else {
        y
    }
}

/// The monthly due date following `t`: the same calendar day in the next
/// month, at midnight UTC, falling back to day 28 when the next month has
/// no such day.
pub open spec fn monthly_due_date(t: i64) -> int {
    let ymd = civil_of_timestamp(t);
    let ny = next_year_of(ymd.0, ymd.1);
    let nm = next_month_of(ymd.1);
    if civil_date_valid(ny, nm, ymd.2) {
        timestamp_of_civil(ny, nm, ymd.2) as int
    } else {
        timestamp_of_civil(ny, nm, 28) as int
    }
}

/// Advance a monthly payment date by one calendar month, keeping the same
/// day of the month when the next month has it and clamping to the 28th
/// otherwise, at midnight UTC.  The result is always strictly later than
/// the date it advances.  Fails with `InvalidTimestamp` only when the
/// date falls outside the supported calendar range; any date from 1970
/// through year 9999 succeeds.
pub fn keep_same_day_for_payment(last_payment_date: i64) -> (r: Result<i64, ErrorCode>)
    ensures
        r matches Ok(v) ==> v == monthly_due_date(last_payment_date),
        r matches Ok(v) ==> v > last_payment_date,
        r is Err ==> r == Err::<i64, ErrorCode>(ErrorCode::InvalidTimestamp),
        0 <= last_payment_date <= 253_402_300_799 ==> r is Ok,
{
    let (y, m, d) = match timestamp_to_civil(last_payment_date) {
        Some(ymd) => ymd,
        None => {
            return Err(ErrorCode::InvalidTimestamp);
        },
    };
    if y >= 262_000 || y <= -262_000 {
        return Err(ErrorCode::InvalidTimestamp);
    }
    let next_month: u32 = m % 12 + 1;
    let next_year: i32 = if next_month == 1 {
        y + 1
    } else {
        y
    };
    proof {
        assert(civil_earlier(
            y as int,
            m as int,
            d as int,
            next_year as int,
            next_month as int,
            d as int,
        ));
        assert(civil_earlier(
            y as int,
            m as int,
            d as int,
            next_year as int,
            next_month as int,
            28,
        ));
    }
    match civil_to_timestamp(next_year, next_month, d) {
        Some(ts) => {
            proof {
                assert(timestamp_of_civil(y as int, m as int, d as int) + 86_400 <= ts);
            }
            Ok(ts)
        },
        None => match civil_to_timestamp(next_year, next_month, 28) {
            Some(ts) => {
                proof {
                    assert(timestamp_of_civil(y as int, m as int, d as int) + 86_400 <= ts);
                }
                Ok(ts)
            },
            None => Err(ErrorCode::InvalidTimestamp),
        },
    }
}

} // verus!
