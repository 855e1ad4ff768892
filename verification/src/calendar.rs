//! Calendar months of UNIX timestamps, and the month count between two of them.
//!
//! Turning a timestamp into a year and a month of the proleptic Gregorian
//! calendar is left to `chrono`; everything after that is integer arithmetic
//! on the pair.

use vstd::prelude::*;
use chrono::Datelike;
use chrono::NaiveDateTime;
use crate::errors::VestingErrors;

verus! {

/// The earliest timestamp the calendar can place: midnight of 1 January of
/// the year -262143.
pub const MIN_TIMESTAMP: i64 = -8_334_601_228_800;

/// The latest timestamp the calendar can place: the last second of
/// 31 December of the year 262142.
pub const MAX_TIMESTAMP: i64 = 8_210_266_876_799;

/// The earliest calendar year.
pub const MIN_YEAR: i32 = -262_143;

/// The latest calendar year.
pub const MAX_YEAR: i32 = 262_142;

/// The calendar year (UTC) in which the timestamp `secs` falls.
pub uninterp spec fn utc_year(secs: i64) -> int;

/// The calendar month (UTC, January is 1) in which the timestamp `secs` falls.
pub uninterp spec fn utc_month(secs: i64) -> int;

/// Whether `secs` can be placed in the calendar at all.
pub open spec fn timestamp_in_range(secs: i64) -> bool {
    MIN_TIMESTAMP <= secs <= MAX_TIMESTAMP
}

/// A year and a month of that year.
#[derive(Clone, Copy, Debug, PartialEq, Eq, Structural)]
pub struct YearMonth {
    pub year: i32,
    pub month: u32,
}

impl YearMonth {
    /// The month is one of the twelve and the year lies within the calendar.
    pub open spec fn wf(self) -> bool {
        &&& 1 <= self.month <= 12
        &&& MIN_YEAR <= self.year <= MAX_YEAR
    }
}

/// The calendar month in which `secs` falls.
pub open spec fn year_month_of(secs: i64) -> YearMonth {
    YearMonth { year: utc_year(secs) as i32, month: utc_month(secs) as u32 }
}

/// `(year(b) - year(a)) * 12 + (month(b) - month(a))`: how many month
/// boundaries lie between `a` and `b`. Days play no part.
pub open spec fn month_distance(a: YearMonth, b: YearMonth) -> int {
    (b.year - a.year) * 12 + (b.month - a.month)
}

/// The month distance between the calendar months of two timestamps.
pub open spec fn months_between_spec(a: i64, b: i64) -> int {
    month_distance(year_month_of(a), year_month_of(b))
}

/// What [`months_between`] returns for the calendar months `a` and `b`.
pub open spec fn month_count(a: YearMonth, b: YearMonth) -> Result<u32, VestingErrors> {
    let d = month_distance(a, b);
    if 0 <= d <= u32::MAX {
        Ok(d as u32)
    } else {
        Err(VestingErrors::OverflowError)
    }
}

/// What [`months_between_timestamps`] returns for the timestamps `a` and `b`.
pub open spec fn timestamp_month_count(a: i64, b: i64) -> Result<u32, VestingErrors> {
    if !timestamp_in_range(a) || !timestamp_in_range(b) {
        Err(VestingErrors::InvalidTimeStamp)
    } else {
        month_count(year_month_of(a), year_month_of(b))
    }
}

/// Calls `chrono::NaiveDateTime::from_timestamp_opt(secs, 0)` and reads the
/// result with `Datelike::year` and `Datelike::month`.
///
/// Taken on trust: a date comes back exactly for the timestamps from
/// [`MIN_TIMESTAMP`] to [`MAX_TIMESTAMP`]; its year and month are those the
/// calendar assigns to `secs`, the month between 1 and 12 and the year
/// between [`MIN_YEAR`] and [`MAX_YEAR`].
#[verifier::external_body]
fn utc_year_month(secs: i64) -> (r: Option<(i32, u32)>)
    ensures
        r.is_some() <==> timestamp_in_range(secs),
        r matches Some((y, m)) ==> {
            &&& y == utc_year(secs)
            &&& m == utc_month(secs)
            &&& MIN_YEAR <= y <= MAX_YEAR
            &&& 1 <= m <= 12
        },
{
    #[allow(deprecated)]
    match NaiveDateTime::from_timestamp_opt(secs, 0) {
        Some(date) => Some((date.year(), date.month())),
        None => None,
    }
}

/// The calendar month of a timestamp, or `None` when the timestamp lies
/// outside the calendar.
pub fn year_month(secs: i64) -> (r: Option<YearMonth>)
    ensures
        r.is_some() <==> timestamp_in_range(secs),
        r matches Some(ym) ==> ym == year_month_of(secs) && ym.wf(),
{
    match utc_year_month(secs) {
        Some((year, month)) => Some(YearMonth { year, month }),
        None => None,
    }
}

/// The months from `a` to `b` as a signed distance: negative when `b` lies
/// in an earlier month than `a`.
pub fn months_apart(a: YearMonth, b: YearMonth) -> (d: i64)
    ensures
        d == month_distance(a, b),
{
    let years: i64 = b.year as i64 - a.year as i64;
    let months: i64 = b.month as i64 - a.month as i64;
    years * 12 + months
}

/// The number of months from `a` to `b`, by calendar month alone, as an
/// unsigned count.
///
/// Fails with `OverflowError` when `b` lies in an earlier month than `a`, or
/// the count does not fit in 32 bits.
pub fn months_between(a: YearMonth, b: YearMonth) -> (r: Result<u32, VestingErrors>)
    ensures
        r == month_count(a, b),
{
    let d: i64 = months_apart(a, b);
    if 0 <= d && d <= u32::MAX as i64 {
        Ok(d as u32)
    } else {
        Err(VestingErrors::OverflowError)
    }
}

/// The number of months from the month of timestamp `a` to that of `b`.
///
/// Fails with `InvalidTimeStamp` when either timestamp lies outside the
/// calendar, else as [`months_between`] does.
pub fn months_between_timestamps(a: i64, b: i64) -> (r: Result<u32, VestingErrors>)
    ensures
        r == timestamp_month_count(a, b),
{
    let from = match year_month(a) {
        Some(ym) => ym,
        None => {
            return Err(VestingErrors::InvalidTimeStamp);
        },
    };
    let to = match year_month(b) {
        Some(ym) => ym,
        None => {
            return Err(VestingErrors::InvalidTimeStamp);
        },
    };
    months_between(from, to)
}

} // verus!
