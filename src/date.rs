//! Collapsing a partial remote date into a calendar date.

use vstd::prelude::*;
use chrono::Datelike;
use crate::anilist_models::Date;

verus! {

/// Smallest year that chrono's `NaiveDate` represents.
pub const MIN_YEAR: i32 = -262143;

/// Largest year that chrono's `NaiveDate` represents.
pub const MAX_YEAR: i32 = 262142;

/// A day of the proleptic Gregorian calendar.
#[derive(Clone, Copy, Debug, PartialEq, Eq, Hash)]
pub struct CalendarDate {
    pub year: i32,
    pub month: u32,
    pub day: u32,
}

/// Raised when a date has all three parts but names no existing day.
#[derive(Clone, Copy, Debug, PartialEq, Eq)]
pub struct InvalidDateError {
    pub year: i32,
    pub month: i32,
    pub day: i32,
}

pub open spec fn is_leap_year(y: int) -> bool {
    y % 4 == 0 && (y % 100 != 0 || y % 400 == 0)
}

pub open spec fn days_in_month(y: int, m: int) -> int {
    if m == 2 {
        if is_leap_year(y) { 29 } else { 28 }
    } else if m == 4 || m == 6 || m == 9 || m == 11 {
        30
    } else {
        31
    }
}

/// Whether year, month and day name an existing day within chrono's range.
pub open spec fn valid_ymd(y: int, m: int, d: int) -> bool {
    &&& MIN_YEAR <= y <= MAX_YEAR
    &&& 1 <= m <= 12
    &&& 1 <= d <= days_in_month(y, m)
}

impl CalendarDate {
    pub open spec fn wf(&self) -> bool {
        valid_ymd(self.year as int, self.month as int, self.day as int)
    }
}

/// What a partial date collapses to: `Ok(None)` when a part is missing,
/// `Ok(Some(_))` for an existing day, `Err(())` for an impossible one.
pub open spec fn normalized(d: Date) -> Result<Option<CalendarDate>, ()> {
    match (d.year, d.month, d.day) {
        (Some(y), Some(m), Some(dd)) => if valid_ymd(y as int, m as int, dd as int) {
            Ok(Some(CalendarDate { year: y, month: m as u32, day: dd as u32 }))
        } else {
            Err(())
        },
        _ => Ok(None),
    }
}

/// Relies on chrono's `NaiveDate::from_ymd_opt`, which gives a date exactly when
/// the three parts name an existing day in its year range, and on that date
/// keeping the parts it was made from.
#[verifier::external_body]
fn chrono_date(year: i32, month: u32, day: u32) -> (r: Option<CalendarDate>)
    ensures
        r == (if valid_ymd(year as int, month as int, day as int) {
            Some(CalendarDate { year, month, day })
        } else {
            None
        }),
{
    match chrono::NaiveDate::from_ymd_opt(year, month, day) {
        Some(d) => Some(CalendarDate { year: d.year(), month: d.month(), day: d.day() }),
        None => None,
    }
}

/// Collapses a partial date: a date only when year, month and day are all
/// present, an error when they are present but name no existing day.
pub fn construct_date(date: &Date) -> (r: Result<Option<CalendarDate>, InvalidDateError>)
    ensures
        r is Ok <==> normalized(*date) is Ok,
        r is Ok ==> r->Ok_0 == normalized(*date)->Ok_0,
        r matches Ok(Some(c)) ==> c.wf(),
        r matches Err(e) ==> date.year == Some(e.year) && date.month == Some(e.month)
            && date.day == Some(e.day),
{
    match (date.year, date.month, date.day) {
        (Some(y), Some(m), Some(d)) => {
            if m < 1 || d < 1 {
                return Err(InvalidDateError { year: y, month: m, day: d });
            }
            match chrono_date(y, m as u32, d as u32) {
                Some(c) => Ok(Some(c)),
                None => Err(InvalidDateError { year: y, month: m, day: d }),
            }
        },
        _ => Ok(None),
    }
}

} // verus!
