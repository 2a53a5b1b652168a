//! Calendar dates in the proleptic Gregorian calendar, read from text and
//! stepped back by a day.
use vstd::prelude::*;

use chrono::Datelike;

verus! {

/// The earliest year that the date arithmetic below can represent.
pub const EARLIEST_YEAR: i32 = -262143;

/// The latest year that the date arithmetic below can represent.
pub const LATEST_YEAR: i32 = 262142;

/// A calendar day, held as year, month (1 to 12) and day of the month.
#[derive(Clone, Copy, Debug, PartialEq, Eq, Structural)]
pub struct CalendarDate {
    pub year: i32,
    pub month: u32,
    pub day: u32,
}

pub open spec fn is_leap_year(year: int) -> bool {
    year % 4 == 0 && (year % 100 != 0 || year % 400 == 0)
}

pub open spec fn days_in_month(year: int, month: int) -> int {
    if month == 2 {
        if is_leap_year(year) { 29 } else { 28 }
    } else if month == 4 || month == 6 || month == 9 || month == 11 {
        30
    } else {
        31
    }
}

impl CalendarDate {
    /// The date names a day that exists, within the representable years.
    pub open spec fn is_valid(self) -> bool {
        &&& EARLIEST_YEAR <= self.year <= LATEST_YEAR
        &&& 1 <= self.month <= 12
        &&& 1 <= self.day <= days_in_month(self.year as int, self.month as int)
    }

    /// The first day that can be represented: it has no predecessor.
    pub open spec fn is_earliest(self) -> bool {
        self.year == EARLIEST_YEAR && self.month == 1 && self.day == 1
    }

    /// The calendar day before this one.
    pub open spec fn prev(self) -> CalendarDate {
        if self.day > 1 {
            CalendarDate { year: self.year, month: self.month, day: (self.day - 1) as u32 }
        } else if self.month > 1 {
            CalendarDate {
                year: self.year,
                month: (self.month - 1) as u32,
                day: days_in_month(self.year as int, self.month - 1) as u32,
            }
        } else {
            CalendarDate { year: (self.year - 1) as i32, month: 12, day: 31 }
        }
    }

    /// The calendar day after this one.
    pub open spec fn next(self) -> CalendarDate {
        if self.day < days_in_month(self.year as int, self.month as int) {
            CalendarDate { year: self.year, month: self.month, day: (self.day + 1) as u32 }
        } else if self.month < 12 {
            CalendarDate { year: self.year, month: (self.month + 1) as u32, day: 1 }
        } else {
            CalendarDate { year: (self.year + 1) as i32, month: 1, day: 1 }
        }
    }
}

/// The date that a `YYYY-MM-DD` pattern reads from a text, if any.
pub uninterp spec fn parsed_date(s: Seq<char>) -> Option<CalendarDate>;

/// The pattern in which dates are written: year, month and day, joined by `-`.
pub const DATE_PATTERN: &'static str = "%Y-%m-%d";

/// Reads a date in the `%Y-%m-%d` pattern.
///
/// Relies on `chrono::NaiveDate::parse_from_str`: the result depends on the
/// text alone, and is always a day that exists within chrono's range of years.
#[verifier::external_body]
pub(crate) fn parse_date(s: &str, pattern: &str) -> (r: Option<CalendarDate>)
    requires
        pattern@ == DATE_PATTERN@,
    ensures
        r == parsed_date(s@),
        r matches Some(d) ==> d.is_valid(),
{
    match chrono::NaiveDate::parse_from_str(s, pattern) {
        Ok(d) => Some(CalendarDate { year: d.year(), month: d.month(), day: d.day() }),
        Err(_) => None,
    }
}

/// The day before `d`.
///
/// Relies on `chrono::NaiveDate::from_ymd_opt` and `pred_opt`: the previous
/// calendar day, absent only before the earliest representable date.
#[verifier::external_body]
pub(crate) fn day_before(d: CalendarDate) -> (r: Option<CalendarDate>)
    requires
        d.is_valid(),
    ensures
        r == (if d.is_earliest() { None } else { Some(d.prev()) }),
{
    match chrono::NaiveDate::from_ymd_opt(d.year, d.month, d.day) {
        Some(x) => match x.pred_opt() {
            Some(p) => Some(CalendarDate { year: p.year(), month: p.month(), day: p.day() }),
            None => None,
        },
        None => None,
    }
}

/// The current time in RFC 3339 form.
///
/// Relies on `chrono::Utc::now` and `DateTime::to_rfc3339`; the result
/// depends on the clock, so nothing is promised of it.
#[verifier::external_body]
pub(crate) fn now_timestamp() -> (r: String) {
    chrono::Utc::now().to_rfc3339()
}

/// Stepping a day forward and then back returns to the same day.
pub proof fn lemma_prev_of_next(d: CalendarDate)
    requires
        d.is_valid(),
        d.next().is_valid(),
    ensures
        d.next().prev() == d,
        !d.next().is_earliest(),
{
}

} // verus!
