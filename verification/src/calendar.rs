//! Calendar dates, as `chrono` holds them.

use chrono::NaiveDate;
use vstd::prelude::*;

verus! {

/// `chrono::NaiveDate`, carried through the library as an opaque value.
#[verifier::external_type_specification]
#[verifier::external_body]
pub struct ExNaiveDate(chrono::NaiveDate);

/// The first year that a date can lie in.
pub const MIN_YEAR: i32 = -262143;

/// The last year that a date can lie in.
pub const MAX_YEAR: i32 = 262142;

/// The year has a 29th of February, by the Gregorian rule carried back and forth
/// over all years.
pub open spec fn is_leap_year(year: int) -> bool {
    year % 4 == 0 && (year % 100 != 0 || year % 400 == 0)
}

/// The number of days of a month of a year.
pub open spec fn days_in_month(year: int, month: int) -> int {
    if month == 2 {
        if is_leap_year(year) {
            29
        } else {
            28
        }
    } else if month == 4 || month == 6 || month == 9 || month == 11 {
        30
    } else {
        31
    }
}

/// Year, month and day name a day of the calendar, in a year that a date can lie in.
pub open spec fn is_calendar_date(year: int, month: int, day: int) -> bool {
    &&& MIN_YEAR <= year <= MAX_YEAR
    &&& 1 <= month <= 12
    &&& 1 <= day <= days_in_month(year, month)
}

/// The date that `chrono::NaiveDate::from_ymd_opt` makes of a year, a month and a day.
pub uninterp spec fn date_from_ymd(year: int, month: int, day: int) -> Option<NaiveDate>;

/// Calls `chrono::NaiveDate::from_ymd_opt`. Trusted: the result depends on the three
/// numbers alone, and there is a date exactly when they name a day of the
/// calendar: the month is 1 to 12, the day is 1 to the length of that month, and
/// the year is one that a date can lie in.
#[verifier::external_body]
pub(crate) fn from_ymd_opt(year: i32, month: u32, day: u32) -> (date: Option<NaiveDate>)
    ensures
        date == date_from_ymd(year as int, month as int, day as int),
        date is Some <==> is_calendar_date(year as int, month as int, day as int),
{
    NaiveDate::from_ymd_opt(year, month, day)
}

} // verus!
