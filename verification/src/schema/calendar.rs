//! The proleptic Gregorian calendar, as far as the host's constructors need it.

use vstd::prelude::*;

verus! {

/// Whether `year` has a 29th of February. Years are numbered astronomically:
/// year 0 comes before year 1 and is a leap year.
pub open spec fn is_leap_year(year: int) -> bool {
    year % 4 == 0 && (year % 100 != 0 || year % 400 == 0)
}

/// The number of days of `month` in `year`; 0 where `month` is no month.
pub open spec fn days_in_month(year: int, month: int) -> int {
    if month < 1 || month > 12 {
        0
    } else if month == 2 {
        if is_leap_year(year) {
            29
        } else {
            28
        }
    } else if month == 4 || month == 6 || month == 9 || month == 11 {
        30
    } else {
        31
    }
}

/// Whether the three fields name a day of the calendar.
pub open spec fn is_calendar_date(year: int, month: int, day: int) -> bool {
    1 <= month <= 12 && 1 <= day <= days_in_month(year, month)
}

/// Whether `year` has a 29th of February.
pub fn leap_year(year: i32) -> (leap: bool)
    ensures
        leap == is_leap_year(year as int),
{
    // 2_147_484_000 is a multiple of 400 above every `i32` in magnitude, so the
    // shifted year is never negative and has the same remainders.
    let shifted: i64 = year as i64 + 2_147_484_000i64;
    assert(shifted % 4 == (year as int) % 4 && shifted % 100 == (year as int) % 100 && shifted % 400
        == (year as int) % 400) by {
        assert(2_147_484_000int == 400 * 5_368_710);
    }
    shifted % 4 == 0 && (shifted % 100 != 0 || shifted % 400 == 0)
}

/// The number of days of `month` in `year`; 0 where `month` is no month.
pub fn month_length(year: i32, month: u8) -> (days: u8)
    ensures
        days == days_in_month(year as int, month as int),
{
    if month < 1 || month > 12 {
        0
    } else if month == 2 {
        if leap_year(year) {
            29
        } else {
            28
        }
    } else if month == 4 || month == 6 || month == 9 || month == 11 {
        30
    } else {
        31
    }
}

/// Whether the three fields name a day of the calendar.
pub fn calendar_date(year: i32, month: u8, day: u8) -> (valid: bool)
    ensures
        valid == is_calendar_date(year as int, month as int, day as int),
{
    1 <= month && month <= 12 && 1 <= day && day <= month_length(year, month)
}

} // verus!
