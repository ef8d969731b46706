use chrono::NaiveDate;
use pg_lakehouse::schema::calendar::{calendar_date, leap_year, month_length};

#[test]
fn leap_years_follow_the_gregorian_rule() {
    assert!(leap_year(2024));
    assert!(!leap_year(2023));
    assert!(!leap_year(1900));
    assert!(leap_year(2000));
    assert!(!leap_year(2100));
}

#[test]
fn year_zero_and_years_before_it_are_counted_on() {
    assert!(leap_year(0));
    assert!(leap_year(-4));
    assert!(!leap_year(-1));
    assert!(!leap_year(-100));
    assert!(leap_year(-400));
}

#[test]
fn leap_year_at_the_ends_of_the_year_range() {
    assert!(leap_year(i32::MIN));
    assert!(!leap_year(i32::MAX));
}

#[test]
fn month_lengths_of_a_common_year() {
    let lengths: Vec<u8> = (1..=12).map(|month| month_length(2023, month)).collect();
    assert_eq!(lengths, vec![31, 28, 31, 30, 31, 30, 31, 31, 30, 31, 30, 31]);
}

#[test]
fn february_of_a_leap_year_has_29_days() {
    assert_eq!(month_length(2024, 2), 29);
    assert_eq!(month_length(2000, 2), 29);
    assert_eq!(month_length(1900, 2), 28);
}

#[test]
fn no_month_has_no_days() {
    assert_eq!(month_length(2024, 0), 0);
    assert_eq!(month_length(2024, 13), 0);
    assert_eq!(month_length(2024, 255), 0);
}

#[test]
fn calendar_date_takes_the_last_day_and_not_the_one_after() {
    assert!(calendar_date(2024, 2, 29));
    assert!(!calendar_date(2023, 2, 29));
    assert!(calendar_date(2023, 12, 31));
    assert!(!calendar_date(2023, 11, 31));
    assert!(!calendar_date(2023, 4, 0));
    assert!(!calendar_date(2023, 0, 1));
    assert!(!calendar_date(2023, 13, 1));
}

#[test]
fn calendar_agrees_with_chrono_on_every_day_number() {
    for year in [-401, -400, -4, -1, 0, 1, 4, 100, 400, 1900, 2000, 2023, 2024] {
        for month in 0u8..=13 {
            for day in 0u8..=32 {
                let known = NaiveDate::from_ymd_opt(year, u32::from(month), u32::from(day));
                assert_eq!(calendar_date(year, month, day), known.is_some());
            }
        }
    }
}
