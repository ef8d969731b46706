//! Civil dates and times, and their conversion into the host's scalars.
//!
//! A timestamp keeps whole seconds only: the fraction of the civil value is
//! cut off, not rounded. A time of day keeps its fraction. The two paths
//! differ on purpose.

use super::calendar::days_in_month;
use super::host::{
    whole_seconds_cut_the_fraction, CalendarDate, DateTimeConversionError, HostDate, HostTime,
    HostTimestamp, HostZonedTimestamp, TimeOfDay, TimestampFields, ZonedTimestampFields,
};
use chrono::{Datelike, NaiveDate, NaiveDateTime, NaiveTime, Timelike};
use vstd::prelude::*;
use vstd::std_specs::convert::TryFromSpecImpl;

verus! {

const NANOSECONDS_IN_SECOND: u32 = 1_000_000_000;

/// `chrono::NaiveDate`, a calendar date. Nothing is known of what it holds
/// but what the functions below read from it.
#[verifier::external_type_specification]
#[verifier::external_body]
pub struct ExNaiveDate(NaiveDate);

/// `chrono::NaiveTime`, a time of day. Nothing is known of what it holds but
/// what the functions below read from it.
#[verifier::external_type_specification]
#[verifier::external_body]
pub struct ExNaiveTime(NaiveTime);

/// `chrono::NaiveDateTime`, a date and a time of day. Nothing is known of what
/// it holds but what the functions below read from it.
#[verifier::external_type_specification]
#[verifier::external_body]
pub struct ExNaiveDateTime(NaiveDateTime);

/// The year that `chrono::Datelike::year` gives for a date.
pub uninterp spec fn year_of(date: NaiveDate) -> i32;

/// The month that `chrono::Datelike::month` gives for a date.
pub uninterp spec fn month_of(date: NaiveDate) -> u32;

/// The day of the month that `chrono::Datelike::day` gives for a date.
pub uninterp spec fn day_of(date: NaiveDate) -> u32;

/// The hour that `chrono::Timelike::hour` gives for a time of day.
pub uninterp spec fn hour_of(time: NaiveTime) -> u32;

/// The minute that `chrono::Timelike::minute` gives for a time of day.
pub uninterp spec fn minute_of(time: NaiveTime) -> u32;

/// The second that `chrono::Timelike::second` gives for a time of day.
pub uninterp spec fn second_of(time: NaiveTime) -> u32;

/// The nanoseconds that `chrono::Timelike::nanosecond` gives for a time of day.
pub uninterp spec fn nanosecond_of(time: NaiveTime) -> u32;

/// The date that `chrono::NaiveDateTime::date` gives for a date and time.
pub uninterp spec fn date_of(datetime: NaiveDateTime) -> NaiveDate;

/// The time of day that `chrono::NaiveDateTime::time` gives for a date and time.
pub uninterp spec fn time_of(datetime: NaiveDateTime) -> NaiveTime;

/// `chrono::Datelike::year` on a `NaiveDate`: the year of the calendar date,
/// the same for the same date.
#[verifier::external_body]
fn date_year(date: &NaiveDate) -> (year: i32)
    ensures
        year == year_of(*date),
{
    date.year()
}

/// `chrono::Datelike::month` on a `NaiveDate`: the number of the month, from 1
/// to 12, the same for the same date.
#[verifier::external_body]
fn date_month(date: &NaiveDate) -> (month: u32)
    ensures
        month == month_of(*date),
        1 <= month <= 12,
{
    date.month()
}

/// `chrono::Datelike::day` on a `NaiveDate`: the day of the month, from 1 to
/// the last day that the month has in the year of the date, the same for the
/// same date. A `NaiveDate` is a day of the proleptic Gregorian calendar.
#[verifier::external_body]
fn date_day(date: &NaiveDate) -> (day: u32)
    ensures
        day == day_of(*date),
        1 <= day <= days_in_month(year_of(*date) as int, month_of(*date) as int),
{
    date.day()
}

/// `chrono::Timelike::hour` on a `NaiveTime`: the hour, from 0 to 23, the same
/// for the same time.
#[verifier::external_body]
fn time_hour(time: &NaiveTime) -> (hour: u32)
    ensures
        hour == hour_of(*time),
        hour <= 23,
{
    time.hour()
}

/// `chrono::Timelike::minute` on a `NaiveTime`: the minute, from 0 to 59, the
/// same for the same time.
#[verifier::external_body]
fn time_minute(time: &NaiveTime) -> (minute: u32)
    ensures
        minute == minute_of(*time),
        minute <= 59,
{
    time.minute()
}

/// `chrono::Timelike::second` on a `NaiveTime`: the second, from 0 to 59 (a
/// leap second shows in the nanoseconds, never as 60), the same for the same
/// time.
#[verifier::external_body]
fn time_second(time: &NaiveTime) -> (second: u32)
    ensures
        second == second_of(*time),
        second <= 59,
{
    time.second()
}

/// `chrono::Timelike::nanosecond` on a `NaiveTime`: the nanoseconds since the
/// whole second, below 2,000,000,000 (from 1,000,000,000 on it is a leap
/// second), the same for the same time.
#[verifier::external_body]
fn time_nanosecond(time: &NaiveTime) -> (nanosecond: u32)
    ensures
        nanosecond == nanosecond_of(*time),
        nanosecond <= 1_999_999_999,
{
    time.nanosecond()
}

/// `chrono::NaiveDateTime::date`: the date component, the same for the same
/// date and time.
#[verifier::external_body]
fn datetime_date(datetime: &NaiveDateTime) -> (date: NaiveDate)
    ensures
        date == date_of(*datetime),
{
    datetime.date()
}

/// `chrono::NaiveDateTime::time`: the time component, the same for the same
/// date and time.
#[verifier::external_body]
fn datetime_time(datetime: &NaiveDateTime) -> (time: NaiveTime)
    ensures
        time == time_of(*datetime),
{
    datetime.time()
}

/// The fields of a date.
pub open spec fn civil_date(date: NaiveDate) -> CalendarDate {
    CalendarDate {
        year: year_of(date) as int,
        month: month_of(date) as int,
        day: day_of(date) as int,
    }
}

/// The fields of a time of day.
pub open spec fn civil_time(time: NaiveTime) -> TimeOfDay {
    TimeOfDay {
        hour: hour_of(time) as int,
        minute: minute_of(time) as int,
        second: second_of(time) as int,
        nanosecond: nanosecond_of(time) as int,
    }
}

/// A day of the calendar and a time on it.
pub struct CivilDateTime {
    pub date: CalendarDate,
    pub time: TimeOfDay,
}

impl CivilDateTime {
    /// The fields that a timestamp keeps: the seconds lose their fraction.
    pub open spec fn truncated(self) -> TimestampFields {
        TimestampFields {
            date: self.date,
            hour: self.time.hour,
            minute: self.time.minute,
            second: self.time.whole_seconds(),
        }
    }
}

/// The two paths differ in the seconds alone. Of one date and time, the
/// timestamp and the time of day have the same hour and minute; the time of
/// day keeps second and nanoseconds as they are, and the timestamp keeps the
/// whole seconds of them, so that the two are less than a second apart.
pub proof fn timestamp_keeps_the_whole_seconds_of_the_time(datetime: CivilDateTime)
    ensures
        datetime.truncated().date == datetime.date,
        datetime.truncated().hour == datetime.time.hour,
        datetime.truncated().minute == datetime.time.minute,
        datetime.truncated().second == datetime.time.second_nanos() / 1_000_000_000,
        0 <= datetime.time.second_nanos() - datetime.truncated().second * 1_000_000_000
            < 1_000_000_000,
{
    whole_seconds_cut_the_fraction(datetime.time);
}

/// The fields of a date and time.
pub open spec fn civil_datetime(datetime: NaiveDateTime) -> CivilDateTime {
    CivilDateTime { date: civil_date(date_of(datetime)), time: civil_time(time_of(datetime)) }
}

/// A date and time as read in a time zone, and the name of that zone.
pub struct ZonedDateTime {
    pub datetime: CivilDateTime,
    pub timezone: Seq<char>,
}

/// A calendar date without a time zone.
#[derive(Clone, Copy, Debug)]
pub struct Date(pub NaiveDate);

/// A date and time without a time zone.
#[derive(Clone, Copy, Debug)]
pub struct DateTimeNoTz(pub NaiveDateTime);

/// A time of day, to the nanosecond.
#[derive(Clone, Copy, Debug)]
pub struct Time(pub NaiveTime);

/// A date and time as read in a time zone, with the name of the zone.
#[derive(Debug)]
pub struct DateTimeTz {
    datetime: NaiveDateTime,
    tz: String,
}

impl View for Date {
    type V = CalendarDate;

    open spec fn view(&self) -> CalendarDate {
        civil_date(self.0)
    }
}

impl View for DateTimeNoTz {
    type V = CivilDateTime;

    open spec fn view(&self) -> CivilDateTime {
        civil_datetime(self.0)
    }
}

impl View for Time {
    type V = TimeOfDay;

    open spec fn view(&self) -> TimeOfDay {
        civil_time(self.0)
    }
}

impl View for DateTimeTz {
    type V = ZonedDateTime;

    closed spec fn view(&self) -> ZonedDateTime {
        ZonedDateTime { datetime: civil_datetime(self.datetime), timezone: self.tz@ }
    }
}

impl Clone for DateTimeTz {
    fn clone(&self) -> (copy: Self)
        ensures
            copy@ == self@,
            copy.local() == self.local(),
    {
        DateTimeTz { datetime: self.datetime, tz: self.tz.clone() }
    }
}

impl DateTimeTz {
    /// The date and time held, as read in the zone.
    pub closed spec fn local(&self) -> NaiveDateTime {
        self.datetime
    }

    /// The name of the zone, as the string that holds it.
    pub closed spec fn zone(&self) -> String {
        self.tz
    }

    /// `datetime`, the local date and time in the zone named `tz`. The name is
    /// kept as it is given.
    pub fn new(datetime: NaiveDateTime, tz: &str) -> (zoned: Self)
        ensures
            zoned.local() == datetime,
            zoned@ == (ZonedDateTime { datetime: civil_datetime(datetime), timezone: tz@ }),
    {
        Self { datetime, tz: tz.to_owned() }
    }

    /// The local date and time.
    pub fn datetime(&self) -> (datetime: NaiveDateTime)
        ensures
            datetime == self.local(),
            civil_datetime(datetime) == self@.datetime,
    {
        self.datetime
    }

    /// The name of the time zone.
    pub fn tz(&self) -> (tz: String)
        ensures
            tz@ == self@.timezone,
    {
        self.tz.clone()
    }
}

/// The seconds field of a timestamp: the second of `time`, and one more from
/// the nanoseconds of a leap second. What is below a whole second is dropped.
fn whole_seconds(time: &NaiveTime) -> (second: u32)
    ensures
        second == civil_time(*time).whole_seconds(),
        second <= 60,
{
    time_second(time) + time_nanosecond(time) / NANOSECONDS_IN_SECOND
}

impl TryFrom<DateTimeNoTz> for HostTimestamp {
    type Error = DateTimeConversionError;

    /// The host timestamp of the date, hour and minute of `datetime` and of its
    /// whole seconds. It is made of every `datetime`.
    fn try_from(datetime: DateTimeNoTz) -> (made: Result<HostTimestamp, DateTimeConversionError>)
        ensures
            made matches Ok(host) && host@ == datetime@.truncated(),
    {
        let DateTimeNoTz(datetime) = datetime;
        let date = datetime_date(&datetime);
        let time = datetime_time(&datetime);
        HostTimestamp::new(
            date_year(&date),
            date_month(&date) as u8,
            date_day(&date) as u8,
            time_hour(&time) as u8,
            time_minute(&time) as u8,
            whole_seconds(&time),
        )
    }
}

impl TryFromSpecImpl<DateTimeNoTz> for HostTimestamp {
    open spec fn obeys_try_from_spec() -> bool {
        true
    }

    open spec fn try_from_spec(datetime: DateTimeNoTz) -> Result<
        HostTimestamp,
        DateTimeConversionError,
    > {
        let date = date_of(datetime.0);
        let time = time_of(datetime.0);
        HostTimestamp::spec_new(
            year_of(date),
            month_of(date) as u8,
            day_of(date) as u8,
            hour_of(time) as u8,
            minute_of(time) as u8,
            (second_of(time) + nanosecond_of(time) / 1_000_000_000) as u32,
        )
    }
}

impl TryFrom<DateTimeNoTz> for HostZonedTimestamp {
    type Error = DateTimeConversionError;

    /// The host timestamp with time zone of the date, hour and minute of
    /// `datetime` and of its whole seconds. No zone is named: the host reads
    /// the fields in the zone it is set to. It is made of every `datetime`.
    fn try_from(datetime: DateTimeNoTz) -> (made: Result<
        HostZonedTimestamp,
        DateTimeConversionError,
    >)
        ensures
            made matches Ok(host) && host@ == (ZonedTimestampFields {
                fields: datetime@.truncated(),
                timezone: None,
            }),
    {
        let DateTimeNoTz(datetime) = datetime;
        let date = datetime_date(&datetime);
        let time = datetime_time(&datetime);
        HostZonedTimestamp::new(
            date_year(&date),
            date_month(&date) as u8,
            date_day(&date) as u8,
            time_hour(&time) as u8,
            time_minute(&time) as u8,
            whole_seconds(&time),
        )
    }
}

impl TryFromSpecImpl<DateTimeNoTz> for HostZonedTimestamp {
    open spec fn obeys_try_from_spec() -> bool {
        true
    }

    open spec fn try_from_spec(datetime: DateTimeNoTz) -> Result<
        HostZonedTimestamp,
        DateTimeConversionError,
    > {
        let date = date_of(datetime.0);
        let time = time_of(datetime.0);
        HostZonedTimestamp::spec_new(
            year_of(date),
            month_of(date) as u8,
            day_of(date) as u8,
            hour_of(time) as u8,
            minute_of(time) as u8,
            (second_of(time) + nanosecond_of(time) / 1_000_000_000) as u32,
            None,
        )
    }
}

impl TryFrom<DateTimeTz> for HostZonedTimestamp {
    type Error = DateTimeConversionError;

    /// The host timestamp with time zone of the local date, hour and minute of
    /// `datetimetz` and of its whole seconds, in the zone that `datetimetz`
    /// names. The name goes to the host as it is. It is made of every
    /// `datetimetz`: whether the zone exists is for the host to say.
    fn try_from(datetimetz: DateTimeTz) -> (made: Result<
        HostZonedTimestamp,
        DateTimeConversionError,
    >)
        ensures
            made matches Ok(host) && host@ == (ZonedTimestampFields {
                fields: datetimetz@.datetime.truncated(),
                timezone: Some(datetimetz@.timezone),
            }),
    {
        let DateTimeTz { datetime, tz } = datetimetz;
        let date = datetime_date(&datetime);
        let time = datetime_time(&datetime);
        HostZonedTimestamp::with_timezone(
            date_year(&date),
            date_month(&date) as u8,
            date_day(&date) as u8,
            time_hour(&time) as u8,
            time_minute(&time) as u8,
            whole_seconds(&time),
            tz,
        )
    }
}

impl TryFromSpecImpl<DateTimeTz> for HostZonedTimestamp {
    open spec fn obeys_try_from_spec() -> bool {
        true
    }

    open spec fn try_from_spec(datetimetz: DateTimeTz) -> Result<
        HostZonedTimestamp,
        DateTimeConversionError,
    > {
        let date = date_of(datetimetz.local());
        let time = time_of(datetimetz.local());
        HostZonedTimestamp::spec_new(
            year_of(date),
            month_of(date) as u8,
            day_of(date) as u8,
            hour_of(time) as u8,
            minute_of(time) as u8,
            (second_of(time) + nanosecond_of(time) / 1_000_000_000) as u32,
            Some(datetimetz.zone()),
        )
    }
}

impl TryFrom<Date> for HostDate {
    type Error = DateTimeConversionError;

    /// The host date with the year, month and day of `date`. It is made of
    /// every `date`.
    fn try_from(date: Date) -> (made: Result<HostDate, DateTimeConversionError>)
        ensures
            made matches Ok(host) && host@ == date@,
    {
        let Date(date) = date;
        HostDate::new(date_year(&date), date_month(&date) as u8, date_day(&date) as u8)
    }
}

impl TryFromSpecImpl<Date> for HostDate {
    open spec fn obeys_try_from_spec() -> bool {
        true
    }

    open spec fn try_from_spec(date: Date) -> Result<HostDate, DateTimeConversionError> {
        HostDate::spec_new(year_of(date.0), month_of(date.0) as u8, day_of(date.0) as u8)
    }
}

impl TryFrom<Time> for HostTime {
    type Error = DateTimeConversionError;

    /// The host time of day with the hour, minute, second and nanoseconds of
    /// `time`: the fraction of the second is kept. It is made of every `time`.
    fn try_from(time: Time) -> (made: Result<HostTime, DateTimeConversionError>)
        ensures
            made matches Ok(host) && host@ == time@,
    {
        let Time(time) = time;
        HostTime::new(
            time_hour(&time) as u8,
            time_minute(&time) as u8,
            time_second(&time),
            time_nanosecond(&time),
        )
    }
}

impl TryFromSpecImpl<Time> for HostTime {
    open spec fn obeys_try_from_spec() -> bool {
        true
    }

    open spec fn try_from_spec(time: Time) -> Result<HostTime, DateTimeConversionError> {
        HostTime::spec_new(
            hour_of(time.0) as u8,
            minute_of(time.0) as u8,
            second_of(time.0),
            nanosecond_of(time.0),
        )
    }
}

} // verus!
