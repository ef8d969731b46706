//! The host's temporal scalars, as the field tuples that its constructors take.
//!
//! A value of one of these types is a request that is fit to be handed to the
//! host: its fields name a day of the calendar and a time of the day. The host
//! has the last word, since its own domain is narrower, and what it refuses is
//! turned into a `DateTimeConversionError` by `refused`.

use super::calendar::{calendar_date, is_calendar_date};
use vstd::prelude::*;

verus! {

/// A day of the calendar, as three numbers.
pub struct CalendarDate {
    pub year: int,
    pub month: int,
    pub day: int,
}

/// A time of the day; `nanosecond` counts from the start of `second`.
pub struct TimeOfDay {
    pub hour: int,
    pub minute: int,
    pub second: int,
    pub nanosecond: int,
}

/// A day and a time on it, to the whole second.
pub struct TimestampFields {
    pub date: CalendarDate,
    pub hour: int,
    pub minute: int,
    pub second: int,
}

/// A timestamp and the time zone that it is to be read in, if one is named.
pub struct ZonedTimestampFields {
    pub fields: TimestampFields,
    pub timezone: Option<Seq<char>>,
}

/// Why a conversion failed, with strings as sequences of characters.
pub enum ConversionFailure {
    DateOutOfRange,
    DateTimeOutOfRange,
    TimeOutOfRange,
    UnrecognizedTimezone(Seq<char>),
}

/// Why a civil value could not be turned into a host scalar.
#[derive(Debug, PartialEq, Eq)]
pub enum DateTimeConversionError {
    /// The fields name no date that the host can hold.
    DateOutOfRange,
    /// The fields name no timestamp that the host can hold.
    DateTimeOutOfRange,
    /// The fields name no time of day that the host can hold.
    TimeOutOfRange,
    /// The host does not know the time zone of this name.
    UnrecognizedTimezone(String),
}

impl View for DateTimeConversionError {
    type V = ConversionFailure;

    open spec fn view(&self) -> ConversionFailure {
        match self {
            DateTimeConversionError::DateOutOfRange => ConversionFailure::DateOutOfRange,
            DateTimeConversionError::DateTimeOutOfRange => ConversionFailure::DateTimeOutOfRange,
            DateTimeConversionError::TimeOutOfRange => ConversionFailure::TimeOutOfRange,
            DateTimeConversionError::UnrecognizedTimezone(name) => ConversionFailure::UnrecognizedTimezone(
                name@,
            ),
        }
    }
}

impl Clone for DateTimeConversionError {
    fn clone(&self) -> (copy: Self)
        ensures
            copy@ == self@,
    {
        match self {
            DateTimeConversionError::DateOutOfRange => DateTimeConversionError::DateOutOfRange,
            DateTimeConversionError::DateTimeOutOfRange => DateTimeConversionError::DateTimeOutOfRange,
            DateTimeConversionError::TimeOutOfRange => DateTimeConversionError::TimeOutOfRange,
            DateTimeConversionError::UnrecognizedTimezone(name) => {
                DateTimeConversionError::UnrecognizedTimezone(name.clone())
            },
        }
    }
}

/// The ways in which the host turns a field tuple down.
#[derive(Debug, Clone, Copy, PartialEq, Eq, Structural)]
pub enum HostRefusal {
    /// Some field is too large or too small.
    FieldOverflow,
    /// The fields are not in the form that the host expects.
    InvalidFormat,
    /// The fields are well formed, the value lies outside the host's domain.
    OutOfRange,
    /// The host knows no time zone of the name it was given.
    UnknownTimezone,
    /// The host was given a time zone offset that is none.
    InvalidTimezoneOffset,
    /// The host could not read the time zone at all.
    CannotParseTimezone,
}

impl HostRefusal {
    /// Whether the refusal is about the time zone and not about the fields.
    pub open spec fn concerns_timezone(self) -> bool {
        self == HostRefusal::UnknownTimezone || self == HostRefusal::InvalidTimezoneOffset || self
            == HostRefusal::CannotParseTimezone
    }

    /// Whether the refusal is about the time zone and not about the fields.
    pub fn about_timezone(&self) -> (b: bool)
        ensures
            b == self.concerns_timezone(),
    {
        match self {
            HostRefusal::UnknownTimezone => true,
            HostRefusal::InvalidTimezoneOffset => true,
            HostRefusal::CannotParseTimezone => true,
            _ => false,
        }
    }
}

/// The scalar types of the host that a civil value is turned into.
#[derive(Debug, Clone, Copy, PartialEq, Eq, Structural)]
pub enum HostScalar {
    Date,
    Timestamp,
    TimestampWithTimeZone,
    Time,
}

/// The failure that a refusal by the host stands for. A refusal that is about
/// the time zone names the zone, where the request carried one; every other
/// refusal is a value out of the range of the scalar asked for.
pub open spec fn refusal_failure(
    scalar: HostScalar,
    refusal: HostRefusal,
    timezone: Option<Seq<char>>,
) -> ConversionFailure {
    if refusal.concerns_timezone() && timezone is Some {
        ConversionFailure::UnrecognizedTimezone(timezone->0)
    } else {
        match scalar {
            HostScalar::Date => ConversionFailure::DateOutOfRange,
            HostScalar::Timestamp => ConversionFailure::DateTimeOutOfRange,
            HostScalar::TimestampWithTimeZone => ConversionFailure::DateTimeOutOfRange,
            HostScalar::Time => ConversionFailure::TimeOutOfRange,
        }
    }
}

/// A time zone name, if there is one, as a sequence of characters.
pub open spec fn timezone_view(timezone: Option<String>) -> Option<Seq<char>> {
    match timezone {
        Some(name) => Some(name@),
        None => None,
    }
}

/// Whether hour, minute and whole second name a second of the day. The 60th
/// second is one: a leap second is carried as such.
pub open spec fn is_time_of_day(hour: int, minute: int, second: int) -> bool {
    0 <= hour < 24 && 0 <= minute < 60 && 0 <= second <= 60
}

impl TimestampFields {
    /// Whether the fields name a second of a day of the calendar.
    pub open spec fn valid(self) -> bool {
        is_calendar_date(self.date.year, self.date.month, self.date.day) && is_time_of_day(
            self.hour,
            self.minute,
            self.second,
        )
    }
}

impl TimeOfDay {
    /// The seconds field with its fraction, in nanoseconds.
    pub open spec fn second_nanos(self) -> int {
        self.second * 1_000_000_000 + self.nanosecond
    }

    /// The seconds field without its fraction: what a timestamp keeps of it.
    pub open spec fn whole_seconds(self) -> int {
        self.second + self.nanosecond / 1_000_000_000
    }

    /// Whether the fields name a moment of the day: the seconds field, fraction
    /// included, stays below 61.
    pub open spec fn valid(self) -> bool {
        0 <= self.hour < 24 && 0 <= self.minute < 60 && 0 <= self.second && 0 <= self.nanosecond
            && self.second_nanos() < 61 * 1_000_000_000
    }
}

/// A timestamp keeps of the seconds field what a time of day holds before the
/// point: the fraction is cut off, never rounded up. Without a leap second in
/// the nanoseconds that is the second itself.
pub proof fn whole_seconds_cut_the_fraction(time: TimeOfDay)
    ensures
        time.whole_seconds() == time.second_nanos() / 1_000_000_000,
        time.whole_seconds() * 1_000_000_000 <= time.second_nanos() < (time.whole_seconds() + 1)
            * 1_000_000_000,
        0 <= time.nanosecond < 1_000_000_000 ==> time.whole_seconds() == time.second,
{
    let second = time.second;
    let nanosecond = time.nanosecond;
    assert((second * 1_000_000_000 + nanosecond) / 1_000_000_000 == second + nanosecond
        / 1_000_000_000) by (nonlinear_arith);
}

/// A date for the host: year, month and day of a day of the calendar.
#[derive(Debug, Clone, Copy, PartialEq, Eq)]
pub struct HostDate {
    year: i32,
    month: u8,
    day: u8,
}

impl View for HostDate {
    type V = CalendarDate;

    closed spec fn view(&self) -> CalendarDate {
        CalendarDate { year: self.year as int, month: self.month as int, day: self.day as int }
    }
}

impl HostDate {
    /// The fields name a day of the calendar.
    #[verifier::type_invariant]
    spec fn calendar(self) -> bool {
        is_calendar_date(self.year as int, self.month as int, self.day as int)
    }

    /// What `new` makes of the three fields.
    pub closed spec fn spec_new(year: i32, month: u8, day: u8) -> Result<
        HostDate,
        DateTimeConversionError,
    > {
        if is_calendar_date(year as int, month as int, day as int) {
            Ok(HostDate { year, month, day })
        } else {
            Err(DateTimeConversionError::DateOutOfRange)
        }
    }

    /// The date of these fields, or `DateOutOfRange` where they name no day of
    /// the calendar.
    pub fn new(year: i32, month: u8, day: u8) -> (made: Result<HostDate, DateTimeConversionError>)
        ensures
            made == Self::spec_new(year, month, day),
            made is Ok <==> is_calendar_date(year as int, month as int, day as int),
            made matches Ok(date) ==> date@ == (CalendarDate {
                year: year as int,
                month: month as int,
                day: day as int,
            }),
            made matches Err(e) ==> e@ == ConversionFailure::DateOutOfRange,
    {
        if calendar_date(year, month, day) {
            Ok(HostDate { year, month, day })
        } else {
            Err(DateTimeConversionError::DateOutOfRange)
        }
    }

    /// The year.
    pub fn year(&self) -> (year: i32)
        ensures
            year == self@.year,
    {
        self.year
    }

    /// The month, from 1 to 12.
    pub fn month(&self) -> (month: u8)
        ensures
            month == self@.month,
            1 <= month <= 12,
    {
        proof {
            use_type_invariant(self);
        }
        self.month
    }

    /// The day of the month: one that the month has in the year.
    pub fn day(&self) -> (day: u8)
        ensures
            day == self@.day,
            is_calendar_date(self@.year, self@.month, self@.day),
    {
        proof {
            use_type_invariant(self);
        }
        self.day
    }

    /// The error that stands for the host's refusal of this date.
    pub fn refused(&self, refusal: HostRefusal) -> (e: DateTimeConversionError)
        ensures
            e@ == refusal_failure(HostScalar::Date, refusal, None),
    {
        DateTimeConversionError::DateOutOfRange
    }
}

/// A timestamp for the host: a day of the calendar and a second of that day.
#[derive(Debug, Clone, Copy, PartialEq, Eq)]
pub struct HostTimestamp {
    year: i32,
    month: u8,
    day: u8,
    hour: u8,
    minute: u8,
    second: u32,
}

impl View for HostTimestamp {
    type V = TimestampFields;

    closed spec fn view(&self) -> TimestampFields {
        TimestampFields {
            date: CalendarDate {
                year: self.year as int,
                month: self.month as int,
                day: self.day as int,
            },
            hour: self.hour as int,
            minute: self.minute as int,
            second: self.second as int,
        }
    }
}

/// The fields of a timestamp as they are handed to a constructor.
pub open spec fn timestamp_fields(
    year: i32,
    month: u8,
    day: u8,
    hour: u8,
    minute: u8,
    second: u32,
) -> TimestampFields {
    TimestampFields {
        date: CalendarDate { year: year as int, month: month as int, day: day as int },
        hour: hour as int,
        minute: minute as int,
        second: second as int,
    }
}

/// Whether the six fields name a second of a day of the calendar.
fn timestamp_in_range(year: i32, month: u8, day: u8, hour: u8, minute: u8, second: u32) -> (valid:
    bool)
    ensures
        valid == timestamp_fields(year, month, day, hour, minute, second).valid(),
{
    calendar_date(year, month, day) && hour < 24 && minute < 60 && second <= 60
}

impl HostTimestamp {
    /// The fields name a second of a day of the calendar.
    #[verifier::type_invariant]
    spec fn in_range(self) -> bool {
        self@.valid()
    }

    /// What `new` makes of the six fields.
    pub closed spec fn spec_new(
        year: i32,
        month: u8,
        day: u8,
        hour: u8,
        minute: u8,
        second: u32,
    ) -> Result<HostTimestamp, DateTimeConversionError> {
        if timestamp_fields(year, month, day, hour, minute, second).valid() {
            Ok(HostTimestamp { year, month, day, hour, minute, second })
        } else {
            Err(DateTimeConversionError::DateTimeOutOfRange)
        }
    }

    /// The timestamp of these fields, or `DateTimeOutOfRange` where they name
    /// no second of a day of the calendar.
    pub fn new(year: i32, month: u8, day: u8, hour: u8, minute: u8, second: u32) -> (made: Result<
        HostTimestamp,
        DateTimeConversionError,
    >)
        ensures
            made == Self::spec_new(year, month, day, hour, minute, second),
            made is Ok <==> timestamp_fields(year, month, day, hour, minute, second).valid(),
            made matches Ok(timestamp) ==> timestamp@ == timestamp_fields(
                year,
                month,
                day,
                hour,
                minute,
                second,
            ),
            made matches Err(e) ==> e@ == ConversionFailure::DateTimeOutOfRange,
    {
        if timestamp_in_range(year, month, day, hour, minute, second) {
            Ok(HostTimestamp { year, month, day, hour, minute, second })
        } else {
            Err(DateTimeConversionError::DateTimeOutOfRange)
        }
    }

    /// The year.
    pub fn year(&self) -> (year: i32)
        ensures
            year == self@.date.year,
    {
        self.year
    }

    /// The month, from 1 to 12.
    pub fn month(&self) -> (month: u8)
        ensures
            month == self@.date.month,
            1 <= month <= 12,
    {
        proof {
            use_type_invariant(self);
        }
        self.month
    }

    /// The day of the month: one that the month has in the year.
    pub fn day(&self) -> (day: u8)
        ensures
            day == self@.date.day,
            self@.valid(),
    {
        proof {
            use_type_invariant(self);
        }
        self.day
    }

    /// The hour, from 0 to 23.
    pub fn hour(&self) -> (hour: u8)
        ensures
            hour == self@.hour,
            hour < 24,
    {
        proof {
            use_type_invariant(self);
        }
        self.hour
    }

    /// The minute, from 0 to 59.
    pub fn minute(&self) -> (minute: u8)
        ensures
            minute == self@.minute,
            minute < 60,
    {
        proof {
            use_type_invariant(self);
        }
        self.minute
    }

    /// The seconds field: whole seconds, 60 for a leap second.
    pub fn second(&self) -> (second: u32)
        ensures
            second == self@.second,
            second <= 60,
    {
        proof {
            use_type_invariant(self);
        }
        self.second
    }

    /// The error that stands for the host's refusal of this timestamp.
    pub fn refused(&self, refusal: HostRefusal) -> (e: DateTimeConversionError)
        ensures
            e@ == refusal_failure(HostScalar::Timestamp, refusal, None),
    {
        DateTimeConversionError::DateTimeOutOfRange
    }
}

/// A timestamp with time zone for the host. Without a zone of its own it is
/// read in the zone that the host is set to.
#[derive(Debug, PartialEq, Eq)]
pub struct HostZonedTimestamp {
    year: i32,
    month: u8,
    day: u8,
    hour: u8,
    minute: u8,
    second: u32,
    timezone: Option<String>,
}

impl View for HostZonedTimestamp {
    type V = ZonedTimestampFields;

    closed spec fn view(&self) -> ZonedTimestampFields {
        ZonedTimestampFields {
            fields: timestamp_fields(
                self.year,
                self.month,
                self.day,
                self.hour,
                self.minute,
                self.second,
            ),
            timezone: timezone_view(self.timezone),
        }
    }
}

impl Clone for HostZonedTimestamp {
    fn clone(&self) -> (copy: Self)
        ensures
            copy@ == self@,
    {
        proof {
            use_type_invariant(self);
        }
        let timezone = match &self.timezone {
            Some(name) => Some(name.clone()),
            None => None,
        };
        HostZonedTimestamp {
            year: self.year,
            month: self.month,
            day: self.day,
            hour: self.hour,
            minute: self.minute,
            second: self.second,
            timezone,
        }
    }
}

impl HostZonedTimestamp {
    /// The fields name a second of a day of the calendar.
    #[verifier::type_invariant]
    spec fn in_range(self) -> bool {
        self@.fields.valid()
    }

    /// What `new` and `with_timezone` make of the six fields and the zone.
    pub closed spec fn spec_new(
        year: i32,
        month: u8,
        day: u8,
        hour: u8,
        minute: u8,
        second: u32,
        timezone: Option<String>,
    ) -> Result<HostZonedTimestamp, DateTimeConversionError> {
        if timestamp_fields(year, month, day, hour, minute, second).valid() {
            Ok(HostZonedTimestamp { year, month, day, hour, minute, second, timezone })
        } else {
            Err(DateTimeConversionError::DateTimeOutOfRange)
        }
    }

    /// The timestamp of these fields in the host's own time zone, or
    /// `DateTimeOutOfRange` where they name no second of a day of the calendar.
    pub fn new(year: i32, month: u8, day: u8, hour: u8, minute: u8, second: u32) -> (made: Result<
        HostZonedTimestamp,
        DateTimeConversionError,
    >)
        ensures
            made == Self::spec_new(year, month, day, hour, minute, second, None),
            made is Ok <==> timestamp_fields(year, month, day, hour, minute, second).valid(),
            made matches Ok(timestamp) ==> timestamp@ == (ZonedTimestampFields {
                fields: timestamp_fields(year, month, day, hour, minute, second),
                timezone: None,
            }),
            made matches Err(e) ==> e@ == ConversionFailure::DateTimeOutOfRange,
    {
        if timestamp_in_range(year, month, day, hour, minute, second) {
            Ok(HostZonedTimestamp { year, month, day, hour, minute, second, timezone: None })
        } else {
            Err(DateTimeConversionError::DateTimeOutOfRange)
        }
    }

    /// The timestamp of these fields in the time zone `timezone`, whose name is
    /// kept as it is, or `DateTimeOutOfRange` where the fields name no second
    /// of a day of the calendar. Whether the zone exists is for the host to say.
    pub fn with_timezone(
        year: i32,
        month: u8,
        day: u8,
        hour: u8,
        minute: u8,
        second: u32,
        timezone: String,
    ) -> (made: Result<HostZonedTimestamp, DateTimeConversionError>)
        ensures
            made == Self::spec_new(year, month, day, hour, minute, second, Some(timezone)),
            made is Ok <==> timestamp_fields(year, month, day, hour, minute, second).valid(),
            made matches Ok(timestamp) ==> timestamp@ == (ZonedTimestampFields {
                fields: timestamp_fields(year, month, day, hour, minute, second),
                timezone: Some(timezone@),
            }),
            made matches Err(e) ==> e@ == ConversionFailure::DateTimeOutOfRange,
    {
        if timestamp_in_range(year, month, day, hour, minute, second) {
            Ok(
                HostZonedTimestamp {
                    year,
                    month,
                    day,
                    hour,
                    minute,
                    second,
                    timezone: Some(timezone),
                },
            )
        } else {
            Err(DateTimeConversionError::DateTimeOutOfRange)
        }
    }

    /// The year.
    pub fn year(&self) -> (year: i32)
        ensures
            year == self@.fields.date.year,
    {
        self.year
    }

    /// The month, from 1 to 12.
    pub fn month(&self) -> (month: u8)
        ensures
            month == self@.fields.date.month,
            1 <= month <= 12,
    {
        proof {
            use_type_invariant(self);
        }
        self.month
    }

    /// The day of the month: one that the month has in the year.
    pub fn day(&self) -> (day: u8)
        ensures
            day == self@.fields.date.day,
            self@.fields.valid(),
    {
        proof {
            use_type_invariant(self);
        }
        self.day
    }

    /// The hour, from 0 to 23.
    pub fn hour(&self) -> (hour: u8)
        ensures
            hour == self@.fields.hour,
            hour < 24,
    {
        proof {
            use_type_invariant(self);
        }
        self.hour
    }

    /// The minute, from 0 to 59.
    pub fn minute(&self) -> (minute: u8)
        ensures
            minute == self@.fields.minute,
            minute < 60,
    {
        proof {
            use_type_invariant(self);
        }
        self.minute
    }

    /// The seconds field: whole seconds, 60 for a leap second.
    pub fn second(&self) -> (second: u32)
        ensures
            second == self@.fields.second,
            second <= 60,
    {
        proof {
            use_type_invariant(self);
        }
        self.second
    }

    /// The name of the time zone, where the timestamp carries one.
    pub fn timezone(&self) -> (timezone: &Option<String>)
        ensures
            timezone_view(*timezone) == self@.timezone,
    {
        &self.timezone
    }

    /// The error that stands for the host's refusal of this timestamp: the
    /// unrecognized zone where the host objects to the zone that was named,
    /// `DateTimeOutOfRange` otherwise.
    pub fn refused(&self, refusal: HostRefusal) -> (e: DateTimeConversionError)
        ensures
            e@ == refusal_failure(HostScalar::TimestampWithTimeZone, refusal, self@.timezone),
    {
        if refusal.about_timezone() {
            match &self.timezone {
                Some(name) => DateTimeConversionError::UnrecognizedTimezone(name.clone()),
                None => DateTimeConversionError::DateTimeOutOfRange,
            }
        } else {
            DateTimeConversionError::DateTimeOutOfRange
        }
    }
}

/// A time of day for the host. The seconds field keeps its fraction: it is
/// `second + nanosecond / 1_000_000_000`, held here as the two numbers.
#[derive(Debug, Clone, Copy, PartialEq, Eq)]
pub struct HostTime {
    hour: u8,
    minute: u8,
    second: u32,
    nanosecond: u32,
}

impl View for HostTime {
    type V = TimeOfDay;

    closed spec fn view(&self) -> TimeOfDay {
        TimeOfDay {
            hour: self.hour as int,
            minute: self.minute as int,
            second: self.second as int,
            nanosecond: self.nanosecond as int,
        }
    }
}

/// The fields of a time of day as they are handed to the constructor.
pub open spec fn time_fields(hour: u8, minute: u8, second: u32, nanosecond: u32) -> TimeOfDay {
    TimeOfDay {
        hour: hour as int,
        minute: minute as int,
        second: second as int,
        nanosecond: nanosecond as int,
    }
}

impl HostTime {
    /// The fields name a moment of the day.
    #[verifier::type_invariant]
    spec fn in_range(self) -> bool {
        self@.valid()
    }

    /// What `new` makes of the four fields.
    pub closed spec fn spec_new(hour: u8, minute: u8, second: u32, nanosecond: u32) -> Result<
        HostTime,
        DateTimeConversionError,
    > {
        if time_fields(hour, minute, second, nanosecond).valid() {
            Ok(HostTime { hour, minute, second, nanosecond })
        } else {
            Err(DateTimeConversionError::TimeOutOfRange)
        }
    }

    /// The time of day of these fields, or `TimeOutOfRange` where hour or
    /// minute is none or the seconds field, fraction included, reaches 61.
    pub fn new(hour: u8, minute: u8, second: u32, nanosecond: u32) -> (made: Result<
        HostTime,
        DateTimeConversionError,
    >)
        ensures
            made == Self::spec_new(hour, minute, second, nanosecond),
            made is Ok <==> time_fields(hour, minute, second, nanosecond).valid(),
            made matches Ok(time) ==> time@ == time_fields(hour, minute, second, nanosecond),
            made matches Err(e) ==> e@ == ConversionFailure::TimeOutOfRange,
    {
        let second_nanos: u64 = second as u64 * 1_000_000_000 + nanosecond as u64;
        if hour < 24 && minute < 60 && second_nanos < 61_000_000_000 {
            Ok(HostTime { hour, minute, second, nanosecond })
        } else {
            Err(DateTimeConversionError::TimeOutOfRange)
        }
    }

    /// The hour, from 0 to 23.
    pub fn hour(&self) -> (hour: u8)
        ensures
            hour == self@.hour,
            hour < 24,
    {
        proof {
            use_type_invariant(self);
        }
        self.hour
    }

    /// The minute, from 0 to 59.
    pub fn minute(&self) -> (minute: u8)
        ensures
            minute == self@.minute,
            minute < 60,
    {
        proof {
            use_type_invariant(self);
        }
        self.minute
    }

    /// The whole seconds of the seconds field.
    pub fn second(&self) -> (second: u32)
        ensures
            second == self@.second,
            second <= 60,
    {
        proof {
            use_type_invariant(self);
        }
        self.second
    }

    /// The fraction of the seconds field, in nanoseconds.
    pub fn nanosecond(&self) -> (nanosecond: u32)
        ensures
            nanosecond == self@.nanosecond,
            self@.valid(),
    {
        proof {
            use_type_invariant(self);
        }
        self.nanosecond
    }

    /// The error that stands for the host's refusal of this time of day.
    pub fn refused(&self, refusal: HostRefusal) -> (e: DateTimeConversionError)
        ensures
            e@ == refusal_failure(HostScalar::Time, refusal, None),
    {
        DateTimeConversionError::TimeOutOfRange
    }
}

} // verus!
