use pg_lakehouse::schema::host::{
    DateTimeConversionError, HostDate, HostRefusal, HostTime, HostTimestamp, HostZonedTimestamp,
};

const EVERY_REFUSAL: [HostRefusal; 6] = [
    HostRefusal::FieldOverflow,
    HostRefusal::InvalidFormat,
    HostRefusal::OutOfRange,
    HostRefusal::UnknownTimezone,
    HostRefusal::InvalidTimezoneOffset,
    HostRefusal::CannotParseTimezone,
];

#[test]
fn date_keeps_its_fields() {
    let date = HostDate::new(2024, 2, 29).unwrap();
    assert_eq!(date.year(), 2024);
    assert_eq!(date.month(), 2);
    assert_eq!(date.day(), 29);
}

#[test]
fn zero_date_is_out_of_range() {
    assert_eq!(HostDate::new(0, 0, 0), Err(DateTimeConversionError::DateOutOfRange));
}

#[test]
fn date_off_the_calendar_is_out_of_range() {
    assert_eq!(HostDate::new(2023, 2, 29), Err(DateTimeConversionError::DateOutOfRange));
    assert_eq!(HostDate::new(2023, 13, 1), Err(DateTimeConversionError::DateOutOfRange));
    assert_eq!(HostDate::new(2023, 6, 31), Err(DateTimeConversionError::DateOutOfRange));
    assert_eq!(HostDate::new(2023, 6, 0), Err(DateTimeConversionError::DateOutOfRange));
    assert_eq!(HostDate::new(2023, 255, 255), Err(DateTimeConversionError::DateOutOfRange));
}

#[test]
fn date_of_year_zero_is_a_date() {
    let date = HostDate::new(0, 1, 1).unwrap();
    assert_eq!((date.year(), date.month(), date.day()), (0, 1, 1));
}

#[test]
fn timestamp_keeps_its_fields() {
    let timestamp = HostTimestamp::new(2015, 9, 8, 12, 34, 56).unwrap();
    assert_eq!(timestamp.year(), 2015);
    assert_eq!(timestamp.month(), 9);
    assert_eq!(timestamp.day(), 8);
    assert_eq!(timestamp.hour(), 12);
    assert_eq!(timestamp.minute(), 34);
    assert_eq!(timestamp.second(), 56);
}

#[test]
fn timestamp_takes_second_60_and_not_61() {
    assert_eq!(HostTimestamp::new(2016, 12, 31, 23, 59, 60).unwrap().second(), 60);
    assert_eq!(
        HostTimestamp::new(2016, 12, 31, 23, 59, 61),
        Err(DateTimeConversionError::DateTimeOutOfRange)
    );
}

#[test]
fn timestamp_with_a_field_out_of_range_fails() {
    let out_of_range = Err(DateTimeConversionError::DateTimeOutOfRange);
    assert_eq!(HostTimestamp::new(2023, 2, 29, 0, 0, 0), out_of_range);
    assert_eq!(HostTimestamp::new(2023, 1, 1, 24, 0, 0), out_of_range);
    assert_eq!(HostTimestamp::new(2023, 1, 1, 0, 60, 0), out_of_range);
    assert_eq!(HostTimestamp::new(2023, 1, 1, 0, 0, u32::MAX), out_of_range);
    assert_eq!(HostTimestamp::new(0, 0, 0, 0, 0, 0), out_of_range);
}

#[test]
fn zoned_timestamp_without_zone_names_none() {
    let timestamp = HostZonedTimestamp::new(2015, 9, 8, 12, 34, 56).unwrap();
    assert_eq!(timestamp.timezone(), &None);
    assert_eq!(
        (timestamp.year(), timestamp.month(), timestamp.day()),
        (2015, 9, 8)
    );
    assert_eq!(
        (timestamp.hour(), timestamp.minute(), timestamp.second()),
        (12, 34, 56)
    );
}

#[test]
fn zoned_timestamp_keeps_the_zone_name_as_given() {
    let timestamp =
        HostZonedTimestamp::with_timezone(2015, 9, 8, 12, 34, 56, " Europe/Paris ".to_string())
            .unwrap();
    assert_eq!(timestamp.timezone().as_deref(), Some(" Europe/Paris "));
}

#[test]
fn zoned_timestamp_with_a_field_out_of_range_fails() {
    let out_of_range = Err(DateTimeConversionError::DateTimeOutOfRange);
    assert_eq!(HostZonedTimestamp::new(2023, 4, 31, 0, 0, 0), out_of_range);
    assert_eq!(
        HostZonedTimestamp::with_timezone(2023, 1, 1, 0, 0, 61, "UTC".to_string()),
        out_of_range
    );
}

#[test]
fn zoned_timestamp_clone_is_equal() {
    let timestamp =
        HostZonedTimestamp::with_timezone(2015, 9, 8, 12, 34, 56, "UTC".to_string()).unwrap();
    assert_eq!(timestamp.clone(), timestamp);
}

#[test]
fn time_keeps_its_fields() {
    let time = HostTime::new(23, 56, 4, 12_345_678).unwrap();
    assert_eq!(time.hour(), 23);
    assert_eq!(time.minute(), 56);
    assert_eq!(time.second(), 4);
    assert_eq!(time.nanosecond(), 12_345_678);
}

#[test]
fn time_seconds_field_stays_below_61() {
    assert!(HostTime::new(23, 59, 60, 999_999_999).is_ok());
    assert!(HostTime::new(23, 59, 59, 1_999_999_999).is_ok());
    assert_eq!(HostTime::new(23, 59, 61, 0), Err(DateTimeConversionError::TimeOutOfRange));
    assert_eq!(
        HostTime::new(23, 59, 59, 2_000_000_000),
        Err(DateTimeConversionError::TimeOutOfRange)
    );
    assert_eq!(
        HostTime::new(0, 0, u32::MAX, u32::MAX),
        Err(DateTimeConversionError::TimeOutOfRange)
    );
}

#[test]
fn time_with_hour_or_minute_out_of_range_fails() {
    assert_eq!(HostTime::new(24, 0, 0, 0), Err(DateTimeConversionError::TimeOutOfRange));
    assert_eq!(HostTime::new(0, 60, 0, 0), Err(DateTimeConversionError::TimeOutOfRange));
}

#[test]
fn refused_date_is_out_of_range() {
    let date = HostDate::new(-300_000, 1, 1).unwrap();
    for refusal in EVERY_REFUSAL {
        assert_eq!(date.refused(refusal), DateTimeConversionError::DateOutOfRange);
    }
}

#[test]
fn refused_timestamp_is_out_of_range() {
    let timestamp = HostTimestamp::new(300_000, 1, 1, 0, 0, 0).unwrap();
    for refusal in EVERY_REFUSAL {
        assert_eq!(
            timestamp.refused(refusal),
            DateTimeConversionError::DateTimeOutOfRange
        );
    }
}

#[test]
fn refused_time_is_out_of_range() {
    let time = HostTime::new(23, 59, 60, 500_000_000).unwrap();
    for refusal in EVERY_REFUSAL {
        assert_eq!(time.refused(refusal), DateTimeConversionError::TimeOutOfRange);
    }
}

#[test]
fn unknown_zone_is_unrecognized_timezone() {
    let timestamp =
        HostZonedTimestamp::with_timezone(2015, 9, 8, 12, 34, 56, "Not/AZone".to_string())
            .unwrap();
    for refusal in [
        HostRefusal::UnknownTimezone,
        HostRefusal::InvalidTimezoneOffset,
        HostRefusal::CannotParseTimezone,
    ] {
        assert_eq!(
            timestamp.refused(refusal),
            DateTimeConversionError::UnrecognizedTimezone("Not/AZone".to_string())
        );
    }
}

#[test]
fn zoned_timestamp_refused_for_its_fields_is_out_of_range() {
    let timestamp =
        HostZonedTimestamp::with_timezone(300_000, 9, 8, 12, 34, 56, "UTC".to_string()).unwrap();
    for refusal in [
        HostRefusal::FieldOverflow,
        HostRefusal::InvalidFormat,
        HostRefusal::OutOfRange,
    ] {
        assert_eq!(
            timestamp.refused(refusal),
            DateTimeConversionError::DateTimeOutOfRange
        );
    }
}

#[test]
fn zoned_timestamp_without_zone_is_never_an_unrecognized_timezone() {
    let timestamp = HostZonedTimestamp::new(2015, 9, 8, 12, 34, 56).unwrap();
    for refusal in EVERY_REFUSAL {
        assert_eq!(
            timestamp.refused(refusal),
            DateTimeConversionError::DateTimeOutOfRange
        );
    }
}

#[test]
fn about_timezone_tells_the_refusals_apart() {
    let about: Vec<bool> = EVERY_REFUSAL.iter().map(|refusal| refusal.about_timezone()).collect();
    assert_eq!(about, vec![false, false, false, true, true, true]);
}

#[test]
fn conversion_error_clone_is_equal() {
    let error = DateTimeConversionError::UnrecognizedTimezone("Not/AZone".to_string());
    assert_eq!(error.clone(), error);
    assert_eq!(
        DateTimeConversionError::TimeOutOfRange.clone(),
        DateTimeConversionError::TimeOutOfRange
    );
}
