use usage_tracker::dates::{
    date_form, day_start, parse_date, settled, unreadable, DateError, DateForm, WallTime,
};
use usage_tracker::Timestamp;

/// 2021-12-24T00:00:00Z.
const DAY: i64 = 1_640_304_000;

#[test]
fn the_length_tells_the_form() {
    assert_eq!(date_form("24.12.2021"), DateForm::Day);
    assert_eq!(date_form("0123456789"), DateForm::Day);
    assert_eq!(date_form("2021-12-24T18:00:00"), DateForm::LocalDateTime);
    assert_eq!(date_form("2021-12-24T18:00:00+01:00"), DateForm::DateTime);
    assert_eq!(date_form("2021-12-24T18:00:00Z"), DateForm::DateTime);
    assert_eq!(date_form(""), DateForm::DateTime);
    // Ten characters, but more bytes.
    assert_eq!(date_form("24.12.202ä"), DateForm::DateTime);
}

#[test]
fn a_time_with_offset_is_an_instant() {
    assert_eq!(
        parse_date("2021-12-24T18:00:00+01:00"),
        Ok(Timestamp::from_unix(DAY + 17 * 3_600, 0).unwrap())
    );
    assert_eq!(
        parse_date("2021-12-24T18:00:00Z"),
        Ok(Timestamp::from_unix(DAY + 18 * 3_600, 0).unwrap())
    );
    assert_eq!(
        parse_date("2021-12-24T18:00:00.25-02:30"),
        Ok(Timestamp::from_unix(DAY + 20 * 3_600 + 1_800, 250_000_000).unwrap())
    );
    assert_eq!(
        parse_date("1969-12-31T23:59:59Z"),
        Ok(Timestamp::from_unix(-1, 0).unwrap())
    );
}

#[test]
fn a_day_is_its_start_in_the_local_time_zone() {
    match parse_date("24.12.2021") {
        Ok(start) => {
            // No time zone is further than a day from UTC.
            assert!((start.seconds() - DAY).abs() <= 86_400);
            assert_eq!(start.nanos(), 0);
            assert_eq!(start.seconds().rem_euclid(60), 0);
        }
        Err(e) => assert_eq!(e, DateError::NoSingleTime { text: String::from("24.12.2021") }),
    }
}

#[test]
fn a_time_without_offset_is_in_the_local_time_zone() {
    match parse_date("2021-12-24T18:30:15") {
        Ok(instant) => {
            assert!((instant.seconds() - (DAY + 18 * 3_600 + 30 * 60 + 15)).abs() <= 86_400);
            assert_eq!(instant.nanos(), 0);
            assert_eq!(instant.seconds().rem_euclid(60), 15);
        }
        Err(e) => {
            assert_eq!(e, DateError::NoSingleTime { text: String::from("2021-12-24T18:30:15") })
        }
    }
}

#[test]
fn a_day_and_its_first_second_are_the_same_instant() {
    let day = parse_date("24.12.2021");
    let second = parse_date("2021-12-24T00:00:00");
    assert_eq!(day.ok(), second.ok());
}

#[test]
fn what_is_no_date_is_unreadable() {
    for (text, form) in [
        ("24.13.2021", DateForm::Day),
        ("31.02.2021", DateForm::Day),
        ("2021-12-24", DateForm::Day),
        ("2021-12-24T18:00:0x", DateForm::LocalDateTime),
        ("2021-12-24 18:00:00", DateForm::LocalDateTime),
        ("2021-12-24T18:00:00+25:00", DateForm::DateTime),
        ("tomorrow", DateForm::DateTime),
        ("", DateForm::DateTime),
    ] {
        match parse_date(text) {
            Err(DateError::Unreadable { form: f, text: t, cause }) => {
                assert_eq!(f, form);
                assert_eq!(t, text);
                assert!(!cause.is_empty());
            }
            other => panic!("{:?} was read as {:?}", text, other),
        }
    }
}

#[test]
fn a_day_starts_at_midnight() {
    assert_eq!(day_start(0), WallTime { seconds: 0, nanos: 0 });
    assert_eq!(day_start(1), WallTime { seconds: 86_400, nanos: 0 });
    assert_eq!(day_start(-1), WallTime { seconds: -86_400, nanos: 0 });
    assert_eq!(day_start(18_985), WallTime { seconds: DAY, nanos: 0 });
    assert_eq!(day_start(i32::MAX), WallTime { seconds: 185_542_587_100_800, nanos: 0 });
    assert_eq!(day_start(i32::MIN), WallTime { seconds: -185_542_587_187_200, nanos: 0 });
}

#[test]
fn a_settled_time_is_handed_on() {
    let t = Timestamp::from_unix(5, 0).unwrap();
    assert_eq!(settled("x", Some(t)), Ok(t));
    assert_eq!(settled("x", None), Err(DateError::NoSingleTime { text: String::from("x") }));
}

#[test]
fn date_errors_describe_themselves() {
    let cause = String::from("input is out of range");
    assert_eq!(
        unreadable(DateForm::Day, "24.13.2021", cause.clone()),
        DateError::Unreadable {
            form: DateForm::Day,
            text: String::from("24.13.2021"),
            cause: cause.clone()
        }
    );
    assert_eq!(
        unreadable(DateForm::Day, "24.13.2021", cause.clone()).message(),
        "could not parse local date: 24.13.2021"
    );
    assert_eq!(
        unreadable(DateForm::LocalDateTime, "x", cause.clone()).message(),
        "could not parse local datetime: x"
    );
    assert_eq!(
        unreadable(DateForm::DateTime, "x", cause.clone()).message(),
        "could not parse datetime: x"
    );
    let ambiguous = DateError::NoSingleTime { text: String::from("2021-10-31T02:30:00") };
    assert_eq!(ambiguous.message(), "could not convert to utc: 2021-10-31T02:30:00");
    assert_eq!(ambiguous.clone(), ambiguous);
}
