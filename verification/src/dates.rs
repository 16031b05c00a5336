//! Points in time as people write them.
//!
//! Three forms are read. A day, `dd.MM.yyyy`, stands for the start of that
//! day, midnight, in the time zone of this machine. A date and time without offset,
//! `yyyy-MM-ddThh:mm:ss`, stands for that time in the time zone of this
//! machine. Anything else is read as a date and time with its offset from
//! UTC, `yyyy-MM-ddThh:mm:ss+oh:om`. The form is told by the length of the
//! text.

use crate::error::prefixed;
use crate::timestamp::{representable, Timestamp};
use vstd::prelude::*;
use vstd::string::*;

verus! {

/// `chrono`'s account of why a text could not be parsed.
#[verifier::external_type_specification]
#[verifier::external_body]
pub struct ExParseError(chrono::ParseError);

/// The pattern of a day, in `chrono`'s notation.
pub const DAY_PATTERN: &'static str = "%d.%m.%Y";

/// A date and time of day as a clock on the wall shows them, with no time
/// zone: the seconds and nanoseconds since 1970-01-01 00:00:00 on that
/// clock.
#[derive(Clone, Copy, Debug, PartialEq, Eq, Structural)]
pub struct WallTime {
    /// The whole seconds.
    pub seconds: i64,
    /// The nanoseconds since the last whole second.
    pub nanos: u32,
}

/// The day that `text` names when read by `pattern`, as the number of days
/// from 1970-01-01 to it, or `None` where `text` does not fit the pattern or
/// names no day.
///
/// This names what `chrono::NaiveDate::parse_from_str` makes of the text,
/// counted with `to_epoch_days`.
pub uninterp spec fn day_reading(text: Seq<char>, pattern: Seq<char>) -> Option<i32>;

/// The seconds of a day.
pub const SECONDS_OF_A_DAY: i64 = 86_400;

/// The first moment of the day that lies `day` days after 1970-01-01, as a
/// clock on the wall shows it.
pub open spec fn start_of_day(day: i32) -> WallTime {
    WallTime { seconds: (day * SECONDS_OF_A_DAY) as i64, nanos: 0 }
}

/// The date and time that `text` names, or `None` where it names none.
///
/// This names what parsing the text as a `chrono::NaiveDateTime` gives.
pub uninterp spec fn wall_time_reading(text: Seq<char>) -> Option<WallTime>;

/// The instant that `text` names by a date, a time and an offset from UTC,
/// or `None` where it names none.
///
/// This names what parsing the text as a `chrono::DateTime<Utc>` gives.
pub uninterp spec fn instant_reading(text: Seq<char>) -> Option<Timestamp>;

/// The forms in which a point in time is written.
#[derive(Clone, Copy, Debug, PartialEq, Eq, Structural)]
pub enum DateForm {
    /// A day: `dd.MM.yyyy`.
    Day,
    /// A date and time in the time zone of this machine:
    /// `yyyy-MM-ddThh:mm:ss`.
    LocalDateTime,
    /// A date and time with an offset from UTC: `yyyy-MM-ddThh:mm:ss+oh:om`.
    DateTime,
}

/// Why a text was not understood as a point in time.
#[derive(Debug, PartialEq, Eq)]
pub enum DateError {
    /// The text has the length of a day, of a local date and time or of
    /// neither, as `form` says, and could not be read as that. `cause` is
    /// `chrono`'s account of it.
    Unreadable { form: DateForm, text: String, cause: String },
    /// The text names a time that the clocks of this machine's time zone
    /// show twice or never, as when they are set back or forward.
    NoSingleTime { text: String },
}

impl DateError {
    /// Whether this error says that `text` could not be read as `form`.
    pub open spec fn is_unreadable(self, form: DateForm, text: Seq<char>) -> bool {
        self matches DateError::Unreadable { form: f, text: t, cause } && f == form && t@ == text
    }

    /// Whether this error says that `text` names no single time.
    pub open spec fn is_no_single_time(self, text: Seq<char>) -> bool {
        self matches DateError::NoSingleTime { text: t } && t@ == text
    }

    /// The text that describes this error.
    pub open spec fn message_text(self) -> Seq<char> {
        match self {
            DateError::Unreadable { form, text, cause } => match form {
                DateForm::Day => "could not parse local date: "@ + text@,
                DateForm::LocalDateTime => "could not parse local datetime: "@ + text@,
                DateForm::DateTime => "could not parse datetime: "@ + text@,
            },
            DateError::NoSingleTime { text } => "could not convert to utc: "@ + text@,
        }
    }

    /// The text that describes this error.
    pub fn message(&self) -> (r: String)
        ensures
            r@ == self.message_text(),
    {
        match self {
            DateError::Unreadable { form, text, cause } => match form {
                DateForm::Day => prefixed("could not parse local date: ", text),
                DateForm::LocalDateTime => prefixed("could not parse local datetime: ", text),
                DateForm::DateTime => prefixed("could not parse datetime: ", text),
            },
            DateError::NoSingleTime { text } => prefixed("could not convert to utc: ", text),
        }
    }
}

impl Clone for DateError {
    fn clone(&self) -> (r: Self)
        ensures
            r == *self,
    {
        match self {
            DateError::Unreadable { form, text, cause } => DateError::Unreadable {
                form: *form,
                text: text.clone(),
                cause: cause.clone(),
            },
            DateError::NoSingleTime { text } => DateError::NoSingleTime { text: text.clone() },
        }
    }
}

/// The form that a text of `length` bytes is read as.
pub open spec fn form_of_length(length: nat) -> DateForm {
    if length == 10 {
        DateForm::Day
    } else if length == 19 {
        DateForm::LocalDateTime
    } else {
        DateForm::DateTime
    }
}

/// The form that `text` is read as.
pub open spec fn form_of(text: &str) -> DateForm {
    form_of_length(text.spec_bytes().len())
}

/// Whether `r` is a possible result of reading `text` as a point in time.
///
/// A text that `chrono` cannot parse in its form is unreadable. A text with
/// an offset gives the instant it names. A text without one names a time on
/// the clocks of this machine's time zone; which instant that is, and
/// whether there is exactly one, only that time zone decides.
pub open spec fn read_as(text: &str, r: Result<Timestamp, DateError>) -> bool {
    match form_of(text) {
        DateForm::Day => match day_reading(text@, DAY_PATTERN@) {
            Some(reading) => r is Ok || (r matches Err(e) && e.is_no_single_time(text@)),
            None => r matches Err(e) && e.is_unreadable(DateForm::Day, text@),
        },
        DateForm::LocalDateTime => match wall_time_reading(text@) {
            Some(reading) => r is Ok || (r matches Err(e) && e.is_no_single_time(text@)),
            None => r matches Err(e) && e.is_unreadable(DateForm::LocalDateTime, text@),
        },
        DateForm::DateTime => match instant_reading(text@) {
            Some(instant) => r == Ok::<Timestamp, DateError>(instant),
            None => r matches Err(e) && e.is_unreadable(DateForm::DateTime, text@),
        },
    }
}

/// The form that `text` is read as, told by its length in bytes.
pub fn date_form(text: &str) -> (r: DateForm)
    ensures
        r == form_of(text),
{
    let length = text.as_bytes().len();
    if length == 10 {
        DateForm::Day
    } else if length == 19 {
        DateForm::LocalDateTime
    } else {
        DateForm::DateTime
    }
}

/// The first moment of the day that lies `day` days after 1970-01-01, as a
/// clock on the wall shows it.
pub fn day_start(day: i32) -> (r: WallTime)
    ensures
        r == start_of_day(day),
{
    let days: i64 = day as i64;
    WallTime { seconds: days * SECONDS_OF_A_DAY, nanos: 0 }
}

/// The result for a text that names the wall time of an instant which the
/// time zone of this machine has settled: `instant`, or the error that
/// there is no single such instant where it found none.
pub fn settled(text: &str, instant: Option<Timestamp>) -> (r: Result<Timestamp, DateError>)
    ensures
        match instant {
            Some(t) => r == Ok::<Timestamp, DateError>(t),
            None => r matches Err(e) && e.is_no_single_time(text@),
        },
{
    match instant {
        Some(t) => Ok(t),
        None => Err(DateError::NoSingleTime { text: String::from_str(text) }),
    }
}

/// The error for a text that could not be read as `form`, with the account
/// of why.
pub fn unreadable(form: DateForm, text: &str, cause: String) -> (r: DateError)
    ensures
        r.is_unreadable(form, text@),
        r matches DateError::Unreadable { form: f, text: t, cause: c } && c@ == cause@,
{
    DateError::Unreadable { form, text: String::from_str(text), cause }
}

/// Parses a text into a point in time.
///
/// Tries the form that the length of the text tells: a day, a local date
/// and time, or a date and time with offset.
pub fn parse_date(src: &str) -> (r: Result<Timestamp, DateError>)
    ensures
        read_as(src, r),
{
    match date_form(src) {
        DateForm::Day => match chrono_parse_day(src, DAY_PATTERN) {
            Ok(day) => settled(src, chrono_local_instant(day_start(day))),
            Err(e) => Err(unreadable(DateForm::Day, src, chrono_describe(&e))),
        },
        DateForm::LocalDateTime => match chrono_parse_wall_time(src) {
            Ok(reading) => settled(src, chrono_local_instant(reading)),
            Err(e) => Err(unreadable(DateForm::LocalDateTime, src, chrono_describe(&e))),
        },
        DateForm::DateTime => match chrono_parse_instant(src) {
            Ok(instant) => Ok(instant),
            Err(e) => Err(unreadable(DateForm::DateTime, src, chrono_describe(&e))),
        },
    }
}

/// Parses a day with `chrono::NaiveDate::parse_from_str` and counts it
/// from 1970-01-01 with `to_epoch_days`. Trusted: the outcome is what
/// [`day_reading`] names, `Ok` with the day where there is one and `Err`
/// where there is none.
#[verifier::external_body]
fn chrono_parse_day(text: &str, pattern: &str) -> (r: Result<i32, chrono::ParseError>)
    ensures
        day_reading(text@, pattern@) == match r {
            Ok(day) => Some(day),
            Err(_) => None,
        },
{
    Ok(chrono::NaiveDate::parse_from_str(text, pattern)?.to_epoch_days())
}

/// Parses a date and time without offset as a `chrono::NaiveDateTime`.
/// Trusted: the outcome is what [`wall_time_reading`] names, `Ok` with the
/// reading where there is one and `Err` where there is none.
#[verifier::external_body]
fn chrono_parse_wall_time(text: &str) -> (r: Result<WallTime, chrono::ParseError>)
    ensures
        wall_time_reading(text@) == match r {
            Ok(reading) => Some(reading),
            Err(_) => None,
        },
{
    let time = text.parse::<chrono::NaiveDateTime>()?.and_utc();
    Ok(WallTime { seconds: time.timestamp(), nanos: time.timestamp_subsec_nanos() })
}

/// Parses a date and time with offset as a `chrono::DateTime<Utc>`. Trusted:
/// the outcome is what [`instant_reading`] names, `Ok` with the instant where
/// there is one and `Err` where there is none, and the instant is one that
/// `chrono` holds.
#[verifier::external_body]
fn chrono_parse_instant(text: &str) -> (r: Result<Timestamp, chrono::ParseError>)
    ensures
        instant_reading(text@) == match r {
            Ok(instant) => Some(instant),
            Err(_) => None,
        },
        r matches Ok(instant) ==> representable(instant.unix_seconds(), instant.subsec_nanos()),
{
    let instant = text.parse::<chrono::DateTime<chrono::Utc>>()?;
    Ok(Timestamp { seconds: instant.timestamp(), nanos: instant.timestamp_subsec_nanos() })
}

/// Asks `chrono::Local` for the instant at which the clocks of this
/// machine's time zone show `reading`, with
/// `chrono::TimeZone::from_local_datetime`. Trusted: an instant that is
/// handed out is one that `chrono::DateTime::from_timestamp` accepts. Which
/// instant it is, and whether there is one, is not promised: that depends on
/// the time zone of the machine. `None` stands for a time that those clocks
/// show twice or never, or that `chrono` cannot hold.
#[verifier::external_body]
fn chrono_local_instant(reading: WallTime) -> (r: Option<Timestamp>)
    ensures
        r matches Some(instant) ==> representable(instant.unix_seconds(), instant.subsec_nanos()),
{
    let shown = chrono::DateTime::from_timestamp(reading.seconds, reading.nanos)?.naive_utc();
    let local = chrono::TimeZone::from_local_datetime(&chrono::Local, &shown).single()?;
    let (seconds, nanos) = (local.timestamp(), local.timestamp_subsec_nanos());
    chrono::DateTime::from_timestamp(seconds, nanos).map(|_| Timestamp { seconds, nanos })
}

/// The text of `chrono`'s account of a failed parse, as its `Display` gives
/// it. Trusted, with nothing promised of the text.
#[verifier::external_body]
fn chrono_describe(error: &chrono::ParseError) -> String {
    error.to_string()
}

} // verus!
