//! Instants on the UTC time line, held as plain integers.

use vstd::prelude::*;

verus! {

/// The first second of the time that `chrono` covers: the start of the year
/// 262144 BCE, counted from the Unix epoch.
pub const FIRST_SECOND: i64 = -8_334_601_228_800;

/// The last second of the time that `chrono` covers: the end of the year
/// 262142 CE, counted from the Unix epoch.
pub const LAST_SECOND: i64 = 8_210_266_876_799;

/// Whether `chrono` can hold the instant that lies `nanos` nanoseconds after
/// the whole second `seconds` of the Unix epoch: the second lies within the
/// years that `chrono` covers, and the nanoseconds stay below a second, or
/// below two seconds in the last second of a minute, where they stand for a
/// leap second.
///
/// This is where `chrono::DateTime::from_timestamp` returns `Some`.
pub open spec fn representable(seconds: i64, nanos: u32) -> bool {
    &&& FIRST_SECOND <= seconds <= LAST_SECOND
    &&& (nanos < 1_000_000_000 || (nanos < 2_000_000_000 && (seconds as int) % 60 == 59))
}

/// The whole seconds that `chrono` counts from the instant
/// `(earlier_seconds, earlier_nanos)` to the instant
/// `(later_seconds, later_nanos)`, negative where the second lies before the
/// first.
///
/// This names what subtracting two `chrono::DateTime<Utc>` values and taking
/// `num_seconds` of the difference gives.
pub uninterp spec fn seconds_between(
    later_seconds: i64,
    later_nanos: u32,
    earlier_seconds: i64,
    earlier_nanos: u32,
) -> i64;

/// The nanoseconds that `chrono` counts from the instant
/// `(earlier_seconds, earlier_nanos)` to the instant
/// `(later_seconds, later_nanos)` beyond the whole seconds of
/// [`seconds_between`]: with those seconds they make up the whole time
/// between the two.
///
/// This names what subtracting two `chrono::DateTime<Utc>` values and taking
/// `subsec_nanos` of the difference gives.
pub uninterp spec fn nanos_between(
    later_seconds: i64,
    later_nanos: u32,
    earlier_seconds: i64,
    earlier_nanos: u32,
) -> i32;

/// A length of time with its direction: it stands for `seconds` seconds and
/// `nanos` nanoseconds together, and is negative where their sum is.
#[derive(Clone, Copy, Debug, PartialEq, Eq, Structural)]
pub struct Elapsed {
    /// The whole seconds.
    pub seconds: i64,
    /// The nanoseconds beyond the whole seconds.
    pub nanos: i32,
}

impl Elapsed {
    /// The length of time in nanoseconds.
    pub open spec fn total_nanos(self) -> int {
        self.seconds * 1_000_000_000 + self.nanos
    }

    /// The length of time in nanoseconds.
    pub fn nanoseconds(&self) -> (r: i128)
        ensures
            r == self.total_nanos(),
    {
        self.seconds as i128 * 1_000_000_000 + self.nanos as i128
    }

    /// Whether no time has passed at all.
    pub fn is_zero(&self) -> (r: bool)
        ensures
            r == (self.total_nanos() == 0),
    {
        self.nanoseconds() == 0
    }
}

/// An instant in UTC: whole non-leap seconds since 1970-01-01T00:00:00Z and
/// the nanoseconds since the last whole second.
///
/// Every value is an instant that `chrono::DateTime<Utc>` can hold, so it can
/// always be turned back into one.
#[derive(Clone, Copy, Debug, PartialEq, Eq, Structural)]
pub struct Timestamp {
    pub(crate) seconds: i64,
    pub(crate) nanos: u32,
}

impl Timestamp {
    #[verifier::type_invariant]
    spec fn is_instant(self) -> bool {
        representable(self.seconds, self.nanos)
    }

    /// The whole seconds since the Unix epoch.
    pub closed spec fn unix_seconds(self) -> i64 {
        self.seconds
    }

    /// The nanoseconds since the last whole second.
    pub closed spec fn subsec_nanos(self) -> u32 {
        self.nanos
    }

    /// Whether `self` lies strictly before `other` on the time line.
    pub open spec fn precedes(self, other: Timestamp) -> bool {
        self.unix_seconds() < other.unix_seconds() || (self.unix_seconds() == other.unix_seconds()
            && self.subsec_nanos() < other.subsec_nanos())
    }

    /// The instant `nanos` nanoseconds after second `seconds` of the Unix
    /// epoch, or `None` where `chrono` has no such instant: the second lies
    /// outside its years, or the nanoseconds make up more than the second
    /// has.
    pub fn from_unix(seconds: i64, nanos: u32) -> (r: Option<Timestamp>)
        ensures
            r is Some <==> representable(seconds, nanos),
            r matches Some(t) ==> t.unix_seconds() == seconds && t.subsec_nanos() == nanos,
    {
        if chrono_accepts(seconds, nanos) {
            Some(Timestamp { seconds, nanos })
        } else {
            None
        }
    }

    /// The whole seconds since the Unix epoch.
    pub fn seconds(&self) -> (r: i64)
        ensures
            r == self.unix_seconds(),
    {
        self.seconds
    }

    /// The nanoseconds since the last whole second.
    pub fn nanos(&self) -> (r: u32)
        ensures
            r == self.subsec_nanos(),
    {
        self.nanos
    }

    /// Whether `self` lies strictly before `other`.
    pub fn is_before(&self, other: &Timestamp) -> (r: bool)
        ensures
            r == self.precedes(*other),
    {
        self.seconds < other.seconds || (self.seconds == other.seconds && self.nanos
            < other.nanos)
    }

    /// The time from `earlier` to `self`, as `chrono` counts it.
    pub fn time_since(&self, earlier: &Timestamp) -> (r: Elapsed)
        ensures
            r.seconds == seconds_between(
                self.unix_seconds(),
                self.subsec_nanos(),
                earlier.unix_seconds(),
                earlier.subsec_nanos(),
            ),
            r.nanos == nanos_between(
                self.unix_seconds(),
                self.subsec_nanos(),
                earlier.unix_seconds(),
                earlier.subsec_nanos(),
            ),
    {
        proof {
            use_type_invariant(self);
            use_type_invariant(earlier);
        }
        let (seconds, nanos) = chrono_time_between(
            self.seconds,
            self.nanos,
            earlier.seconds,
            earlier.nanos,
        );
        Elapsed { seconds, nanos }
    }
}

/// Asks `chrono::DateTime::from_timestamp` whether it has an instant for the
/// given seconds and nanoseconds. Trusted: it has one where [`representable`]
/// says so, that is for a second within `chrono`'s years, with nanoseconds
/// below a second, or below two in the last second of a minute.
#[verifier::external_body]
fn chrono_accepts(seconds: i64, nanos: u32) -> (r: bool)
    ensures
        r == representable(seconds, nanos),
{
    chrono::DateTime::from_timestamp(seconds, nanos).is_some()
}

/// Subtracts two `chrono::DateTime<Utc>` values and takes `num_seconds` and
/// `subsec_nanos` of the difference. Trusted: the two results are what
/// [`seconds_between`] and [`nanos_between`] name. Both instants must be ones
/// that `chrono` can hold, so that building them does not fail; the
/// subtraction itself is documented never to overflow.
#[verifier::external_body]
fn chrono_time_between(
    later_seconds: i64,
    later_nanos: u32,
    earlier_seconds: i64,
    earlier_nanos: u32,
) -> (r: (i64, i32))
    requires
        representable(later_seconds, later_nanos),
        representable(earlier_seconds, earlier_nanos),
    ensures
        r.0 == seconds_between(later_seconds, later_nanos, earlier_seconds, earlier_nanos),
        r.1 == nanos_between(later_seconds, later_nanos, earlier_seconds, earlier_nanos),
{
    let later = chrono::DateTime::from_timestamp(later_seconds, later_nanos).unwrap();
    let earlier = chrono::DateTime::from_timestamp(earlier_seconds, earlier_nanos).unwrap();
    let elapsed = later - earlier;
    (elapsed.num_seconds(), elapsed.subsec_nanos())
}

/// Reads the clock with `chrono::Utc::now`. Trusted: the seconds and
/// nanoseconds of the result are those of an instant that `chrono` holds, as
/// `chrono` documents of `timestamp` and `timestamp_subsec_nanos`; nothing
/// else is promised of it. `chrono` panics where the system clock stands
/// before 1970.
#[verifier::external_body]
pub(crate) fn current_time() -> (r: Timestamp)
    ensures
        representable(r.unix_seconds(), r.subsec_nanos()),
{
    let now = chrono::Utc::now();
    Timestamp { seconds: now.timestamp(), nanos: now.timestamp_subsec_nanos() }
}

} // verus!
