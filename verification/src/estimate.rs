//! The estimate of how often an object is used within a time frame.
//!
//! The estimate spreads the recorded usages evenly over the time since the
//! first of them: it is `time frame / time since first use * number of
//! usages`, with the time since the first use taken to the nanosecond. It is
//! kept as the integers it is made of, so that nothing is rounded before the
//! caller decides how to show it.

use crate::error::UsageTrackerError;
use crate::timestamp::{nanos_between, seconds_between, Elapsed, Timestamp};
use vstd::prelude::*;

verus! {

/// An estimated number of usages within a time frame, as an exact fraction.
///
/// The estimate is `time_frame_seconds * uses` divided by the time in seconds
/// that `elapsed` stands for, fraction of a second included. An estimate that
/// [`estimate`] has made never divides by zero.
#[derive(Clone, Copy, Debug, PartialEq, Eq, Structural)]
pub struct UsageEstimate {
    /// The length of the time frame asked about, in seconds.
    pub time_frame_seconds: i64,
    /// The time from the first recorded usage to the time of the estimate.
    pub elapsed: Elapsed,
    /// The number of recorded usages.
    pub uses: usize,
}

impl UsageEstimate {
    /// The dividend of the estimate: the time frame in seconds times the
    /// number of usages.
    pub open spec fn dividend(self) -> int {
        self.time_frame_seconds * self.uses
    }

    /// The divisor of the estimate, in nanoseconds: the time since the
    /// first usage.
    pub open spec fn divisor_nanos(self) -> int {
        self.elapsed.total_nanos()
    }

    /// Whether the estimate is the number `value`: the dividend is `value`
    /// times the seconds that have passed.
    pub open spec fn equals(self, value: int) -> bool {
        self.divisor_nanos() != 0 && self.dividend() * 1_000_000_000 == value
            * self.divisor_nanos()
    }

    /// The dividend of the estimate: the time frame in seconds times the
    /// number of usages.
    pub fn numerator(&self) -> (r: i128)
        ensures
            r == self.dividend(),
    {
        let frame = self.time_frame_seconds as i128;
        let uses = self.uses as i128;
        assert(-0x8000_0000_0000_0000 <= frame < 0x8000_0000_0000_0000);
        assert(0 <= uses <= 0xffff_ffff_ffff_ffff);
        assert(-0x8000_0000_0000_0000 * 0xffff_ffff_ffff_ffff <= frame * uses
            <= 0x8000_0000_0000_0000 * 0xffff_ffff_ffff_ffff) by (nonlinear_arith)
            requires
                -0x8000_0000_0000_0000 <= frame < 0x8000_0000_0000_0000,
                0 <= uses <= 0xffff_ffff_ffff_ffff,
        ;
        frame * uses
    }

    /// The divisor of the estimate, in nanoseconds: the time since the
    /// first usage.
    pub fn elapsed_nanoseconds(&self) -> (r: i128)
        ensures
            r == self.divisor_nanos(),
    {
        self.elapsed.nanoseconds()
    }
}

/// What the estimate for the object `name` is, given the time since its
/// first usage and the number of its usages.
///
/// Where no time at all has passed since the first usage there is nothing
/// to spread the usages over: the object then counts as never used. Any
/// other time, be it a fraction of a second, gives an estimate.
pub open spec fn estimated(
    name: Seq<char>,
    time_frame_seconds: i64,
    elapsed: Elapsed,
    uses: usize,
    r: Result<UsageEstimate, UsageTrackerError>,
) -> bool {
    if elapsed.total_nanos() == 0 {
        r matches Err(e) && e.is_never_used(name)
    } else {
        r == Ok::<UsageEstimate, UsageTrackerError>(
            UsageEstimate { time_frame_seconds, elapsed, uses },
        )
    }
}

/// Estimates the usages of the object `name` within a time frame of
/// `time_frame_seconds`, from the time that has passed since its first usage
/// and the number of its usages.
///
/// # Possible errors
/// - `UsageTrackerError::ObjectNeverUsed`, where no time has passed
pub fn estimate(name: &String, time_frame_seconds: i64, elapsed: Elapsed, uses: usize) -> (r:
    Result<UsageEstimate, UsageTrackerError>)
    ensures
        estimated(name@, time_frame_seconds, elapsed, uses, r),
{
    if elapsed.is_zero() {
        Err(UsageTrackerError::ObjectNeverUsed { name: name.clone() })
    } else {
        Ok(UsageEstimate { time_frame_seconds, elapsed, uses })
    }
}

/// A time frame as long as the time since the first usage holds all the
/// usages: where whole seconds have passed and the time frame has as many,
/// the estimate is the number of usages.
pub proof fn lemma_whole_history(estimate: UsageEstimate)
    requires
        estimate.elapsed.nanos == 0,
        estimate.elapsed.seconds == estimate.time_frame_seconds,
        estimate.time_frame_seconds != 0,
    ensures
        estimate.equals(estimate.uses as int),
{
    let frame = estimate.time_frame_seconds as int;
    let uses = estimate.uses as int;
    assert(frame * uses * 1_000_000_000 == uses * (frame * 1_000_000_000)) by (nonlinear_arith);
}

/// The time from the instant `earlier` to the instant `later`, as `chrono`
/// counts it.
pub open spec fn time_between(later: Timestamp, earlier: Timestamp) -> Elapsed {
    Elapsed {
        seconds: seconds_between(
            later.unix_seconds(),
            later.subsec_nanos(),
            earlier.unix_seconds(),
            earlier.subsec_nanos(),
        ),
        nanos: nanos_between(
            later.unix_seconds(),
            later.subsec_nanos(),
            earlier.unix_seconds(),
            earlier.subsec_nanos(),
        ),
    }
}

/// Whether `r` is the answer to the question how often the object `name` of
/// `registry` is used within `time_frame_seconds`, asked at the instant `now`.
///
/// An object that is not tracked, or has no usage, has no estimate.
/// Otherwise the usages are spread over the time from the first recorded
/// usage to `now`.
pub open spec fn usage_as_of(
    registry: Map<Seq<char>, Seq<Timestamp>>,
    name: Seq<char>,
    time_frame_seconds: i64,
    now: Timestamp,
    r: Result<UsageEstimate, UsageTrackerError>,
) -> bool {
    if !registry.contains_key(name) {
        r matches Err(e) && e.is_not_tracked(name)
    } else if registry[name].len() == 0 {
        r matches Err(e) && e.is_never_used(name)
    } else {
        estimated(
            name,
            time_frame_seconds,
            time_between(now, registry[name][0]),
            registry[name].len() as usize,
            r,
        )
    }
}

} // verus!
