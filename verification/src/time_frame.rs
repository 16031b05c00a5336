//! Time frames, given as a number of units of time.

use vstd::prelude::*;

verus! {

/// A unit in which the length of a time frame is given.
#[derive(Clone, Copy, Debug, PartialEq, Eq, Structural)]
pub enum TimeUnit {
    /// 365 days.
    Year,
    /// 30 days.
    Month,
    /// 7 days.
    Week,
    /// 24 hours.
    Day,
    /// 60 minutes.
    Hour,
    /// 60 seconds.
    Minute,
    /// One second.
    Second,
}

impl TimeUnit {
    /// The length of this unit in seconds.
    pub open spec fn seconds(self) -> int {
        match self {
            TimeUnit::Year => 365 * 86_400int,
            TimeUnit::Month => 30 * 86_400int,
            TimeUnit::Week => 7 * 86_400int,
            TimeUnit::Day => 86_400,
            TimeUnit::Hour => 3_600,
            TimeUnit::Minute => 60,
            TimeUnit::Second => 1,
        }
    }

    /// The unit that `symbol` stands for: `y` for years, `M` for months, `w`
    /// for weeks, `d` for days, `h` for hours, `m` for minutes and `s` for
    /// seconds.
    pub open spec fn named_by(symbol: char) -> Option<TimeUnit> {
        if symbol == 'y' {
            Some(TimeUnit::Year)
        } else if symbol == 'M' {
            Some(TimeUnit::Month)
        } else if symbol == 'w' {
            Some(TimeUnit::Week)
        } else if symbol == 'd' {
            Some(TimeUnit::Day)
        } else if symbol == 'h' {
            Some(TimeUnit::Hour)
        } else if symbol == 'm' {
            Some(TimeUnit::Minute)
        } else if symbol == 's' {
            Some(TimeUnit::Second)
        } else {
            None
        }
    }

    /// The unit that `symbol` stands for, if it stands for one.
    pub fn from_symbol(symbol: char) -> (r: Option<TimeUnit>)
        ensures
            r == Self::named_by(symbol),
    {
        match symbol {
            'y' => Some(TimeUnit::Year),
            'M' => Some(TimeUnit::Month),
            'w' => Some(TimeUnit::Week),
            'd' => Some(TimeUnit::Day),
            'h' => Some(TimeUnit::Hour),
            'm' => Some(TimeUnit::Minute),
            's' => Some(TimeUnit::Second),
            _ => None,
        }
    }

    /// The length of this unit in seconds.
    pub fn in_seconds(&self) -> (r: i64)
        ensures
            r == self.seconds(),
    {
        match self {
            TimeUnit::Year => 31_536_000,
            TimeUnit::Month => 2_592_000,
            TimeUnit::Week => 604_800,
            TimeUnit::Day => 86_400,
            TimeUnit::Hour => 3_600,
            TimeUnit::Minute => 60,
            TimeUnit::Second => 1,
        }
    }
}

/// The seconds in a time frame of `length` units, or `None` where they are
/// more than an `i64` holds. A negative length gives a negative time frame.
pub fn time_frame_seconds(length: i64, unit: TimeUnit) -> (r: Option<i64>)
    ensures
        r == if i64::MIN <= length * unit.seconds() <= i64::MAX {
            Some((length * unit.seconds()) as i64)
        } else {
            None
        },
{
    length.checked_mul(unit.in_seconds())
}

} // verus!
