use usage_tracker::estimate::estimate;
use usage_tracker::time_frame::{time_frame_seconds, TimeUnit};
use usage_tracker::{Elapsed, Timestamp, UsageEstimate, UsageInformation, UsageTrackerError};

const HOUR: i64 = 3_600;

fn at(seconds: i64) -> Timestamp {
    Timestamp::from_unix(seconds, 0).unwrap()
}

fn whole(seconds: i64) -> Elapsed {
    Elapsed { seconds, nanos: 0 }
}

fn as_float(estimate: &UsageEstimate) -> f64 {
    let elapsed = estimate.elapsed.seconds as f64 + estimate.elapsed.nanos as f64 / 1e9;
    estimate.time_frame_seconds as f64 / elapsed * estimate.uses as f64
}

#[test]
fn ten_usages_in_ten_days_are_one_a_day() {
    let mut info = UsageInformation::new();
    let kettle = String::from("kettle");
    let first = 1_600_000_000;
    for i in 0..10 {
        info.record_use_at(&kettle, true, at(first + i * 24 * HOUR)).unwrap();
    }
    let now = at(first + 240 * HOUR);
    let estimate = info.usage_at(&kettle, 24 * HOUR, now).unwrap();
    assert_eq!(
        estimate,
        UsageEstimate { time_frame_seconds: 86_400, elapsed: whole(864_000), uses: 10 }
    );
    assert_eq!(estimate.numerator(), 864_000);
    assert_eq!(estimate.elapsed_nanoseconds(), 864_000_000_000_000);
    assert!((as_float(&estimate) - 1.0).abs() < 1e-9);
}

#[test]
fn the_estimate_counts_from_the_first_recorded_usage() {
    let mut info = UsageInformation::new();
    let kettle = String::from("kettle");
    info.record_use_at(&kettle, true, at(1_000)).unwrap();
    info.record_use_at(&kettle, true, at(500)).unwrap();
    info.record_use_at(&kettle, true, at(2_000)).unwrap();
    let estimate = info.usage_at(&kettle, 60, at(4_000)).unwrap();
    assert_eq!(
        estimate,
        UsageEstimate { time_frame_seconds: 60, elapsed: whole(3_000), uses: 3 }
    );
    assert_eq!(estimate.numerator(), 180);
    assert_eq!(estimate.elapsed_nanoseconds(), 3_000_000_000_000);
    assert!((as_float(&estimate) - 0.06).abs() < 1e-12);
}

#[test]
fn the_estimate_may_be_negative() {
    let mut info = UsageInformation::new();
    let kettle = String::from("kettle");
    info.record_use_at(&kettle, true, at(1_000)).unwrap();
    assert_eq!(
        info.usage_at(&kettle, -100, at(1_050)),
        Ok(UsageEstimate { time_frame_seconds: -100, elapsed: whole(50), uses: 1 })
    );
    assert_eq!(
        info.usage_at(&kettle, 100, at(950)),
        Ok(UsageEstimate { time_frame_seconds: 100, elapsed: whole(-50), uses: 1 })
    );
}

#[test]
fn fractions_of_a_second_since_the_first_usage_count() {
    let mut info = UsageInformation::new();
    let kettle = String::from("kettle");
    info.record_use_at(&kettle, true, Timestamp::from_unix(1_000, 900_000_000).unwrap())
        .unwrap();
    let now = Timestamp::from_unix(1_003, 100_000_000).unwrap();
    let estimate = info.usage_at(&kettle, 11, now).unwrap();
    assert_eq!(
        estimate,
        UsageEstimate {
            time_frame_seconds: 11,
            elapsed: Elapsed { seconds: 2, nanos: 200_000_000 },
            uses: 1
        }
    );
    assert_eq!(estimate.numerator(), 11);
    assert_eq!(estimate.elapsed_nanoseconds(), 2_200_000_000);
    assert!((as_float(&estimate) - 5.0).abs() < 1e-12);
}

#[test]
fn one_usage_a_second_and_a_half_ago_makes_two_in_three_seconds() {
    let mut info = UsageInformation::new();
    let kettle = String::from("kettle");
    // 2021-01-01T00:00:00Z, asked about at 2021-01-01T00:00:01.500Z.
    info.record_use_at(&kettle, true, at(1_609_459_200)).unwrap();
    let now = Timestamp::from_unix(1_609_459_201, 500_000_000).unwrap();
    let estimate = info.usage_at(&kettle, 3, now).unwrap();
    assert_eq!(estimate.numerator(), 3);
    assert_eq!(estimate.elapsed_nanoseconds(), 1_500_000_000);
    assert_eq!(as_float(&estimate), 2.0);
}

#[test]
fn the_estimate_looks_back_as_well() {
    let mut info = UsageInformation::new();
    let kettle = String::from("kettle");
    info.record_use_at(&kettle, true, Timestamp::from_unix(10, 250_000_000).unwrap()).unwrap();
    let estimate = info.usage_at(&kettle, 1, at(9)).unwrap();
    assert_eq!(estimate.elapsed, Elapsed { seconds: -1, nanos: -250_000_000 });
    assert_eq!(estimate.elapsed_nanoseconds(), -1_250_000_000);
    assert_eq!(as_float(&estimate), -0.8);
}

#[test]
fn an_untracked_object_has_no_estimate() {
    let info = UsageInformation::new();
    let kettle = String::from("kettle");
    assert_eq!(
        info.usage_at(&kettle, 60, at(10)),
        Err(UsageTrackerError::ObjectNotTracked { name: kettle.clone() })
    );
    assert_eq!(
        info.usage(&kettle, 60),
        Err(UsageTrackerError::ObjectNotTracked { name: kettle.clone() })
    );
}

#[test]
fn a_never_used_object_has_no_estimate() {
    let mut info = UsageInformation::new();
    let kettle = String::from("kettle");
    info.add(&kettle).unwrap();
    assert_eq!(
        info.usage_at(&kettle, 60, at(10)),
        Err(UsageTrackerError::ObjectNeverUsed { name: kettle.clone() })
    );
    assert_eq!(
        info.usage(&kettle, 60),
        Err(UsageTrackerError::ObjectNeverUsed { name: kettle.clone() })
    );
}

#[test]
fn an_object_first_used_this_very_moment_counts_as_never_used() {
    let mut info = UsageInformation::new();
    let kettle = String::from("kettle");
    let first = Timestamp::from_unix(1_000, 5).unwrap();
    info.record_use_at(&kettle, true, first).unwrap();
    assert_eq!(
        info.usage_at(&kettle, 60, first),
        Err(UsageTrackerError::ObjectNeverUsed { name: kettle.clone() })
    );
    assert_eq!(
        estimate(&kettle, 60, whole(0), 1),
        Err(UsageTrackerError::ObjectNeverUsed { name: kettle.clone() })
    );
}

#[test]
fn an_object_first_used_a_moment_ago_has_an_estimate() {
    let mut info = UsageInformation::new();
    let kettle = String::from("kettle");
    info.record_use_at(&kettle, true, at(1_000)).unwrap();
    let later = info.usage_at(&kettle, 60, Timestamp::from_unix(1_000, 1).unwrap()).unwrap();
    assert_eq!(later.elapsed, Elapsed { seconds: 0, nanos: 1 });
    assert_eq!(later.elapsed_nanoseconds(), 1);
    let sooner = info.usage_at(&kettle, 60, Timestamp::from_unix(999, 999_999_999).unwrap());
    assert_eq!(sooner.unwrap().elapsed, Elapsed { seconds: 0, nanos: -1 });
    let half = info.usage_at(&kettle, 60, Timestamp::from_unix(1_000, 500_000_000).unwrap());
    assert_eq!(as_float(&half.unwrap()), 120.0);
}

#[test]
fn the_estimate_as_of_the_clock_counts_from_the_first_usage() {
    let mut info = UsageInformation::new();
    let kettle = String::from("kettle");
    // First used on 2020-01-01; the clock of any run of this test is later.
    info.record_use_at(&kettle, true, at(1_577_836_800)).unwrap();
    info.record_use_at(&kettle, true, at(1_577_836_900)).unwrap();
    let estimate = info.usage(&kettle, 7 * 24 * HOUR).unwrap();
    assert_eq!(estimate.time_frame_seconds, 604_800);
    assert_eq!(estimate.uses, 2);
    assert!(estimate.elapsed.seconds > 100_000_000);
    assert!(estimate.elapsed.nanos >= 0);
}

#[test]
fn estimate_keeps_its_three_parts() {
    let kettle = String::from("kettle");
    assert_eq!(
        estimate(&kettle, 86_400, whole(43_200), 3),
        Ok(UsageEstimate { time_frame_seconds: 86_400, elapsed: whole(43_200), uses: 3 })
    );
    let large =
        estimate(&kettle, i64::MIN, Elapsed { seconds: i64::MIN, nanos: i32::MIN }, usize::MAX)
            .unwrap();
    assert_eq!(large.numerator(), i64::MIN as i128 * usize::MAX as i128);
    assert_eq!(
        large.elapsed_nanoseconds(),
        i64::MIN as i128 * 1_000_000_000 + i32::MIN as i128
    );
    // Seconds and nanoseconds that cancel out are no time at all.
    assert!(estimate(&kettle, 1, Elapsed { seconds: 1, nanos: -1_000_000_000 }, 1).is_err());
}

#[test]
fn units_of_time_have_symbols() {
    assert_eq!(TimeUnit::from_symbol('y'), Some(TimeUnit::Year));
    assert_eq!(TimeUnit::from_symbol('M'), Some(TimeUnit::Month));
    assert_eq!(TimeUnit::from_symbol('w'), Some(TimeUnit::Week));
    assert_eq!(TimeUnit::from_symbol('d'), Some(TimeUnit::Day));
    assert_eq!(TimeUnit::from_symbol('h'), Some(TimeUnit::Hour));
    assert_eq!(TimeUnit::from_symbol('m'), Some(TimeUnit::Minute));
    assert_eq!(TimeUnit::from_symbol('s'), Some(TimeUnit::Second));
    assert_eq!(TimeUnit::from_symbol('Y'), None);
    assert_eq!(TimeUnit::from_symbol('x'), None);
}

#[test]
fn time_frames_are_counted_in_seconds() {
    assert_eq!(TimeUnit::Year.in_seconds(), 31_536_000);
    assert_eq!(TimeUnit::Month.in_seconds(), 2_592_000);
    assert_eq!(TimeUnit::Week.in_seconds(), 604_800);
    assert_eq!(time_frame_seconds(2, TimeUnit::Year), Some(63_072_000));
    assert_eq!(time_frame_seconds(3, TimeUnit::Month), Some(7_776_000));
    assert_eq!(time_frame_seconds(1, TimeUnit::Week), Some(604_800));
    assert_eq!(time_frame_seconds(24, TimeUnit::Hour), Some(86_400));
    assert_eq!(time_frame_seconds(1, TimeUnit::Day), Some(86_400));
    assert_eq!(time_frame_seconds(-90, TimeUnit::Minute), Some(-5_400));
    assert_eq!(time_frame_seconds(0, TimeUnit::Second), Some(0));
    assert_eq!(time_frame_seconds(i64::MAX, TimeUnit::Second), Some(i64::MAX));
}

#[test]
fn time_frames_that_do_not_fit_are_refused() {
    assert_eq!(time_frame_seconds(i64::MAX, TimeUnit::Minute), None);
    assert_eq!(time_frame_seconds(i64::MIN, TimeUnit::Year), None);
    assert_eq!(time_frame_seconds(292_471_208_678, TimeUnit::Year), None);
    assert_eq!(
        time_frame_seconds(292_471_208_677, TimeUnit::Year),
        Some(292_471_208_677 * 31_536_000)
    );
}
