use vision_assist::classifier::DangerLevel;
use vision_assist::control::{run_cycle, Channel};
use vision_assist::distance::Distance;
use vision_assist::estimator::{estimate, Estimator, NoValidReadings};
use vision_assist::feedback::{Decision, Frame, Side};
use vision_assist::rangefinder::{
    await_echo, distance_from_pulse, elapsed_micros, measure, time_echo, Action,
    MeasureError, Observation, Rangefinder,
};
use vision_assist::status::Readings;

fn seen(now_micros: u64, echo_high: bool) -> Observation {
    Observation { now_micros, echo_high }
}

#[test]
fn pulse_width_to_distance() {
    // 1000 us * 0.034 cm/us / 2 = 17 cm
    assert_eq!(distance_from_pulse(1_000), Ok(Distance::from_cm(17)));
    assert_eq!(distance_from_pulse(118), Ok(Distance::from_units(2_006)));
    assert_eq!(distance_from_pulse(23_529), Ok(Distance::from_units(399_993)));
    assert_eq!(distance_from_pulse(5_882), Ok(Distance::from_units(99_994)));
}

#[test]
fn pulse_width_out_of_range() {
    assert_eq!(distance_from_pulse(0), Err(MeasureError::OutOfRange));
    assert_eq!(distance_from_pulse(117), Err(MeasureError::OutOfRange));
    assert_eq!(distance_from_pulse(23_530), Err(MeasureError::OutOfRange));
    assert_eq!(distance_from_pulse(u64::MAX), Err(MeasureError::OutOfRange));
}

#[test]
fn elapsed_time_never_underflows() {
    assert_eq!(elapsed_micros(10, 25), 15);
    assert_eq!(elapsed_micros(25, 25), 0);
    assert_eq!(elapsed_micros(25, 10), 0);
    assert_eq!(elapsed_micros(0, u64::MAX), u64::MAX);
}

#[test]
fn measurement_of_a_clean_echo() {
    let mut r = Rangefinder::new();
    assert_eq!(r, Rangefinder::Idle);
    assert_eq!(r.step(seen(0, false)), Action::Pulse { micros: 10 });
    assert_eq!(r, Rangefinder::Pulsed);
    assert_eq!(r.step(seen(12, false)), Action::Poll { micros: 10 });
    assert_eq!(r, Rangefinder::AwaitingEcho { since: 12 });
    assert_eq!(r.step(seen(23, false)), Action::Poll { micros: 10 });
    assert_eq!(r, Rangefinder::AwaitingEcho { since: 12 });
    assert_eq!(r.step(seen(34, true)), Action::Poll { micros: 10 });
    assert_eq!(r, Rangefinder::Timing { since: 34 });
    assert_eq!(r.step(seen(500, true)), Action::Poll { micros: 10 });
    assert_eq!(r, Rangefinder::Timing { since: 34 });
    assert_eq!(r.step(seen(1_034, false)), Action::Report(Ok(Distance::from_cm(17))));
    assert_eq!(r, Rangefinder::Idle);
}

#[test]
fn echo_already_high_after_the_pulse() {
    let mut r = Rangefinder::Pulsed;
    assert_eq!(r.step(seen(100, true)), Action::Poll { micros: 10 });
    assert_eq!(r, Rangefinder::Timing { since: 100 });
    assert_eq!(r.step(seen(2_100, false)), Action::Report(Ok(Distance::from_cm(34))));
}

#[test]
fn echo_that_never_starts_times_out() {
    let mut r = Rangefinder::new();
    assert_eq!(r.step(seen(1_000, false)), Action::Pulse { micros: 10 });
    assert_eq!(r.step(seen(1_010, false)), Action::Poll { micros: 10 });
    assert_eq!(r.step(seen(101_010, false)), Action::Poll { micros: 10 });
    assert_eq!(r, Rangefinder::AwaitingEcho { since: 1_010 });
    assert_eq!(
        r.step(seen(101_011, false)),
        Action::Report(Err(MeasureError::EchoTimeoutStart))
    );
    assert_eq!(r, Rangefinder::Idle);
}

#[test]
fn echo_that_never_ends_times_out() {
    let mut r = Rangefinder::Timing { since: 50 };
    assert_eq!(r.step(seen(100_050, true)), Action::Poll { micros: 10 });
    assert_eq!(r.step(seen(100_051, true)), Action::Report(Err(MeasureError::EchoTimeoutEnd)));
    assert_eq!(r, Rangefinder::Idle);
}

#[test]
fn echo_that_is_too_short_or_too_long_is_out_of_range() {
    let mut r = Rangefinder::Timing { since: 50 };
    assert_eq!(r.step(seen(60, false)), Action::Report(Err(MeasureError::OutOfRange)));
    let mut s = Rangefinder::Timing { since: 50 };
    assert_eq!(s.step(seen(50_000, false)), Action::Report(Err(MeasureError::OutOfRange)));
}

#[test]
fn single_looks_at_the_echo() {
    assert_eq!(
        await_echo(5, seen(9, false)),
        (Rangefinder::AwaitingEcho { since: 5 }, Action::Poll { micros: 10 })
    );
    assert_eq!(
        await_echo(5, seen(9, true)),
        (Rangefinder::Timing { since: 9 }, Action::Poll { micros: 10 })
    );
    assert_eq!(
        time_echo(5, seen(9, true)),
        (Rangefinder::Timing { since: 5 }, Action::Poll { micros: 10 })
    );
    assert_eq!(
        time_echo(0, seen(200, false)),
        (Rangefinder::Idle, Action::Report(Ok(Distance::from_units(3_400))))
    );
}

#[test]
fn a_clock_that_goes_backwards_does_not_time_out() {
    let mut r = Rangefinder::AwaitingEcho { since: 1_000 };
    assert_eq!(r.step(seen(10, false)), Action::Poll { micros: 10 });
    assert_eq!(r, Rangefinder::AwaitingEcho { since: 1_000 });
}

#[test]
fn all_failures_give_up_after_exactly_five_attempts() {
    let mut estimator = Estimator::new();
    let mut attempts: u32 = 0;
    while estimator.wants_more() {
        assert_eq!(estimator.record(Err(MeasureError::OutOfRange)), 10);
        attempts += 1;
    }
    assert_eq!(estimator.record(Err(MeasureError::OutOfRange)), 0);
    assert_eq!(attempts, 5);
    assert_eq!(estimator.attempts(), 5);
    assert_eq!(estimator.valid_readings(), 0);
    assert_eq!(estimator.result(), Err(NoValidReadings));
    let samples = vec![Err(MeasureError::OutOfRange); 5];
    assert_eq!(estimate(&samples), Err(NoValidReadings));
}

#[test]
fn estimator_wants_more_until_the_fifth_failure() {
    let mut estimator = Estimator::new();
    for done in 0..5u8 {
        assert!(estimator.wants_more());
        assert_eq!(estimator.attempts(), done);
        estimator.record(Err(MeasureError::EchoTimeoutStart));
    }
    assert!(!estimator.wants_more());
}

#[test]
fn estimator_stops_after_three_readings() {
    let mut estimator = Estimator::new();
    estimator.record(Ok(Distance::from_cm(10)));
    estimator.record(Ok(Distance::from_cm(20)));
    assert!(estimator.wants_more());
    estimator.record(Ok(Distance::from_cm(60)));
    assert!(!estimator.wants_more());
    assert_eq!(estimator.attempts(), 3);
    assert_eq!(estimator.valid_readings(), 3);
    assert_eq!(estimator.result(), Ok(Distance::from_cm(30)));
    estimator.record(Ok(Distance::from_cm(400)));
    assert_eq!(estimator.attempts(), 3);
    assert_eq!(estimator.result(), Ok(Distance::from_cm(30)));
}

#[test]
fn estimate_is_the_mean_of_the_readings_kept() {
    let samples = vec![
        Err(MeasureError::EchoTimeoutStart),
        Ok(Distance::from_cm(40)),
        Err(MeasureError::EchoTimeoutEnd),
        Ok(Distance::from_cm(50)),
        Err(MeasureError::OutOfRange),
        Ok(Distance::from_cm(300)),
    ];
    assert_eq!(estimate(&samples), Ok(Distance::from_cm(45)));
    let three_then_more = vec![
        Ok(Distance::from_cm(10)),
        Ok(Distance::from_cm(11)),
        Ok(Distance::from_cm(12)),
        Ok(Distance::from_cm(399)),
    ];
    assert_eq!(estimate(&three_then_more), Ok(Distance::from_cm(11)));
    let single = vec![Err(MeasureError::OutOfRange), Ok(Distance::from_units(12_345))];
    assert_eq!(estimate(&single), Ok(Distance::from_units(12_345)));
    let truncated = vec![Ok(Distance::from_units(10)), Ok(Distance::from_units(11))];
    assert_eq!(estimate(&truncated), Ok(Distance::from_units(10)));
    assert_eq!(estimate(&Vec::new()), Err(NoValidReadings));
}

#[test]
fn a_reading_after_five_failures_is_ignored() {
    let mut samples = vec![Err(MeasureError::EchoTimeoutStart); 5];
    samples.push(Ok(Distance::from_cm(20)));
    assert_eq!(estimate(&samples), Err(NoValidReadings));
}

#[test]
fn largest_readings_do_not_overflow() {
    let far = Distance::from_units(u32::MAX);
    assert_eq!(estimate(&vec![Ok(far), Ok(far), Ok(far)]), Ok(far));
}

#[test]
fn channel_starts_clear() {
    let channel = Channel::new(Side::Right);
    assert_eq!(channel.side, Side::Right);
    assert_eq!(channel.smoothed, Distance::from_cm(100));
    assert_eq!(channel.level, DangerLevel::Clear);
}

#[test]
fn channel_smooths_and_classifies() {
    let mut channel = Channel::new(Side::Left);
    // 0.7 * 20 + 0.3 * 100 = 44
    assert_eq!(channel.update(Ok(Distance::from_cm(20))), Distance::from_cm(44));
    assert_eq!(channel.level, DangerLevel::Medium);
    // 0.7 * 20 + 0.3 * 44 = 27.2
    assert_eq!(channel.update(Ok(Distance::from_cm(20))), Distance::from_units(27_200));
    assert_eq!(channel.level, DangerLevel::High);
    assert_eq!(channel.side, Side::Left);
}

#[test]
fn failed_estimate_counts_as_far() {
    let mut channel = Channel::new(Side::Left);
    assert_eq!(channel.update(Err(NoValidReadings)), Distance::from_cm(100));
    assert_eq!(channel.level, DangerLevel::Clear);
    channel.update(Ok(Distance::from_cm(0)));
    assert_eq!(channel.smoothed, Distance::from_cm(30));
    // 0.7 * 100 + 0.3 * 30 = 79
    assert_eq!(channel.update(Err(NoValidReadings)), Distance::from_cm(79));
    assert_eq!(channel.level, DangerLevel::Low);
}

#[test]
fn one_cycle_end_to_end() {
    let mut left = Channel::new(Side::Left);
    let mut right = Channel::new(Side::Right);
    let cycle = run_cycle(&mut left, &mut right, Ok(Distance::from_cm(0)), Err(NoValidReadings));
    assert_eq!(
        cycle.readings,
        Readings { left: Distance::from_cm(30), right: Distance::from_cm(100) }
    );
    assert_eq!(left.smoothed, Distance::from_cm(30));
    assert_eq!(right.smoothed, Distance::from_cm(100));
    assert_eq!(cycle.pause_millis, 50);
    assert_eq!(
        cycle.plan.decision,
        Decision::Normal { left_level: 6, right_level: 0, audio: None }
    );
    assert_eq!(
        cycle.plan.frames,
        vec![
            Frame::rest(0),
            Frame::motor(Side::Left, 50),
            Frame::rest(50),
            Frame::motor(Side::Left, 50),
            Frame::rest(0),
            Frame::rest(0),
        ]
    );
    let next = run_cycle(&mut left, &mut right, Ok(Distance::from_cm(0)), Err(NoValidReadings));
    assert_eq!(next.readings.left, Distance::from_cm(9));
    assert_eq!(next.plan.decision, Decision::Emergency);
    assert_eq!(next.plan.frames.len(), 7);
}

#[test]
fn silent_sensors_cause_no_feedback() {
    let mut left = Channel::new(Side::Left);
    let mut right = Channel::new(Side::Right);
    for _ in 0..10 {
        let cycle = run_cycle(&mut left, &mut right, Err(NoValidReadings), Err(NoValidReadings));
        assert_eq!(cycle.plan.frames, vec![Frame::rest(0), Frame::rest(0)]);
        assert_eq!(cycle.readings.left, Distance::from_cm(100));
    }
}

#[test]
fn measure_over_a_recorded_trace() {
    let clean = vec![
        seen(0, false),
        seen(12, false),
        seen(30, false),
        seen(40, true),
        seen(1_000, true),
        seen(3_040, false),
        seen(9_999, true),
    ];
    // 3000 us * 0.017 cm/us = 51 cm
    assert_eq!(measure(&clean), Some(Ok(Distance::from_cm(51))));
    let unfinished = vec![seen(0, false), seen(12, false), seen(30, true)];
    assert_eq!(measure(&unfinished), None);
    assert_eq!(measure(&Vec::new()), None);
    let silent = vec![seen(0, false), seen(10, false), seen(50_000, false), seen(100_011, false)];
    assert_eq!(measure(&silent), Some(Err(MeasureError::EchoTimeoutStart)));
    let stuck = vec![seen(0, false), seen(10, true), seen(50_000, true), seen(100_011, true)];
    assert_eq!(measure(&stuck), Some(Err(MeasureError::EchoTimeoutEnd)));
    let glitch = vec![seen(0, false), seen(10, true), seen(20, false)];
    assert_eq!(measure(&glitch), Some(Err(MeasureError::OutOfRange)));
}
