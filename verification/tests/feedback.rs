use vision_assist::distance::Distance;
use vision_assist::feedback::{
    beep_pattern, decide, duration_millis, emergency_pattern, haptic_pattern, plan_feedback,
    pulse_timing, sound_pattern, Decision, Frame, Side,
};

fn rest(millis: u32) -> Frame {
    Frame { buzzer: false, left: false, right: false, millis }
}

fn left(millis: u32) -> Frame {
    Frame { buzzer: false, left: true, right: false, millis }
}

fn right(millis: u32) -> Frame {
    Frame { buzzer: false, left: false, right: true, millis }
}

fn buzz(millis: u32) -> Frame {
    Frame { buzzer: true, left: false, right: false, millis }
}

fn emergency() -> Vec<Frame> {
    vec![
        Frame { buzzer: true, left: true, right: false, millis: 150 },
        rest(50),
        Frame { buzzer: true, left: false, right: true, millis: 150 },
        rest(50),
        Frame { buzzer: true, left: true, right: true, millis: 300 },
        rest(100),
    ]
}

#[test]
fn frame_constructors() {
    assert_eq!(Frame::rest(5), rest(5));
    assert_eq!(Frame::motor(Side::Left, 6), left(6));
    assert_eq!(Frame::motor(Side::Right, 7), right(7));
    assert_eq!(Frame::buzz(8), buzz(8));
}

#[test]
fn pulse_table_is_exact() {
    assert_eq!(pulse_timing(1), (5, 95));
    assert_eq!(pulse_timing(2), (10, 90));
    assert_eq!(pulse_timing(3), (20, 80));
    assert_eq!(pulse_timing(4), (30, 70));
    assert_eq!(pulse_timing(5), (40, 60));
    assert_eq!(pulse_timing(6), (50, 50));
    assert_eq!(pulse_timing(7), (60, 40));
    assert_eq!(pulse_timing(8), (70, 30));
    assert_eq!(pulse_timing(9), (80, 20));
    assert_eq!(pulse_timing(10), (80, 0));
    assert_eq!(pulse_timing(0), (0, 0));
    assert_eq!(pulse_timing(11), (0, 0));
}

#[test]
fn duty_cycle_grows_with_intensity() {
    let mut level: u8 = 1;
    while level < 10 {
        let (on_low, off_low) = pulse_timing(level);
        let (on_high, off_high) = pulse_timing(level + 1);
        assert!(on_low <= on_high);
        assert!(off_low >= off_high);
        level += 1;
    }
}

#[test]
fn haptic_patterns_pulse_for_pulse() {
    assert_eq!(haptic_pattern(Side::Left, 10), vec![left(80)]);
    assert_eq!(haptic_pattern(Side::Left, 9), vec![left(80), rest(20), left(80)]);
    assert_eq!(haptic_pattern(Side::Left, 8), vec![left(70), rest(30), left(70)]);
    assert_eq!(haptic_pattern(Side::Left, 7), vec![left(60), rest(40), left(60)]);
    assert_eq!(haptic_pattern(Side::Right, 6), vec![right(50), rest(50), right(50)]);
    assert_eq!(haptic_pattern(Side::Right, 5), vec![right(40), rest(60), right(40)]);
    assert_eq!(haptic_pattern(Side::Right, 4), vec![right(30), rest(70), right(30)]);
    assert_eq!(haptic_pattern(Side::Right, 3), vec![right(20), rest(80), right(20)]);
    assert_eq!(haptic_pattern(Side::Left, 2), vec![left(10), rest(90), left(10)]);
    assert_eq!(haptic_pattern(Side::Left, 1), vec![left(5), rest(95), left(5)]);
    assert_eq!(haptic_pattern(Side::Right, 10), vec![right(80)]);
}

#[test]
fn haptic_pattern_without_a_level_rests() {
    assert_eq!(haptic_pattern(Side::Left, 0), vec![rest(10)]);
    assert_eq!(haptic_pattern(Side::Right, 11), vec![rest(10)]);
    assert_eq!(haptic_pattern(Side::Right, 255), vec![rest(10)]);
}

#[test]
fn warning_sound_bands() {
    let rapid = vec![buzz(25), rest(25), buzz(25), rest(25), buzz(25), rest(25)];
    assert_eq!(sound_pattern(Distance::from_cm(0)), rapid);
    assert_eq!(sound_pattern(Distance::from_units(9_999)), rapid);
    let double = vec![buzz(50), rest(50), buzz(50), rest(50)];
    assert_eq!(sound_pattern(Distance::from_cm(10)), double);
    assert_eq!(sound_pattern(Distance::from_units(19_999)), double);
    assert_eq!(sound_pattern(Distance::from_cm(20)), vec![buzz(70)]);
    assert_eq!(sound_pattern(Distance::from_cm(29)), vec![buzz(70)]);
    assert_eq!(sound_pattern(Distance::from_cm(300)), vec![buzz(70)]);
}

#[test]
fn beeps_alternate_sound_and_silence() {
    assert_eq!(beep_pattern(0, 40), Vec::<Frame>::new());
    assert_eq!(beep_pattern(1, 40), vec![buzz(40), rest(40)]);
    assert_eq!(beep_pattern(2, 5), vec![buzz(5), rest(5), buzz(5), rest(5)]);
    assert_eq!(beep_pattern(255, 1).len(), 510);
}

#[test]
fn emergency_pattern_is_fixed() {
    assert_eq!(emergency_pattern(), emergency());
    assert_eq!(duration_millis(&emergency_pattern()), 800);
}

#[test]
fn emergency_iff_nearer_side_under_ten_centimetres() {
    let samples: [u32; 9] = [0, 1, 5_000, 9_999, 10_000, 10_001, 29_999, 100_000, 400_000];
    for l in samples {
        for r in samples {
            let decision = decide(Distance::from_units(l), Distance::from_units(r));
            let expected = l.min(r) < 10_000;
            assert_eq!(decision == Decision::Emergency, expected);
            let plan = plan_feedback(Distance::from_units(l), Distance::from_units(r));
            assert_eq!(plan.decision, decision);
            let mut alarm = vec![rest(0)];
            alarm.extend(emergency());
            assert_eq!(plan.frames == alarm, expected);
        }
    }
}

#[test]
fn emergency_skips_normal_processing() {
    let plan = plan_feedback(Distance::from_cm(5), Distance::from_cm(200));
    assert_eq!(plan.decision, Decision::Emergency);
    let mut expected = vec![rest(0)];
    expected.extend(emergency());
    assert_eq!(plan.frames, expected);
    assert_eq!(duration_millis(&plan.frames), 150 + 50 + 150 + 50 + 300 + 100);
    assert_eq!(duration_millis(&plan.frames), 800);

    let other = plan_feedback(Distance::from_cm(50), Distance::from_units(9_999));
    assert_eq!(other.decision, Decision::Emergency);
    assert_eq!(other.frames, expected);

    let both = plan_feedback(Distance::from_cm(1), Distance::from_cm(2));
    assert_eq!(both.frames, expected);
}

#[test]
fn audio_goes_to_the_nearer_side() {
    let plan = plan_feedback(Distance::from_cm(25), Distance::from_cm(40));
    assert_eq!(
        plan.decision,
        Decision::Normal { left_level: 7, right_level: 5, audio: Some(Side::Left) }
    );
    assert_eq!(
        plan.frames,
        vec![
            rest(0),
            left(60),
            rest(40),
            left(60),
            rest(0),
            right(40),
            rest(60),
            right(40),
            rest(0),
            buzz(70),
            rest(0),
        ]
    );
    let mirrored = plan_feedback(Distance::from_cm(40), Distance::from_cm(15));
    assert_eq!(
        mirrored.decision,
        Decision::Normal { left_level: 5, right_level: 8, audio: Some(Side::Right) }
    );
    assert_eq!(
        mirrored.frames,
        vec![
            rest(0),
            left(40),
            rest(60),
            left(40),
            rest(0),
            right(70),
            rest(30),
            right(70),
            rest(0),
            buzz(50),
            rest(50),
            buzz(50),
            rest(50),
            rest(0),
        ]
    );
}

#[test]
fn audio_tie_goes_to_the_left() {
    let decision = decide(Distance::from_cm(15), Distance::from_cm(15));
    assert_eq!(
        decision,
        Decision::Normal { left_level: 8, right_level: 8, audio: Some(Side::Left) }
    );
    let plan = plan_feedback(Distance::from_cm(15), Distance::from_cm(15));
    assert_eq!(
        plan.frames,
        vec![
            rest(0),
            left(70),
            rest(30),
            left(70),
            rest(0),
            right(70),
            rest(30),
            right(70),
            rest(0),
            buzz(50),
            rest(50),
            buzz(50),
            rest(50),
            rest(0),
        ]
    );
}

#[test]
fn audio_needs_a_side_in_the_critical_zone() {
    let at_edge = decide(Distance::from_cm(30), Distance::from_cm(30));
    assert_eq!(at_edge, Decision::Normal { left_level: 6, right_level: 6, audio: None });
    let one_in = decide(Distance::from_cm(200), Distance::from_units(29_999));
    assert_eq!(
        one_in,
        Decision::Normal { left_level: 0, right_level: 7, audio: Some(Side::Right) }
    );
}

#[test]
fn warning_and_notice_zones_without_audio() {
    let plan = plan_feedback(Distance::from_cm(50), Distance::from_cm(80));
    assert_eq!(plan.decision, Decision::Normal { left_level: 4, right_level: 2, audio: None });
    assert_eq!(
        plan.frames,
        vec![
            rest(0),
            left(30),
            rest(70),
            left(30),
            rest(0),
            right(10),
            rest(90),
            right(10),
            rest(0),
            rest(0),
        ]
    );
    assert!(plan.frames.iter().all(|f| !f.buzzer));
    assert_eq!(duration_millis(&plan.frames), 240);
}

#[test]
fn clear_on_both_sides_is_silent() {
    let plan = plan_feedback(Distance::from_cm(100), Distance::from_cm(400));
    assert_eq!(plan.decision, Decision::Normal { left_level: 0, right_level: 0, audio: None });
    assert_eq!(plan.frames, vec![rest(0), rest(0)]);
    assert_eq!(duration_millis(&plan.frames), 0);
}

#[test]
fn only_the_right_side_vibrates() {
    let plan = plan_feedback(Distance::from_cm(150), Distance::from_cm(60));
    assert_eq!(plan.decision, Decision::Normal { left_level: 0, right_level: 3, audio: None });
    assert_eq!(plan.frames, vec![rest(0), right(20), rest(80), right(20), rest(0), rest(0)]);
}

#[test]
fn plans_start_and_end_at_rest_and_stay_bounded() {
    let mut l: u32 = 0;
    while l < 120_000 {
        let mut r: u32 = 0;
        while r < 120_000 {
            let plan = plan_feedback(Distance::from_units(l), Distance::from_units(r));
            let first = plan.frames[0];
            let last = plan.frames[plan.frames.len() - 1];
            assert_eq!(first, rest(0));
            assert!(!last.buzzer && !last.left && !last.right);
            assert!(duration_millis(&plan.frames) <= 800);
            if plan.decision != Decision::Emergency {
                for f in plan.frames.iter() {
                    let driven = f.buzzer as u8 + f.left as u8 + f.right as u8;
                    assert!(driven <= 1);
                }
            }
            r += 4_999;
        }
        l += 3_001;
    }
}

#[test]
fn longest_normal_plan() {
    let plan = plan_feedback(Distance::from_cm(10), Distance::from_cm(10));
    assert_eq!(duration_millis(&plan.frames), 180 + 180 + 200);
}

#[test]
fn duration_adds_up_every_frame() {
    assert_eq!(duration_millis(&Vec::new()), 0);
    assert_eq!(duration_millis(&vec![left(5), rest(95), left(5)]), 105);
    assert_eq!(duration_millis(&vec![rest(u32::MAX), buzz(u32::MAX)]), 2 * (u32::MAX as u64));
}
