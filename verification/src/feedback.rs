//! The feedback orchestrator: from the two channels' distances to one timed
//! plan for the two vibration motors and the shared buzzer.
//!
//! A plan is a sequence of frames. A frame names the lines that are driven
//! high and how long that state is held; every line a frame does not name is
//! at rest. Executing a plan means applying the frames in order.

use vstd::prelude::*;
use crate::classifier::{intensity, intensity_of};
use crate::distance::{Distance, CRITICAL_DISTANCE, EXTREME_DISTANCE};
use crate::feedback_laws::lemma_plan_length_bounded;

verus! {

/// Below this distance the warning sound is a double beep; at or beyond it,
/// a single one.
pub const CLOSE_SOUND_DISTANCE: u32 = 20_000;

/// The longest time any plan takes, in milliseconds.
pub const LONGEST_PLAN_MILLIS: u64 = 800;

/// The largest number of frames in any plan.
pub const LONGEST_PLAN_FRAMES: usize = 14;

/// One of the two channels.
#[derive(Clone, Copy, Debug, PartialEq, Eq, Structural)]
pub enum Side {
    Left,
    Right,
}

/// The state of the three actuator lines, held for `millis` milliseconds.
#[derive(Clone, Copy, Debug, PartialEq, Eq, Structural)]
pub struct Frame {
    pub buzzer: bool,
    pub left: bool,
    pub right: bool,
    pub millis: u32,
}

/// The frame in which every line is at rest.
pub open spec fn rest_frame(millis: u32) -> Frame {
    Frame { buzzer: false, left: false, right: false, millis }
}

/// The frame in which only the motor of `side` runs.
pub open spec fn motor_frame(side: Side, millis: u32) -> Frame {
    Frame { buzzer: false, left: side == Side::Left, right: side == Side::Right, millis }
}

/// The frame in which only the buzzer sounds.
pub open spec fn buzzer_frame(millis: u32) -> Frame {
    Frame { buzzer: true, left: false, right: false, millis }
}

impl Frame {
    /// Every line is at rest.
    pub open spec fn is_rest(self) -> bool {
        !self.buzzer && !self.left && !self.right
    }

    /// At most one of the three lines is driven.
    pub open spec fn is_exclusive(self) -> bool {
        &&& !(self.buzzer && self.left)
        &&& !(self.buzzer && self.right)
        &&& !(self.left && self.right)
    }

    /// A frame with every line at rest.
    pub fn rest(millis: u32) -> (f: Frame)
        ensures
            f == rest_frame(millis),
    {
        Frame { buzzer: false, left: false, right: false, millis }
    }

    /// A frame that runs the motor of `side` alone.
    pub fn motor(side: Side, millis: u32) -> (f: Frame)
        ensures
            f == motor_frame(side, millis),
    {
        match side {
            Side::Left => Frame { buzzer: false, left: true, right: false, millis },
            Side::Right => Frame { buzzer: false, left: false, right: true, millis },
        }
    }

    /// A frame that sounds the buzzer alone.
    pub fn buzz(millis: u32) -> (f: Frame)
        ensures
            f == buzzer_frame(millis),
    {
        Frame { buzzer: true, left: false, right: false, millis }
    }
}

/// The pulse table: for each intensity from 1 to 10 the time a motor runs and
/// the time it pauses between its two pulses, in milliseconds. Intensity 10 is
/// one continuous pulse and has no pause. Any other level has no entry, which
/// is written as `(0, 0)`.
pub open spec fn pulse_timing_of(level: u8) -> (u32, u32) {
    if level == 1 {
        (5, 95)
    } else if level == 2 {
        (10, 90)
    } else if level == 3 {
        (20, 80)
    } else if level == 4 {
        (30, 70)
    } else if level == 5 {
        (40, 60)
    } else if level == 6 {
        (50, 50)
    } else if level == 7 {
        (60, 40)
    } else if level == 8 {
        (70, 30)
    } else if level == 9 {
        (80, 20)
    } else if level == 10 {
        (80, 0)
    } else {
        (0, 0)
    }
}

/// The frames of the haptic pattern of one motor at one intensity.
///
/// Levels 1 to 9 are two pulses around one pause, level 10 is a single pulse,
/// and any other level is a short rest.
pub open spec fn haptic_frames(side: Side, level: u8) -> Seq<Frame> {
    if 1 <= level <= 9 {
        seq![
            motor_frame(side, pulse_timing_of(level).0),
            rest_frame(pulse_timing_of(level).1),
            motor_frame(side, pulse_timing_of(level).0),
        ]
    } else if level == 10 {
        seq![motor_frame(side, pulse_timing_of(level).0)]
    } else {
        seq![rest_frame(10)]
    }
}

/// `count` beeps of `millis` milliseconds, each followed by a pause of the
/// same length.
pub open spec fn beeps(count: nat, millis: u32) -> Seq<Frame>
    decreases count,
{
    if count == 0 {
        Seq::empty()
    } else {
        beeps((count - 1) as nat, millis).push(buzzer_frame(millis)).push(rest_frame(millis))
    }
}

/// The frames of the warning sound for an obstacle at distance `d`.
pub open spec fn sound_frames(d: nat) -> Seq<Frame> {
    if d < EXTREME_DISTANCE {
        beeps(3, 25)
    } else if d < CLOSE_SOUND_DISTANCE {
        beeps(2, 50)
    } else {
        seq![buzzer_frame(70)]
    }
}

/// The frames of the emergency pattern: left, then right, then both, the
/// buzzer sounding with each.
pub open spec fn emergency_frames() -> Seq<Frame> {
    seq![
        Frame { buzzer: true, left: true, right: false, millis: 150 },
        rest_frame(50),
        Frame { buzzer: true, left: false, right: true, millis: 150 },
        rest_frame(50),
        Frame { buzzer: true, left: true, right: true, millis: 300 },
        rest_frame(100),
    ]
}

/// What the orchestrator decides for one cycle.
#[derive(Clone, Copy, Debug, PartialEq, Eq)]
pub enum Decision {
    /// The emergency pattern, and nothing else.
    Emergency,
    /// Each motor at its own intensity, and the buzzer for at most one side.
    Normal { left_level: u8, right_level: u8, audio: Option<Side> },
}

/// Either channel is closer than the extreme-danger threshold.
pub open spec fn is_emergency(left: nat, right: nat) -> bool {
    left < EXTREME_DISTANCE || right < EXTREME_DISTANCE
}

/// The side that gets the buzzer: none unless a channel is in the critical
/// zone, else the side with the smaller distance, the left one on a tie.
pub open spec fn audio_winner(left: nat, right: nat) -> Option<Side> {
    if left < CRITICAL_DISTANCE || right < CRITICAL_DISTANCE {
        if left <= right {
            Some(Side::Left)
        } else {
            Some(Side::Right)
        }
    } else {
        None
    }
}

/// The decision for the two distances.
pub open spec fn decision_of(left: nat, right: nat) -> Decision {
    if is_emergency(left, right) {
        Decision::Emergency
    } else {
        Decision::Normal {
            left_level: intensity_of(left) as u8,
            right_level: intensity_of(right) as u8,
            audio: audio_winner(left, right),
        }
    }
}

/// The haptic part of a normal plan for one channel: nothing at intensity 0,
/// else the pattern of the intensity followed by the motor's release.
pub open spec fn channel_frames(side: Side, level: u8) -> Seq<Frame> {
    if level > 0 {
        haptic_frames(side, level).push(rest_frame(0))
    } else {
        Seq::empty()
    }
}

/// The audio part of a normal plan: the warning sound of the winning side.
pub open spec fn audio_frames(left: nat, right: nat) -> Seq<Frame> {
    match audio_winner(left, right) {
        Some(Side::Left) => sound_frames(left),
        Some(Side::Right) => sound_frames(right),
        None => Seq::empty(),
    }
}

/// The whole plan of one cycle.
///
/// Every plan opens with a reset. On an emergency the emergency pattern
/// follows and nothing else. Otherwise the left haptic part, the right haptic
/// part and the audio part follow in this order, and a final reset closes the
/// plan.
pub open spec fn plan_frames(left: nat, right: nat) -> Seq<Frame> {
    if is_emergency(left, right) {
        seq![rest_frame(0)] + emergency_frames()
    } else {
        seq![rest_frame(0)] + channel_frames(Side::Left, intensity_of(left) as u8)
            + channel_frames(Side::Right, intensity_of(right) as u8) + audio_frames(left, right)
            + seq![rest_frame(0)]
    }
}

/// The time a sequence of frames takes, in milliseconds.
pub open spec fn total_millis(frames: Seq<Frame>) -> nat
    decreases frames.len(),
{
    if frames.len() == 0 {
        0
    } else {
        total_millis(frames.drop_last()) + frames.last().millis as nat
    }
}

/// The decision and the frames that carry it out.
#[derive(Debug)]
pub struct FeedbackPlan {
    pub decision: Decision,
    pub frames: Vec<Frame>,
}

/// Looks up the pulse table.
pub fn pulse_timing(level: u8) -> (timing: (u32, u32))
    ensures
        timing == pulse_timing_of(level),
{
    if level == 1 {
        (5, 95)
    } else if level == 2 {
        (10, 90)
    } else if level == 3 {
        (20, 80)
    } else if level == 4 {
        (30, 70)
    } else if level == 5 {
        (40, 60)
    } else if level == 6 {
        (50, 50)
    } else if level == 7 {
        (60, 40)
    } else if level == 8 {
        (70, 30)
    } else if level == 9 {
        (80, 20)
    } else if level == 10 {
        (80, 0)
    } else {
        (0, 0)
    }
}

/// Builds the haptic pattern of the motor of `side` at intensity `level`.
pub fn haptic_pattern(side: Side, level: u8) -> (frames: Vec<Frame>)
    ensures
        frames@ == haptic_frames(side, level),
{
    let timing = pulse_timing(level);
    let mut frames: Vec<Frame> = Vec::new();
    if 1 <= level && level <= 9 {
        frames.push(Frame::motor(side, timing.0));
        frames.push(Frame::rest(timing.1));
        frames.push(Frame::motor(side, timing.0));
    } else if level == 10 {
        frames.push(Frame::motor(side, timing.0));
    } else {
        frames.push(Frame::rest(10));
    }
    assert(frames@ =~= haptic_frames(side, level));
    frames
}

/// Builds `count` beeps of `millis` milliseconds with pauses of equal length.
pub fn beep_pattern(count: u8, millis: u32) -> (frames: Vec<Frame>)
    ensures
        frames@ == beeps(count as nat, millis),
{
    let mut frames: Vec<Frame> = Vec::new();
    let mut done: u8 = 0;
    while done < count
        invariant
            done <= count,
            frames@ == beeps(done as nat, millis),
        decreases count - done,
    {
        frames.push(Frame::buzz(millis));
        frames.push(Frame::rest(millis));
        done = done + 1;
    }
    frames
}

/// Builds the warning sound for an obstacle at `distance`.
pub fn sound_pattern(distance: Distance) -> (frames: Vec<Frame>)
    ensures
        frames@ == sound_frames(distance@),
{
    if distance.units < EXTREME_DISTANCE {
        beep_pattern(3, 25)
    } else if distance.units < CLOSE_SOUND_DISTANCE {
        beep_pattern(2, 50)
    } else {
        let mut frames: Vec<Frame> = Vec::new();
        frames.push(Frame::buzz(70));
        assert(frames@ =~= sound_frames(distance@));
        frames
    }
}

/// Builds the emergency pattern.
pub fn emergency_pattern() -> (frames: Vec<Frame>)
    ensures
        frames@ == emergency_frames(),
{
    let mut frames: Vec<Frame> = Vec::new();
    frames.push(Frame { buzzer: true, left: true, right: false, millis: 150 });
    frames.push(Frame::rest(50));
    frames.push(Frame { buzzer: true, left: false, right: true, millis: 150 });
    frames.push(Frame::rest(50));
    frames.push(Frame { buzzer: true, left: true, right: true, millis: 300 });
    frames.push(Frame::rest(100));
    assert(frames@ =~= emergency_frames());
    frames
}

/// Decides what this cycle does: the emergency pattern exactly when either
/// distance is under the extreme-danger threshold; else each side's intensity
/// and the side that owns the buzzer.
pub fn decide(left: Distance, right: Distance) -> (decision: Decision)
    ensures
        decision == decision_of(left@, right@),
        decision == Decision::Emergency <==> left@ < EXTREME_DISTANCE || right@
            < EXTREME_DISTANCE,
{
    if left.units < EXTREME_DISTANCE || right.units < EXTREME_DISTANCE {
        Decision::Emergency
    } else {
        let audio: Option<Side> = if left.units < CRITICAL_DISTANCE || right.units
            < CRITICAL_DISTANCE {
            if left.units <= right.units {
                Some(Side::Left)
            } else {
                Some(Side::Right)
            }
        } else {
            None
        };
        Decision::Normal { left_level: intensity(left), right_level: intensity(right), audio }
    }
}

/// Builds the plan of one cycle from the two smoothed distances.
pub fn plan_feedback(left: Distance, right: Distance) -> (plan: FeedbackPlan)
    ensures
        plan.decision == decision_of(left@, right@),
        plan.frames@ == plan_frames(left@, right@),
        plan.frames@.len() <= LONGEST_PLAN_FRAMES,
{
    proof {
        lemma_plan_length_bounded(left@, right@);
    }
    let decision = decide(left, right);
    let mut frames: Vec<Frame> = Vec::new();
    frames.push(Frame::rest(0));
    match decision {
        Decision::Emergency => {
            let mut pattern = emergency_pattern();
            frames.append(&mut pattern);
        },
        Decision::Normal { left_level, right_level, audio } => {
            if left_level > 0 {
                let mut pattern = haptic_pattern(Side::Left, left_level);
                frames.append(&mut pattern);
                frames.push(Frame::rest(0));
            }
            if right_level > 0 {
                let mut pattern = haptic_pattern(Side::Right, right_level);
                frames.append(&mut pattern);
                frames.push(Frame::rest(0));
            }
            match audio {
                Some(Side::Left) => {
                    let mut pattern = sound_pattern(left);
                    frames.append(&mut pattern);
                },
                Some(Side::Right) => {
                    let mut pattern = sound_pattern(right);
                    frames.append(&mut pattern);
                },
                None => {},
            }
            frames.push(Frame::rest(0));
        },
    }
    assert(frames@ =~= plan_frames(left@, right@));
    FeedbackPlan { decision, frames }
}

/// Adds up the time a sequence of frames takes, in milliseconds.
pub fn duration_millis(frames: &Vec<Frame>) -> (total: u64)
    requires
        frames@.len() <= u32::MAX,
    ensures
        total as nat == total_millis(frames@),
{
    let mut total: u64 = 0;
    let mut i: usize = 0;
    while i < frames.len()
        invariant
            i <= frames@.len(),
            frames@.len() <= u32::MAX,
            total as nat == total_millis(frames@.take(i as int)),
            total <= i * u32::MAX,
        decreases frames@.len() - i,
    {
        proof {
            assert(frames@.take(i + 1).drop_last() =~= frames@.take(i as int));
            assert(i * u32::MAX + u32::MAX <= u32::MAX * u32::MAX) by (nonlinear_arith)
                requires
                    i < u32::MAX,
            ;
        }
        total = total + frames[i].millis as u64;
        i = i + 1;
    }
    assert(frames@.take(i as int) =~= frames@);
    total
}

} // verus!
