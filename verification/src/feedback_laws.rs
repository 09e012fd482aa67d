//! Laws of the feedback orchestrator, stated over the plan's model.

use vstd::prelude::*;
use crate::classifier::{intensity_of, lemma_intensity_bands};
use crate::distance::{CRITICAL_DISTANCE, EXTREME_DISTANCE};
use crate::feedback::{
    audio_frames, audio_winner, beeps, buzzer_frame, channel_frames, decision_of,
    emergency_frames, haptic_frames, is_emergency, plan_frames, pulse_timing_of, rest_frame,
    sound_frames, total_millis, Decision, Frame, Side, LONGEST_PLAN_FRAMES,
    LONGEST_PLAN_MILLIS,
};

verus! {

/// The smaller of two distances.
pub open spec fn nearer(left: nat, right: nat) -> nat {
    if left <= right {
        left
    } else {
        right
    }
}

/// Appending a frame adds its time to the total.
pub proof fn lemma_total_millis_push(frames: Seq<Frame>, frame: Frame)
    ensures
        total_millis(frames.push(frame)) == total_millis(frames) + frame.millis,
{
    assert(frames.push(frame).drop_last() =~= frames);
}

/// The time of two sequences played one after the other is the sum of their
/// times.
pub proof fn lemma_total_millis_concat(first: Seq<Frame>, second: Seq<Frame>)
    ensures
        total_millis(first + second) == total_millis(first) + total_millis(second),
    decreases second.len(),
{
    if second.len() == 0 {
        assert(first + second =~= first);
    } else {
        assert((first + second).drop_last() =~= first + second.drop_last());
        lemma_total_millis_concat(first, second.drop_last());
    }
}

/// The emergency pattern takes 800 milliseconds.
pub proof fn lemma_emergency_pattern_duration()
    ensures
        total_millis(emergency_frames()) == 800,
{
    let f = emergency_frames();
    let s0 = Seq::<Frame>::empty();
    let s1 = s0.push(f[0]);
    let s2 = s1.push(f[1]);
    let s3 = s2.push(f[2]);
    let s4 = s3.push(f[3]);
    let s5 = s4.push(f[4]);
    let s6 = s5.push(f[5]);
    assert(s6 =~= f);
    lemma_total_millis_push(s0, f[0]);
    lemma_total_millis_push(s1, f[1]);
    lemma_total_millis_push(s2, f[2]);
    lemma_total_millis_push(s3, f[3]);
    lemma_total_millis_push(s4, f[4]);
    lemma_total_millis_push(s5, f[5]);
}

/// A haptic pattern takes at most 180 milliseconds.
pub proof fn lemma_haptic_duration(side: Side, level: u8)
    ensures
        1 <= level <= 9 ==> total_millis(haptic_frames(side, level)) == 2 * pulse_timing_of(
            level,
        ).0 + pulse_timing_of(level).1,
        level == 10 ==> total_millis(haptic_frames(side, level)) == 80,
        total_millis(haptic_frames(side, level)) <= 180,
{
    let f = haptic_frames(side, level);
    let s0 = Seq::<Frame>::empty();
    let s1 = s0.push(f[0]);
    lemma_total_millis_push(s0, f[0]);
    if 1 <= level <= 9 {
        let s2 = s1.push(f[1]);
        let s3 = s2.push(f[2]);
        assert(s3 =~= f);
        lemma_total_millis_push(s1, f[1]);
        lemma_total_millis_push(s2, f[2]);
    } else {
        assert(s1 =~= f);
    }
}

/// `count` beeps of `millis` milliseconds take `2 * count * millis`.
pub proof fn lemma_beeps_duration(count: nat, millis: u32)
    ensures
        total_millis(beeps(count, millis)) == 2 * count * millis,
        beeps(count, millis).len() == 2 * count,
    decreases count,
{
    if count > 0 {
        let before = beeps((count - 1) as nat, millis);
        lemma_beeps_duration((count - 1) as nat, millis);
        lemma_total_millis_push(before, buzzer_frame(millis));
        lemma_total_millis_push(before.push(buzzer_frame(millis)), rest_frame(millis));
        let c = count as int;
        let m = millis as int;
        assert(2 * c * m == 2 * (c - 1) * m + 2 * m) by (nonlinear_arith);
    } else {
        let m = millis as int;
        assert(2 * 0 * m == 0) by (nonlinear_arith);
    }
}

/// A warning sound takes at most 200 milliseconds: 150 for three rapid beeps,
/// 200 for two slower ones, 70 for the single beep.
pub proof fn lemma_sound_duration(d: nat)
    ensures
        d < EXTREME_DISTANCE ==> total_millis(sound_frames(d)) == 150,
        EXTREME_DISTANCE <= d < 20_000 ==> total_millis(sound_frames(d)) == 200,
        d >= 20_000 ==> total_millis(sound_frames(d)) == 70,
{
    lemma_beeps_duration(3, 25);
    lemma_beeps_duration(2, 50);
    lemma_total_millis_push(Seq::<Frame>::empty(), buzzer_frame(70));
}

/// The emergency is decided exactly when the nearer of the two obstacles is
/// closer than the extreme-danger threshold. The plan is then the reset and
/// the emergency pattern, whatever the two distances are, and in no other
/// case.
pub proof fn lemma_emergency_iff_extreme(left: nat, right: nat)
    ensures
        is_emergency(left, right) <==> nearer(left, right) < EXTREME_DISTANCE,
        decision_of(left, right) == Decision::Emergency <==> nearer(left, right)
            < EXTREME_DISTANCE,
        plan_frames(left, right) == seq![rest_frame(0)] + emergency_frames() <==> nearer(
            left,
            right,
        ) < EXTREME_DISTANCE,
{
    if !is_emergency(left, right) {
        let plan = plan_frames(left, right);
        let alarm = seq![rest_frame(0)] + emergency_frames();
        lemma_normal_plan_is_exclusive(left, right);
        assert(alarm[1] == emergency_frames()[0]);
        assert(!alarm[1].is_exclusive());
        if plan == alarm {
            assert(plan[1].is_exclusive());
        }
    }
}

/// The buzzer goes to nobody unless a channel is in the critical zone; else to
/// the side with the smaller distance, and to the left on a tie. The audio
/// part of the plan is the warning sound of that side alone.
pub proof fn lemma_audio_arbitration(left: nat, right: nat)
    ensures
        audio_winner(left, right).is_none() <==> nearer(left, right) >= CRITICAL_DISTANCE,
        audio_winner(left, right) == Some(Side::Left) <==> left <= right && left
            < CRITICAL_DISTANCE,
        audio_winner(left, right) == Some(Side::Right) <==> right < left && right
            < CRITICAL_DISTANCE,
        audio_frames(left, right) == if nearer(left, right) < CRITICAL_DISTANCE {
            sound_frames(nearer(left, right))
        } else {
            Seq::<Frame>::empty()
        },
{
}

/// Every frame of a plan that is no emergency drives at most one line: the
/// motors run one after the other, and the buzzer sounds alone.
pub proof fn lemma_normal_plan_is_exclusive(left: nat, right: nat)
    requires
        !is_emergency(left, right),
    ensures
        forall|i: int|
            0 <= i < plan_frames(left, right).len() ==> (#[trigger] plan_frames(
                left,
                right,
            )[i]).is_exclusive(),
{
    lemma_beeps_exclusive(3, 25);
    lemma_beeps_exclusive(2, 50);
}

/// Every frame of a run of beeps drives the buzzer alone or nothing.
pub proof fn lemma_beeps_exclusive(count: nat, millis: u32)
    ensures
        forall|i: int|
            0 <= i < beeps(count, millis).len() ==> (#[trigger] beeps(
                count,
                millis,
            )[i]).is_exclusive(),
    decreases count,
{
    if count > 0 {
        let before = beeps((count - 1) as nat, millis);
        lemma_beeps_exclusive((count - 1) as nat, millis);
        assert forall|i: int| 0 <= i < beeps(count, millis).len() implies (#[trigger] beeps(
            count,
            millis,
        )[i]).is_exclusive() by {
            if i < before.len() {
                assert(beeps(count, millis)[i] == before[i]);
            }
        }
    }
}

/// Every plan starts from rest and returns every line to rest.
pub proof fn lemma_plan_starts_and_ends_at_rest(left: nat, right: nat)
    ensures
        plan_frames(left, right).len() >= 2,
        plan_frames(left, right).first().is_rest(),
        plan_frames(left, right).last().is_rest(),
{
}

/// An emergency plan takes exactly 800 milliseconds.
pub proof fn lemma_emergency_plan_duration(left: nat, right: nat)
    requires
        is_emergency(left, right),
    ensures
        total_millis(plan_frames(left, right)) == 800,
{
    lemma_emergency_pattern_duration();
    lemma_total_millis_push(Seq::<Frame>::empty(), rest_frame(0));
    lemma_total_millis_concat(seq![rest_frame(0)], emergency_frames());
}

/// The haptic part of one channel takes at most 180 milliseconds.
pub proof fn lemma_channel_duration(side: Side, level: u8)
    ensures
        total_millis(channel_frames(side, level)) <= 180,
        level > 0 ==> total_millis(channel_frames(side, level)) == total_millis(
            haptic_frames(side, level),
        ),
        level == 0 ==> total_millis(channel_frames(side, level)) == 0,
{
    lemma_haptic_duration(side, level);
    lemma_total_millis_push(haptic_frames(side, level), rest_frame(0));
}

/// A plan that is no emergency takes the time of its two haptic parts and of
/// its audio part.
pub proof fn lemma_normal_plan_duration(left: nat, right: nat)
    requires
        !is_emergency(left, right),
    ensures
        total_millis(plan_frames(left, right)) == total_millis(
            channel_frames(Side::Left, intensity_of(left) as u8),
        ) + total_millis(channel_frames(Side::Right, intensity_of(right) as u8))
            + total_millis(audio_frames(left, right)),
{
    let reset = seq![rest_frame(0)];
    let l = channel_frames(Side::Left, intensity_of(left) as u8);
    let r = channel_frames(Side::Right, intensity_of(right) as u8);
    let a = audio_frames(left, right);
    lemma_total_millis_push(Seq::<Frame>::empty(), rest_frame(0));
    lemma_total_millis_concat(reset, l);
    lemma_total_millis_concat(reset + l, r);
    lemma_total_millis_concat(reset + l + r, a);
    lemma_total_millis_concat(reset + l + r + a, reset);
}

/// No plan has more than fourteen frames.
pub proof fn lemma_plan_length_bounded(left: nat, right: nat)
    ensures
        2 <= plan_frames(left, right).len() <= LONGEST_PLAN_FRAMES,
{
    lemma_beeps_duration(3, 25);
    lemma_beeps_duration(2, 50);
}

/// No plan takes longer than the emergency pattern's 800 milliseconds.
pub proof fn lemma_plan_duration_bounded(left: nat, right: nat)
    ensures
        total_millis(plan_frames(left, right)) <= LONGEST_PLAN_MILLIS,
{
    if is_emergency(left, right) {
        lemma_emergency_plan_duration(left, right);
    } else {
        lemma_normal_plan_duration(left, right);
        lemma_channel_duration(Side::Left, intensity_of(left) as u8);
        lemma_channel_duration(Side::Right, intensity_of(right) as u8);
        lemma_sound_duration(left);
        lemma_sound_duration(right);
        assert(total_millis(Seq::<Frame>::empty()) == 0);
    }
}

/// The duty cycle grows with the intensity: a higher level never runs the
/// motor for a shorter time nor pauses it for a longer one.
pub proof fn lemma_pulse_timing_monotone(low: u8, high: u8)
    requires
        1 <= low <= high <= 10,
    ensures
        pulse_timing_of(low).0 <= pulse_timing_of(high).0,
        pulse_timing_of(low).1 >= pulse_timing_of(high).1,
{
}

/// A channel vibrates exactly when its obstacle is inside the notice zone.
pub proof fn lemma_channel_vibrates_iff_noticed(side: Side, d: nat)
    ensures
        channel_frames(side, intensity_of(d) as u8).len() > 0 <==> d < 100_000,
{
    lemma_intensity_bands(d);
}

} // verus!
