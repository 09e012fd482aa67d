//! One cycle of the control loop: both channels take their new estimate, the
//! smoothed distances are published, and the feedback of the cycle is planned.

use vstd::prelude::*;
use crate::classifier::{classify, danger_of, DangerLevel};
use crate::distance::{Distance, NOTICE_DISTANCE};
use crate::estimator::NoValidReadings;
use crate::feedback::{
    decision_of, plan_feedback, plan_frames, rest_frame, FeedbackPlan, Side,
};
use crate::filter::{smooth, smoothed};
use crate::status::Readings;

verus! {

/// The distance that stands in for an estimate that failed: far enough to
/// cause no feedback.
pub const FALLBACK_DISTANCE: u32 = 100_000;

/// Pause between two cycles, in milliseconds.
pub const CYCLE_PAUSE_MILLIS: u64 = 50;

/// One side's state across cycles: its smoothed distance and the danger
/// level of that distance.
#[derive(Clone, Copy, Debug, PartialEq, Eq, Structural)]
pub struct Channel {
    pub side: Side,
    pub smoothed: Distance,
    pub level: DangerLevel,
}

/// The distance that enters the filter: the estimate, or the fallback when
/// there is none.
pub open spec fn reading_or_fallback(estimate: Result<Distance, NoValidReadings>) -> nat {
    match estimate {
        Ok(d) => d@,
        Err(_) => FALLBACK_DISTANCE as nat,
    }
}

impl Channel {
    /// The danger level is that of the smoothed distance.
    pub open spec fn well_formed(self) -> bool {
        self.level == danger_of(self.smoothed@)
    }

    /// A channel at start-up: no obstacle in sight.
    pub fn new(side: Side) -> (channel: Channel)
        ensures
            channel.side == side,
            channel.smoothed@ == FALLBACK_DISTANCE,
            channel.level == DangerLevel::Clear,
            channel.well_formed(),
    {
        Channel {
            side,
            smoothed: Distance { units: FALLBACK_DISTANCE },
            level: DangerLevel::Clear,
        }
    }

    /// Takes the estimate of this cycle: a failed estimate counts as the
    /// fallback distance, the result is smoothed against the previous
    /// smoothed distance, and the danger level follows.
    pub fn update(&mut self, estimate: Result<Distance, NoValidReadings>) -> (now: Distance)
        ensures
            final(self).side == old(self).side,
            final(self).smoothed@ == smoothed(reading_or_fallback(estimate), old(self).smoothed@),
            final(self).well_formed(),
            now == final(self).smoothed,
    {
        let raw = match estimate {
            Ok(d) => d,
            Err(_) => Distance { units: FALLBACK_DISTANCE },
        };
        let next = smooth(raw, self.smoothed);
        self.smoothed = next;
        self.level = classify(next);
        next
    }
}

/// What one cycle hands to the outside: the readings to publish, the plan
/// to carry out, and the pause before the next cycle, in milliseconds.
#[derive(Debug)]
pub struct Cycle {
    pub readings: Readings,
    pub plan: FeedbackPlan,
    pub pause_millis: u64,
}

/// Runs the decisions of one cycle on the two estimates.
pub fn run_cycle(
    left: &mut Channel,
    right: &mut Channel,
    left_estimate: Result<Distance, NoValidReadings>,
    right_estimate: Result<Distance, NoValidReadings>,
) -> (cycle: Cycle)
    ensures
        final(left).side == old(left).side,
        final(right).side == old(right).side,
        final(left).smoothed@ == smoothed(
            reading_or_fallback(left_estimate),
            old(left).smoothed@,
        ),
        final(right).smoothed@ == smoothed(
            reading_or_fallback(right_estimate),
            old(right).smoothed@,
        ),
        final(left).well_formed(),
        final(right).well_formed(),
        cycle.readings == (Readings { left: final(left).smoothed, right: final(right).smoothed }),
        cycle.plan.decision == decision_of(final(left).smoothed@, final(right).smoothed@),
        cycle.plan.frames@ == plan_frames(final(left).smoothed@, final(right).smoothed@),
        cycle.pause_millis == CYCLE_PAUSE_MILLIS,
{
    let left_now = left.update(left_estimate);
    let right_now = right.update(right_estimate);
    let plan = plan_feedback(left_now, right_now);
    Cycle {
        readings: Readings { left: left_now, right: right_now },
        plan,
        pause_millis: CYCLE_PAUSE_MILLIS,
    }
}

/// A sensor that drops out causes no alarm: a channel that saw no obstacle
/// and gets no estimate still sees none.
pub proof fn lemma_dropout_stays_clear(previous: nat)
    requires
        previous >= NOTICE_DISTANCE,
    ensures
        smoothed(reading_or_fallback(Err(NoValidReadings)), previous) >= NOTICE_DISTANCE,
        danger_of(smoothed(reading_or_fallback(Err(NoValidReadings)), previous))
            == DangerLevel::Clear,
{
}

/// While a sensor stays silent its channel moves towards the fallback
/// distance and never past it.
pub proof fn lemma_dropout_approaches_fallback(previous: nat)
    ensures
        previous <= FALLBACK_DISTANCE ==> previous <= smoothed(
            reading_or_fallback(Err(NoValidReadings)),
            previous,
        ) <= FALLBACK_DISTANCE,
        previous >= FALLBACK_DISTANCE ==> FALLBACK_DISTANCE <= smoothed(
            reading_or_fallback(Err(NoValidReadings)),
            previous,
        ) <= previous,
{
}

/// With no obstacle inside the notice zone on either side the plan is the two
/// resets and nothing between them.
pub proof fn lemma_clear_plan_is_silent(left: nat, right: nat)
    requires
        left >= NOTICE_DISTANCE,
        right >= NOTICE_DISTANCE,
    ensures
        plan_frames(left, right) == seq![rest_frame(0), rest_frame(0)],
{
    assert(plan_frames(left, right) =~= seq![rest_frame(0), rest_frame(0)]);
}

} // verus!
