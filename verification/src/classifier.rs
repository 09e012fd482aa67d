//! Danger classification: from a smoothed distance to a discrete danger level
//! and to a vibration intensity between 0 and 10.
//!
//! The intensity is a piecewise-linear interpolation inside each zone whose
//! value is truncated, never rounded.

use vstd::prelude::*;
use crate::distance::Distance;
use crate::distance::{CRITICAL_DISTANCE, EXTREME_DISTANCE, NOTICE_DISTANCE, WARNING_DISTANCE};

verus! {

/// How dangerous an obstacle is, from harmless to about to be hit.
#[derive(Clone, Copy, Debug, PartialEq, Eq, Structural)]
pub enum DangerLevel {
    /// At or beyond the notice threshold.
    Clear,
    /// Inside the notice zone.
    Low,
    /// Inside the warning zone.
    Medium,
    /// Inside the critical zone.
    High,
    /// Closer than the extreme-danger threshold.
    Critical,
}

impl DangerLevel {
    /// The position of the level in the order `Clear < Low < Medium < High < Critical`.
    pub open spec fn ordinal(self) -> nat {
        match self {
            DangerLevel::Clear => 0,
            DangerLevel::Low => 1,
            DangerLevel::Medium => 2,
            DangerLevel::High => 3,
            DangerLevel::Critical => 4,
        }
    }

    /// The position of the level in the order `Clear < Low < Medium < High < Critical`.
    pub fn rank(self) -> (r: u8)
        ensures
            r as nat == self.ordinal(),
    {
        match self {
            DangerLevel::Clear => 0,
            DangerLevel::Low => 1,
            DangerLevel::Medium => 2,
            DangerLevel::High => 3,
            DangerLevel::Critical => 4,
        }
    }
}

/// The danger level of a distance given in thousandths of a centimetre.
pub open spec fn danger_of(d: nat) -> DangerLevel {
    if d < EXTREME_DISTANCE {
        DangerLevel::Critical
    } else if d < CRITICAL_DISTANCE {
        DangerLevel::High
    } else if d < WARNING_DISTANCE {
        DangerLevel::Medium
    } else if d < NOTICE_DISTANCE {
        DangerLevel::Low
    } else {
        DangerLevel::Clear
    }
}

/// The vibration intensity of a distance given in thousandths of a centimetre.
///
/// The critical zone interpolates from 10 down to 7, the warning zone from 6
/// down to 4, the notice zone from 3 down to 1; the integer division is the
/// truncation of the interpolated value.
pub open spec fn intensity_of(d: nat) -> int {
    if d < CRITICAL_DISTANCE {
        7 + (3 * (CRITICAL_DISTANCE - d)) / 30_000
    } else if d < WARNING_DISTANCE {
        4 + (2 * (WARNING_DISTANCE - d)) / 30_000
    } else if d < NOTICE_DISTANCE {
        1 + (2 * (NOTICE_DISTANCE - d)) / 40_000
    } else {
        0
    }
}

/// Classifies a distance by the fixed thresholds.
pub fn classify(distance: Distance) -> (level: DangerLevel)
    ensures
        level == danger_of(distance@),
{
    let d: u32 = distance.units;
    if d < EXTREME_DISTANCE {
        DangerLevel::Critical
    } else if d < CRITICAL_DISTANCE {
        DangerLevel::High
    } else if d < WARNING_DISTANCE {
        DangerLevel::Medium
    } else if d < NOTICE_DISTANCE {
        DangerLevel::Low
    } else {
        DangerLevel::Clear
    }
}

/// Computes the vibration intensity of a distance.
pub fn intensity(distance: Distance) -> (level: u8)
    ensures
        level as int == intensity_of(distance@),
        level <= 10,
        distance@ >= NOTICE_DISTANCE ==> level == 0,
{
    let d: u32 = distance.units;
    if d < CRITICAL_DISTANCE {
        let steps: u32 = (3 * (CRITICAL_DISTANCE - d)) / 30_000;
        7 + steps as u8
    } else if d < WARNING_DISTANCE {
        let steps: u32 = (2 * (WARNING_DISTANCE - d)) / 30_000;
        4 + steps as u8
    } else if d < NOTICE_DISTANCE {
        let steps: u32 = (2 * (NOTICE_DISTANCE - d)) / 40_000;
        1 + steps as u8
    } else {
        0
    }
}

/// At or beyond the notice threshold there is no vibration.
pub proof fn lemma_intensity_zero_beyond_notice(d: nat)
    requires
        d >= NOTICE_DISTANCE,
    ensures
        intensity_of(d) == 0,
{
}

/// Each zone has its own band of intensities: 7 to 10 in the critical zone,
/// 4 to 6 in the warning zone, 1 to 3 in the notice zone.
pub proof fn lemma_intensity_bands(d: nat)
    ensures
        d < CRITICAL_DISTANCE ==> 7 <= intensity_of(d) <= 10,
        CRITICAL_DISTANCE <= d < WARNING_DISTANCE ==> 4 <= intensity_of(d) <= 6,
        WARNING_DISTANCE <= d < NOTICE_DISTANCE ==> 1 <= intensity_of(d) <= 3,
        intensity_of(d) == 0 <==> d >= NOTICE_DISTANCE,
{
}

/// The intensity is the interpolated value cut off at the decimal point,
/// never rounded up: in each zone it is the largest whole number that does
/// not exceed the value of the zone's formula.
pub proof fn lemma_intensity_is_truncated(d: nat)
    ensures
        d < CRITICAL_DISTANCE ==> 30_000 * (intensity_of(d) - 7) <= 3 * (CRITICAL_DISTANCE - d)
            < 30_000 * (intensity_of(d) - 6),
        CRITICAL_DISTANCE <= d < WARNING_DISTANCE ==> 30_000 * (intensity_of(d) - 4) <= 2 * (
        WARNING_DISTANCE - d) < 30_000 * (intensity_of(d) - 3),
        WARNING_DISTANCE <= d < NOTICE_DISTANCE ==> 40_000 * (intensity_of(d) - 1) <= 2 * (
        NOTICE_DISTANCE - d) < 40_000 * (intensity_of(d) - 0),
{
}

/// The intensity never rises as the obstacle moves away, inside a zone and
/// across zone boundaries alike.
pub proof fn lemma_intensity_monotone(near: nat, far: nat)
    requires
        near <= far,
    ensures
        intensity_of(near) >= intensity_of(far),
{
    lemma_intensity_bands(near);
    lemma_intensity_bands(far);
}

/// The danger level never rises as the obstacle moves away.
pub proof fn lemma_danger_monotone(near: nat, far: nat)
    requires
        near <= far,
    ensures
        danger_of(near).ordinal() >= danger_of(far).ordinal(),
{
}

/// The intensity band is determined by the danger level: vibration is absent
/// exactly when the level is `Clear`, and at least 7 exactly when the level is
/// `High` or `Critical`.
pub proof fn lemma_intensity_matches_danger(d: nat)
    ensures
        danger_of(d) == DangerLevel::Clear <==> intensity_of(d) == 0,
        danger_of(d) == DangerLevel::Low <==> 1 <= intensity_of(d) <= 3,
        danger_of(d) == DangerLevel::Medium <==> 4 <= intensity_of(d) <= 6,
        danger_of(d).ordinal() >= 3 <==> intensity_of(d) >= 7,
{
    lemma_intensity_bands(d);
}

} // verus!
