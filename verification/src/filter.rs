//! Temporal smoothing of a distance series.
//!
//! The filter is an exponential one with a weight of seven tenths on the
//! current estimate and three tenths on the previous smoothed value. The
//! weights favour responsiveness over stability and are a tunable choice.

use vstd::prelude::*;
use crate::distance::Distance;

verus! {

/// Weight of the current estimate, in tenths.
pub const CURRENT_WEIGHT: u64 = 7;

/// Weight of the previous smoothed value, in tenths.
pub const PREVIOUS_WEIGHT: u64 = 3;

/// The weighted mean of `current` and `previous`, rounded towards zero to a
/// whole distance unit.
pub open spec fn smoothed(current: nat, previous: nat) -> nat {
    (7 * current + 3 * previous) / 10
}

/// Smooths the current estimate against the previous smoothed value.
pub fn smooth(current: Distance, previous: Distance) -> (next: Distance)
    ensures
        next@ == smoothed(current@, previous@),
        current@ <= previous@ ==> current@ <= next@ <= previous@,
        previous@ <= current@ ==> previous@ <= next@ <= current@,
{
    let c: u64 = current.units as u64;
    let p: u64 = previous.units as u64;
    let mixed: u64 = (CURRENT_WEIGHT * c + PREVIOUS_WEIGHT * p) / 10;
    Distance { units: mixed as u32 }
}

/// A value that does not change is a fixed point of the filter.
pub proof fn lemma_smooth_fixed_point(x: nat)
    ensures
        smoothed(x, x) == x,
{
}

/// The smoothed value lies between the two values it mixes.
pub proof fn lemma_smooth_between(current: nat, previous: nat)
    ensures
        current <= previous ==> current <= smoothed(current, previous) <= previous,
        previous <= current ==> previous <= smoothed(current, previous) <= current,
{
}

} // verus!
