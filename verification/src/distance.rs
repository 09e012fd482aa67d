//! Fixed-point distances and the thresholds that partition them into zones.

use vstd::prelude::*;

verus! {

/// Number of distance units in one centimetre.
pub const UNITS_PER_CM: u32 = 1000;

/// Below this distance the emergency pattern overrides everything else.
pub const EXTREME_DISTANCE: u32 = 10_000;

/// Below this distance an obstacle is in the critical zone and audio is played.
pub const CRITICAL_DISTANCE: u32 = 30_000;

/// Below this distance an obstacle is in the warning zone.
pub const WARNING_DISTANCE: u32 = 60_000;

/// Below this distance an obstacle is in the notice zone; at or beyond it
/// there is no feedback at all.
pub const NOTICE_DISTANCE: u32 = 100_000;

/// A distance, counted in thousandths of a centimetre.
#[derive(Clone, Copy, Debug, PartialEq, Eq, Structural)]
pub struct Distance {
    pub units: u32,
}

impl Distance {
    /// The distance as a mathematical integer, in thousandths of a centimetre.
    pub open spec fn view(&self) -> nat {
        self.units as nat
    }

    /// The distance of `cm` whole centimetres.
    pub fn from_cm(cm: u16) -> (d: Distance)
        ensures
            d@ == cm as nat * 1000,
    {
        let wide: u32 = cm as u32;
        Distance { units: wide * UNITS_PER_CM }
    }

    /// The distance of `units` thousandths of a centimetre.
    pub fn from_units(units: u32) -> (d: Distance)
        ensures
            d@ == units as nat,
    {
        Distance { units }
    }

    /// The distance in thousandths of a centimetre.
    pub fn units(&self) -> (n: u32)
        ensures
            n as nat == self@,
    {
        self.units
    }

    /// The distance in whole centimetres, rounded towards zero.
    pub fn whole_cm(&self) -> (cm: u32)
        ensures
            cm as nat == self@ / 1000,
    {
        self.units / UNITS_PER_CM
    }
}

} // verus!
