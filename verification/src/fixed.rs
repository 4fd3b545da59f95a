//! Signed fixed-point numbers with seven decimal places.

use vstd::prelude::*;

verus! {

/// Number of grid steps that make up one whole unit (one degree, one metre).
pub const FIXED_SCALE: i64 = 10_000_000;

/// A real quantity on a grid of 10^-7: `units` counts the grid steps.
///
/// One step of a latitude is about eleven millimetres on the ground.
#[derive(Clone, Copy, Debug, PartialEq, Eq, Structural, Hash)]
pub struct Fixed {
    /// The quantity multiplied by [`FIXED_SCALE`].
    pub units: i64,
}

/// Whether a latitude and a longitude, in degrees, name a place on the
/// globe: the latitude within 90 degrees of the equator, the longitude
/// within 180 degrees of the prime meridian.
pub open spec fn on_globe(lat: Fixed, lon: Fixed) -> bool {
    &&& -90 * FIXED_SCALE <= lat.units <= 90 * FIXED_SCALE
    &&& -180 * FIXED_SCALE <= lon.units <= 180 * FIXED_SCALE
}

/// Whether a latitude and a longitude, in degrees, name a place on the
/// globe. Positions are to be checked with this when they are taken in.
pub fn is_on_globe(lat: Fixed, lon: Fixed) -> (valid: bool)
    ensures
        valid == on_globe(lat, lon),
{
    -90 * FIXED_SCALE <= lat.units && lat.units <= 90 * FIXED_SCALE && -180 * FIXED_SCALE
        <= lon.units && lon.units <= 180 * FIXED_SCALE
}

impl Fixed {
    /// The quantity as a mathematical integer number of grid steps.
    pub open spec fn steps(self) -> int {
        self.units as int
    }

    /// The value that is `units` grid steps away from zero.
    pub fn from_units(units: i64) -> (r: Fixed)
        ensures
            r.units == units,
    {
        Fixed { units }
    }

    /// The number of grid steps.
    pub fn units(&self) -> (u: i64)
        ensures
            u == self.units,
    {
        self.units
    }

    /// The whole number `n` on the grid.
    pub fn from_whole(n: i32) -> (r: Fixed)
        ensures
            r.steps() == n * FIXED_SCALE,
    {
        let wide: i64 = n as i64;
        Fixed { units: wide * FIXED_SCALE }
    }

    /// The arithmetic mean of two values, rounded down to the grid.
    pub fn mean(self, other: Fixed) -> (m: Fixed)
        ensures
            m.steps() == (self.steps() + other.steps()) / 2,
    {
        let sum: i128 = self.units as i128 + other.units as i128;
        let half: i128 = if sum >= 0 {
            sum / 2
        } else {
            -((1 - sum) / 2)
        };
        Fixed { units: half as i64 }
    }
}

} // verus!
