//! Angles, counted in billionths of a degree.

use vstd::prelude::*;

verus! {

/// One degree.
pub const DEGREE: i64 = 1_000_000_000;

/// A quarter turn: from the horizon to the zenith.
pub const RIGHT_ANGLE: i64 = 90_000_000_000;

/// Half a turn.
pub const HALF_TURN: i64 = 180_000_000_000;

/// A full turn.
pub const FULL_TURN: i64 = 360_000_000_000;

/// Where the sun stands.
#[derive(Clone, Copy, Debug, PartialEq, Eq, Structural)]
pub struct SolarPosition {
    /// Angle above the astronomical horizon.
    pub elevation: i64,
    /// Angle clockwise from true north.
    pub azimuth: i64,
}

impl SolarPosition {
    /// The elevation lies between nadir and zenith, the azimuth in one turn.
    pub open spec fn wf(self) -> bool {
        &&& -RIGHT_ANGLE <= self.elevation <= RIGHT_ANGLE
        &&& 0 <= self.azimuth < FULL_TURN
    }
}

} // verus!
