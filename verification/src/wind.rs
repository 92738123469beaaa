//! Compass direction of the wind, derived from its azimuth in degrees.

use vstd::prelude::*;

verus! {

/// One of the sixteen compass points, or one of two markers for a missing
/// or impossible azimuth.
#[derive(Debug, Clone, Copy, PartialEq, Eq, Structural)]
pub enum WindDeg {
    /// No azimuth was supplied.
    Missing,
    /// The azimuth lies outside the circle (above 360 degrees).
    Unknown,
    North,
    NorthNorthEast,
    NorthEast,
    EastNorthEast,
    East,
    EastSouthEast,
    SouthEast,
    SouthSouthEast,
    South,
    SouthSouthWest,
    SouthWest,
    WestSouthWest,
    West,
    WestNorthWest,
    NorthWest,
    NorthNorthWest,
}

/// The compass point that an azimuth of `degree` degrees falls into.
///
/// The circle is cut into sixteen sectors centred on the compass points;
/// the northern sector wraps around from 349 to 11 degrees.
pub open spec fn compass_point(degree: int) -> WindDeg {
    if 0 <= degree <= 11 || 349 <= degree <= 360 {
        WindDeg::North
    } else if 12 <= degree <= 33 {
        WindDeg::NorthNorthEast
    } else if 34 <= degree <= 56 {
        WindDeg::NorthEast
    } else if 57 <= degree <= 78 {
        WindDeg::EastNorthEast
    } else if 79 <= degree <= 101 {
        WindDeg::East
    } else if 102 <= degree <= 123 {
        WindDeg::EastSouthEast
    } else if 124 <= degree <= 146 {
        WindDeg::SouthEast
    } else if 147 <= degree <= 168 {
        WindDeg::SouthSouthEast
    } else if 169 <= degree <= 191 {
        WindDeg::South
    } else if 192 <= degree <= 213 {
        WindDeg::SouthSouthWest
    } else if 214 <= degree <= 236 {
        WindDeg::SouthWest
    } else if 237 <= degree <= 258 {
        WindDeg::WestSouthWest
    } else if 259 <= degree <= 281 {
        WindDeg::West
    } else if 282 <= degree <= 303 {
        WindDeg::WestNorthWest
    } else if 304 <= degree <= 326 {
        WindDeg::NorthWest
    } else if 327 <= degree <= 348 {
        WindDeg::NorthNorthWest
    } else {
        WindDeg::Unknown
    }
}

/// The direction shown for an optional azimuth.
pub open spec fn wind_direction(degree: Option<u16>) -> WindDeg {
    match degree {
        Some(d) => compass_point(d as int),
        None => WindDeg::Missing,
    }
}

impl WindDeg {
    /// Get wind direction from degrees.
    pub fn get(degree: Option<u16>) -> (dir: WindDeg)
        ensures
            dir == wind_direction(degree),
    {
        let degree: u16 = match degree {
            Some(degree) => degree,
            None => return WindDeg::Missing,
        };
        if degree <= 11 || (349 <= degree && degree <= 360) {
            WindDeg::North
        } else if degree <= 33 {
            WindDeg::NorthNorthEast
        } else if degree <= 56 {
            WindDeg::NorthEast
        } else if degree <= 78 {
            WindDeg::EastNorthEast
        } else if degree <= 101 {
            WindDeg::East
        } else if degree <= 123 {
            WindDeg::EastSouthEast
        } else if degree <= 146 {
            WindDeg::SouthEast
        } else if degree <= 168 {
            WindDeg::SouthSouthEast
        } else if degree <= 191 {
            WindDeg::South
        } else if degree <= 213 {
            WindDeg::SouthSouthWest
        } else if degree <= 236 {
            WindDeg::SouthWest
        } else if degree <= 258 {
            WindDeg::WestSouthWest
        } else if degree <= 281 {
            WindDeg::West
        } else if degree <= 303 {
            WindDeg::WestNorthWest
        } else if degree <= 326 {
            WindDeg::NorthWest
        } else if degree <= 348 {
            WindDeg::NorthNorthWest
        } else {
            WindDeg::Unknown
        }
    }
}

} // verus!
