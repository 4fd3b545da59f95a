//! Waypoints: where a vehicle was, and how that is known.

use crate::fixed::Fixed;
use vstd::prelude::*;
use vstd::std_specs::convert::FromSpecImpl;

verus! {

/// The source of a waypoint.
#[derive(Clone, Copy, Debug, PartialEq, Eq, Structural)]
pub enum WayPointType {
    /// The source is unknown.
    UnknownSource,
    /// The position was deduced from a received R09 telegram.
    R09Telegram,
    /// The position was submitted by a rider.
    TrekkieGPS,
}

/// A waypoint as it is passed on between services.
#[derive(Clone, Copy, Debug, PartialEq, Eq, Structural)]
pub struct GrpcWaypoint {
    /// Unique identifier of the waypoint.
    pub id: u64,
    /// Number of the [`WayPointType`].
    pub source: i32,
    /// Milliseconds since the Unix epoch.
    pub time: u64,
    /// Region of the vehicle.
    pub region: i64,
    /// Latitude in degrees.
    pub lat: Fixed,
    /// Longitude in degrees.
    pub lon: Fixed,
    /// Line of the vehicle.
    pub line: i32,
    /// Run number of the vehicle.
    pub run: i32,
    /// Delay of the vehicle.
    pub delayed: Option<Fixed>,
    /// The reporting point that the waypoint was made from.
    pub r09_reporting_point: Option<i32>,
    /// The destination number of the telegram.
    pub r09_destination_number: Option<i32>,
}

/// Where a vehicle was at one time.
#[derive(Clone, Copy, Debug, PartialEq, Eq, Structural)]
pub struct Waypoint {
    /// Unique identifier of the waypoint.
    pub id: u64,
    /// How the position is known.
    pub source: WayPointType,
    /// Milliseconds since the Unix epoch.
    pub time: u64,
    /// Region of the vehicle.
    pub region: i64,
    /// Latitude in degrees.
    pub lat: Fixed,
    /// Longitude in degrees.
    pub lon: Fixed,
    /// Line of the vehicle.
    pub line: i32,
    /// Run number of the vehicle.
    pub run: i32,
    /// Delay of the vehicle.
    pub delayed: Option<Fixed>,
    /// The reporting point that the waypoint was made from.
    pub r09_reporting_point: Option<i32>,
    /// The destination number of the telegram.
    pub r09_destination_number: Option<i32>,
}

/// The source that a number stands for: 1 for a telegram, 2 for a rider,
/// and unknown for every other number.
pub open spec fn way_point_type_of(number: i32) -> WayPointType {
    if number == 1 {
        WayPointType::R09Telegram
    } else if number == 2 {
        WayPointType::TrekkieGPS
    } else {
        WayPointType::UnknownSource
    }
}

impl From<i32> for WayPointType {
    fn from(number: i32) -> (r: Self) {
        match number {
            1 => WayPointType::R09Telegram,
            2 => WayPointType::TrekkieGPS,
            _ => WayPointType::UnknownSource,
        }
    }
}

impl FromSpecImpl<i32> for WayPointType {
    open spec fn obeys_from_spec() -> bool {
        true
    }

    open spec fn from_spec(number: i32) -> Self {
        way_point_type_of(number)
    }
}

impl From<GrpcWaypoint> for Waypoint {
    fn from(waypoint: GrpcWaypoint) -> (r: Self) {
        Waypoint {
            id: waypoint.id,
            source: WayPointType::from(waypoint.source),
            time: waypoint.time,
            region: waypoint.region,
            lat: waypoint.lat,
            lon: waypoint.lon,
            line: waypoint.line,
            run: waypoint.run,
            delayed: waypoint.delayed,
            r09_reporting_point: waypoint.r09_reporting_point,
            r09_destination_number: waypoint.r09_destination_number,
        }
    }
}

impl FromSpecImpl<GrpcWaypoint> for Waypoint {
    open spec fn obeys_from_spec() -> bool {
        true
    }

    /// The same waypoint, with the source that its number stands for.
    open spec fn from_spec(waypoint: GrpcWaypoint) -> Self {
        Waypoint {
            id: waypoint.id,
            source: way_point_type_of(waypoint.source),
            time: waypoint.time,
            region: waypoint.region,
            lat: waypoint.lat,
            lon: waypoint.lon,
            line: waypoint.line,
            run: waypoint.run,
            delayed: waypoint.delayed,
            r09_reporting_point: waypoint.r09_reporting_point,
            r09_destination_number: waypoint.r09_destination_number,
        }
    }
}

} // verus!
