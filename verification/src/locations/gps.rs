//! Positions of recorded rides, as they are stored.

use crate::fixed::Fixed;
use crate::time::Timestamp;
use vstd::prelude::*;
use vstd::std_specs::convert::FromSpecImpl;

verus! {

/// A position of a recorded ride, as it is read from storage.
#[derive(Debug, Clone, Copy, PartialEq, Eq, Structural)]
pub struct GpsPoint {
    /// Primary key.
    pub id: i64,
    /// The ride that the position belongs to (a UUID, as its 128-bit number).
    pub trekkie_run: u128,
    /// When the position was observed.
    pub timestamp: Timestamp,
    /// Latitude in degrees.
    pub lat: Fixed,
    /// Longitude in degrees.
    pub lon: Fixed,
    /// Elevation in metres.
    pub elevation: Option<Fixed>,
    /// Accuracy of the position in metres.
    pub accuracy: Option<Fixed>,
    /// Accuracy of the elevation in metres.
    pub vertical_accuracy: Option<Fixed>,
    /// Bearing in degrees.
    pub bearing: Option<Fixed>,
    /// Speed in metres per second.
    pub speed: Option<Fixed>,
}

/// A position of a recorded ride that is to be stored.
#[derive(Debug, Clone, Copy, PartialEq, Eq, Structural)]
pub struct InsertGpsPoint {
    /// Primary key; `None` lets the database assign one.
    pub id: Option<i64>,
    /// The ride that the position belongs to (a UUID, as its 128-bit number).
    pub trekkie_run: u128,
    /// When the position was observed.
    pub timestamp: Timestamp,
    /// Latitude in degrees.
    pub lat: Fixed,
    /// Longitude in degrees.
    pub lon: Fixed,
    /// Elevation in metres.
    pub elevation: Option<Fixed>,
    /// Accuracy of the position in metres.
    pub accuracy: Option<Fixed>,
    /// Accuracy of the elevation in metres.
    pub vertical_accuracy: Option<Fixed>,
    /// Bearing in degrees.
    pub bearing: Option<Fixed>,
    /// Speed in metres per second.
    pub speed: Option<Fixed>,
}

impl From<GpsPoint> for InsertGpsPoint {
    fn from(val: GpsPoint) -> (r: Self) {
        Self {
            id: Some(val.id),
            trekkie_run: val.trekkie_run,
            timestamp: val.timestamp,
            lat: val.lat,
            lon: val.lon,
            elevation: val.elevation,
            accuracy: val.accuracy,
            vertical_accuracy: val.vertical_accuracy,
            bearing: val.bearing,
            speed: val.speed,
        }
    }
}

impl FromSpecImpl<GpsPoint> for InsertGpsPoint {
    open spec fn obeys_from_spec() -> bool {
        true
    }

    /// The same position under the same key.
    open spec fn from_spec(val: GpsPoint) -> Self {
        InsertGpsPoint {
            id: Some(val.id),
            trekkie_run: val.trekkie_run,
            timestamp: val.timestamp,
            lat: val.lat,
            lon: val.lon,
            elevation: val.elevation,
            accuracy: val.accuracy,
            vertical_accuracy: val.vertical_accuracy,
            bearing: val.bearing,
            speed: val.speed,
        }
    }
}

} // verus!
