//! Locations: regions, reporting points and the positions inferred for them.

pub mod dataset;
pub mod gps;
pub mod graph;
pub mod merge;
pub mod region;
pub mod waypoint;

use crate::fixed::Fixed;
use vstd::prelude::*;

verus! {

/// Mean radius of the Earth in metres, for distances between positions.
pub const MEAN_EARTH_RADIUS: u32 = 6_371_000;

/// Equatorial radius of the Earth in metres, for projected coordinates.
pub const EQUATORIAL_EARTH_RADIUS: u32 = 6_378_137;

/// The position at which a reporting point is transmitted, inferred from
/// many measurements.
#[derive(Debug, Clone, Copy, PartialEq, Eq, Structural)]
pub struct TransmissionLocation {
    /// Primary key.
    pub id: i64,
    /// Region of the reporting point.
    pub region: i64,
    /// Number of the reporting point.
    pub reporting_point: i32,
    /// Latitude in degrees.
    pub lat: Fixed,
    /// Longitude in degrees.
    pub lon: Fixed,
    /// Whether the position was entered as known, so that nothing inferred
    /// may replace it.
    pub ground_truth: bool,
}

/// A [`TransmissionLocation`] that is to be stored.
#[derive(Debug, Clone, Copy, PartialEq, Eq, Structural)]
pub struct InsertTransmissionLocation {
    /// Primary key; `None` lets the database assign one.
    pub id: Option<i64>,
    /// Region of the reporting point.
    pub region: i64,
    /// Number of the reporting point.
    pub reporting_point: i32,
    /// Latitude in degrees.
    pub lat: Fixed,
    /// Longitude in degrees.
    pub lon: Fixed,
    /// Whether the position was entered as known.
    pub ground_truth: bool,
}

/// The position at which a reporting point was transmitted, as one recorded
/// ride showed it.
#[derive(Debug, Clone, Copy, PartialEq, Eq, Structural)]
pub struct TransmissionLocationRaw {
    /// Primary key.
    pub id: i64,
    /// Region of the reporting point.
    pub region: i64,
    /// Number of the reporting point.
    pub reporting_point: i32,
    /// Latitude in degrees.
    pub lat: Fixed,
    /// Longitude in degrees.
    pub lon: Fixed,
    /// The ride that showed the position (a UUID, as its 128-bit number).
    pub trekkie_run: u128,
    /// The user who recorded that ride (a UUID).
    pub run_owner: u128,
}

/// A [`TransmissionLocationRaw`] that is to be stored.
#[derive(Debug, Clone, Copy, PartialEq, Eq, Structural)]
pub struct InsertTransmissionLocationRaw {
    /// Primary key; `None` lets the database assign one.
    pub id: Option<i64>,
    /// Region of the reporting point.
    pub region: i64,
    /// Number of the reporting point.
    pub reporting_point: i32,
    /// Latitude in degrees.
    pub lat: Fixed,
    /// Longitude in degrees.
    pub lon: Fixed,
    /// The ride that showed the position (a UUID, as its 128-bit number).
    pub trekkie_run: u128,
    /// The user who recorded that ride (a UUID).
    pub run_owner: u128,
}

/// Why no [`TransmissionLocation`] could be made of raw locations.
#[derive(Debug, Clone, Copy, PartialEq, Eq, Structural)]
pub enum TransmissionLocaionError {
    /// There were no raw locations.
    EmptyInput,
    /// The raw locations are not all of one region.
    RegionMismatch,
}

/// Whether some raw location is of another region than the first.
pub open spec fn regions_differ(raw: Seq<TransmissionLocationRaw>) -> bool {
    exists|i: int| 0 <= i < raw.len() && (#[trigger] raw[i]).region != raw[0].region
}

impl TransmissionLocation {
    /// Checks raw locations before they are condensed into one location.
    ///
    /// Raw locations of more than one region are refused with
    /// `RegionMismatch`. Every other input, an empty one too, is answered
    /// with `EmptyInput`: this crate does not condense locations yet, so no
    /// input yields a location.
    pub fn new(raw: Vec<TransmissionLocationRaw>) -> (r: Result<
        InsertTransmissionLocation,
        TransmissionLocaionError,
    >)
        ensures
            r == Err::<InsertTransmissionLocation, TransmissionLocaionError>(
                if regions_differ(raw@) {
                    TransmissionLocaionError::RegionMismatch
                } else {
                    TransmissionLocaionError::EmptyInput
                },
            ),
    {
        if raw.len() == 0 {
            return Err(TransmissionLocaionError::EmptyInput);
        }
        let region = raw[0].region;
        let mut i: usize = 0;
        while i < raw.len()
            invariant
                i <= raw.len(),
                raw.len() > 0,
                region == raw@[0].region,
                forall|k: int| 0 <= k < i ==> raw@[k].region == region,
            decreases raw.len() - i,
        {
            if raw[i].region != region {
                return Err(TransmissionLocaionError::RegionMismatch);
            }
            i += 1;
        }
        Err(TransmissionLocaionError::EmptyInput)
    }
}

/// For things with a position, between which a distance can be measured.
pub trait DistanceFrom<T> {
    /// The distance between this and `value` in metres, rounded up to a
    /// whole number.
    fn distance_from(&self, value: T) -> u64;
}

} // verus!
