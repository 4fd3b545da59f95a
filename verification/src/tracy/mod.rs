//! Recorded rides, as the tracking service stores them.

use crate::time::Timestamp;
use vstd::prelude::*;

verus! {

/// A ride on a vehicle, possibly still under way, with the file that holds
/// its recorded positions.
#[derive(Debug, Clone)]
pub struct TracyRun {
    /// Unique identifier of the ride.
    pub id: i64,
    /// When the vehicle was entered.
    pub start_time: Option<Timestamp>,
    /// When the vehicle was left.
    pub end_time: Option<Timestamp>,
    /// Line of the vehicle.
    pub line: Option<i32>,
    /// Run number of the vehicle.
    pub run: Option<i32>,
    /// Name of the file with the recorded positions.
    pub gps_file: Option<String>,
    /// Region of the ride.
    pub region: i64,
    /// The user who recorded the ride (a UUID, as its 128-bit number).
    pub owner: u128,
    /// Whether the ride is over.
    pub finished: bool,
}

} // verus!
