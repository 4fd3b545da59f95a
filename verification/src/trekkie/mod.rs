//! Recorded rides, as the correlating service stores them.

use crate::time::Timestamp;
use vstd::prelude::*;

verus! {

/// A ride on a vehicle during which positions were recorded, to be
/// correlated later with the telegrams of that vehicle.
#[derive(Debug, Clone, Copy, PartialEq, Eq, Structural)]
pub struct TrekkieRun {
    /// When the vehicle was entered.
    pub start_time: Timestamp,
    /// When the vehicle was left.
    pub end_time: Timestamp,
    /// Line of the vehicle.
    pub line: i32,
    /// Run number of the vehicle.
    pub run: i32,
    /// Region of the ride.
    pub region: i64,
    /// The user who recorded the ride (a UUID, as its 128-bit number).
    pub owner: u128,
    /// Whether the ride is over.
    pub finished: bool,
    /// Unique identifier of the ride (a UUID).
    pub id: u128,
    /// Whether the positions have been correlated with telegrams.
    pub correlated: bool,
}

} // verus!
