//! The configuration of a receiver.

use crate::fixed::Fixed;
use vstd::prelude::*;

verus! {

/// What the decoder of a station is configured with.
#[derive(Clone, Debug)]
pub struct RadioReceiver {
    /// Identifier of the station (a UUID, as its 128-bit number).
    pub id: u128,
    /// Name of the station.
    pub name: String,
    /// Region of the station.
    pub region: u32,
    /// Latitude of the station in degrees.
    pub lat: Fixed,
    /// Longitude of the station in degrees.
    pub lon: Fixed,
}

} // verus!
