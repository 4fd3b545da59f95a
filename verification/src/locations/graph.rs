//! The graph of reporting points: where a vehicle is expected between two
//! of them.

use super::dataset::Property;
use crate::fixed::Fixed;
use std::collections::HashMap;
use vstd::prelude::*;

verus! {

/// A position in the projection that web maps use (EPSG:3857), in metres.
#[derive(Clone, Copy, Debug, PartialEq, Eq, Structural)]
pub struct Epsg3857 {
    /// Position on the x axis.
    pub x: Fixed,
    /// Position on the y axis.
    pub y: Fixed,
}

/// A position with free-form properties.
#[derive(Debug)]
pub struct Position {
    /// Latitude in degrees.
    pub lat: Fixed,
    /// Longitude in degrees.
    pub lon: Fixed,
    /// Auxiliary data.
    pub properties: Vec<Property>,
}

/// The way from one reporting point to the next, as the graph is built.
#[derive(Debug)]
pub struct Edge {
    /// When the edge was last brought up to date.
    pub last_update: u64,
    /// The time that vehicles have needed for the edge.
    pub historical_time: u64,
    /// The reporting point that the edge leads to.
    pub next_reporting_point: u32,
    /// Positions along the edge, each under the percentage of the time after
    /// which a vehicle is expected there.
    pub positions: HashMap<String, Position>,
}

/// The way from one reporting point to the next, with the positions by
/// which to interpolate between them.
#[derive(Debug)]
pub struct LineSegment {
    /// The time in milliseconds that vehicles have needed for the segment.
    pub historical_time: u32,
    /// The reporting point that the segment leads to.
    pub next_reporting_point: i32,
    /// Positions along the segment, each under the percentage of the time
    /// after which a vehicle is expected there.
    pub positions: HashMap<String, Position>,
}

/// Reporting point of departure to the segments that leave it.
pub type RegionGraph = HashMap<i32, Vec<LineSegment>>;

/// Region to its graph.
pub type PositionGraph = HashMap<i64, RegionGraph>;

} // verus!
