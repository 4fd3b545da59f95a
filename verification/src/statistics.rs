//! Counts of what was received, per region, station and user.

use crate::time::Timestamp;
use vstd::prelude::*;

verus! {

/// What was received in a region.
#[derive(Debug, Clone, Copy, PartialEq, Eq, Structural)]
pub struct RegionStatistics {
    /// Identifier of the region.
    pub id: i64,
    /// When the counts were last brought up to date.
    pub last_updated: Timestamp,
    /// Telegrams received in all.
    pub total_telegrams: i64,
    /// Telegrams received in the last month.
    pub month_telegrams: i64,
    /// Telegrams received in the last week.
    pub week_telegrams: i64,
    /// Telegrams received in the last 24 hours.
    pub day_telegrams: i64,
    /// GPS points received in all.
    pub total_gps: i64,
    /// GPS points received in the last month.
    pub month_gps: i64,
    /// GPS points received in the last week.
    pub week_gps: i64,
    /// GPS points received in the last 24 hours.
    pub day_gps: i64,
}

/// What a station received.
#[derive(Debug, Clone, Copy, PartialEq, Eq, Structural)]
pub struct StationStatistics {
    /// Identifier of the station (a UUID, as its 128-bit number).
    pub id: u128,
    /// When the counts were last brought up to date.
    pub last_updated: Timestamp,
    /// Telegrams received in all.
    pub total_telegrams: i64,
    /// Telegrams received in the last month.
    pub month_telegrams: i64,
    /// Telegrams received in the last week.
    pub week_telegrams: i64,
    /// Telegrams received in the last 24 hours.
    pub day_telegrams: i64,
}

/// What a user submitted.
#[derive(Debug, Clone, Copy, PartialEq, Eq, Structural)]
pub struct UserStatistics {
    /// Identifier of the user (a UUID, as its 128-bit number).
    pub id: u128,
    /// When the counts were last brought up to date.
    pub last_updated: Timestamp,
    /// GPS points submitted in all.
    pub total_gps: i64,
    /// GPS points submitted in the last month.
    pub month_gps: i64,
    /// GPS points submitted in the last week.
    pub week_gps: i64,
    /// GPS points submitted in the last 24 hours.
    pub day_gps: i64,
}

} // verus!
