//! Data model of a transit telemetry platform: telegrams, GPS tracks,
//! reporting-point locations, and the records that manage regions,
//! stations and users.
//!
//! Two parts carry logic of their own. [`gps`] folds the waypoints of a
//! recorded track into a track that is keyed by time, and
//! [`locations::merge`] reconciles an incoming dataset of reporting-point
//! locations into a stored one. The rest are records and the conversions
//! between them.
//!
//! Every function states what it returns, and Verus proves that it does;
//! the few calls into other crates are marked as trusted, each with what is
//! taken on trust. To make that possible the crate holds plain values only:
//!
//! - a real quantity is a [`fixed::Fixed`], a signed fixed-point number, so
//!   that all arithmetic is exact integer arithmetic;
//! - a point in time is a [`time::Timestamp`];
//! - a UUID is its 128-bit number.
//!
//! What needs floating-point numbers, files or the network is left to the
//! caller: the merge, for one, is handed the function that measures the
//! distance between two positions.

pub mod fixed;
pub mod gps;
pub mod identifier;
pub mod locations;
pub mod management;
pub mod measurement;
pub mod measurements;
pub mod receivers;
pub mod statistics;
pub mod telegrams;
pub mod text;
pub mod time;
pub mod tracy;
pub mod trekkie;
