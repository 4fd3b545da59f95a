//! Measurement intervals in their first form, without a region. New code
//! uses [`crate::measurements`].

use crate::telegrams::r09::R09SaveTelegram;
use crate::time::Timestamp;
use vstd::prelude::*;

verus! {

/// A measurement that may still be under way: any part of it may be unknown.
#[derive(Clone, Copy, Debug, PartialEq, Eq, Structural)]
pub struct MeasurementInterval {
    /// When the vehicle was entered.
    pub start: Option<Timestamp>,
    /// When the vehicle was left.
    pub stop: Option<Timestamp>,
    /// Line of the vehicle.
    pub line: Option<i32>,
    /// Run number of the vehicle.
    pub run: Option<i32>,
}

/// A finished measurement: all of it is known.
#[derive(Clone, Copy, Debug, PartialEq, Eq, Structural)]
pub struct FinishedMeasurementInterval {
    /// When the vehicle was entered.
    pub start: Timestamp,
    /// When the vehicle was left.
    pub stop: Timestamp,
    /// Line of the vehicle.
    pub line: i32,
    /// Run number of the vehicle.
    pub run: i32,
}

impl FinishedMeasurementInterval {
    /// Whether `telegram` was received after the start and before the stop.
    pub open spec fn spans(self, telegram: R09SaveTelegram) -> bool {
        self.start.is_before(telegram.time) && telegram.time.is_before(self.stop)
    }

    /// The finished form of a measurement of which every part is known.
    pub fn from_measurement(measurement: MeasurementInterval) -> (r: FinishedMeasurementInterval)
        requires
            measurement.start is Some,
            measurement.stop is Some,
            measurement.line is Some,
            measurement.run is Some,
        ensures
            measurement.start == Some(r.start),
            measurement.stop == Some(r.stop),
            measurement.line == Some(r.line),
            measurement.run == Some(r.run),
    {
        FinishedMeasurementInterval {
            start: measurement.start.unwrap(),
            stop: measurement.stop.unwrap(),
            line: measurement.line.unwrap(),
            run: measurement.run.unwrap(),
        }
    }

    /// Whether `telegram` belongs to this measurement.
    ///
    /// This form is for telegrams that lack the line or the run number, and
    /// none of them belongs to a measurement. Within the interval the line
    /// must be there and be another than that of the measurement.
    pub fn fits(&self, telegram: &R09SaveTelegram) -> (b: bool)
        requires
            telegram.line is None || telegram.run_number is None,
            self.spans(*telegram) ==> telegram.line is Some && telegram.line != Some(self.line),
        ensures
            !b,
    {
        self.start.before(&telegram.time) && telegram.time.before(&self.stop)
            && telegram.line.unwrap() == self.line && telegram.run_number.unwrap() == self.run
    }
}

} // verus!
