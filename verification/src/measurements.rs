//! Measurement intervals: the time that a tracked vehicle was ridden, and
//! which vehicle it was.

use crate::telegrams::r09::R09SaveTelegram;
use crate::time::Timestamp;
use vstd::prelude::*;
use vstd::std_specs::convert::TryFromSpecImpl;

verus! {

/// A measurement that may still be under way: any part of it may be unknown.
#[derive(Clone, Copy, Debug, PartialEq, Eq, Structural)]
pub struct MeasurementInterval {
    /// When the vehicle was entered.
    pub start: Option<Timestamp>,
    /// When the vehicle was left.
    pub stop: Option<Timestamp>,
    /// Line of the vehicle.
    pub line: Option<i32>,
    /// Run number of the vehicle.
    pub run: Option<i32>,
    /// Region in which the vehicle was tracked.
    pub region: Option<i64>,
}

/// A finished measurement: all of it is known.
#[derive(Clone, Copy, Debug, PartialEq, Eq, Structural)]
pub struct FinishedMeasurementInterval {
    /// When the vehicle was entered.
    pub start: Timestamp,
    /// When the vehicle was left.
    pub stop: Timestamp,
    /// Line of the vehicle.
    pub line: i32,
    /// Run number of the vehicle.
    pub run: i32,
    /// Region in which the vehicle was tracked.
    pub region: i64,
}

/// Which part of a measurement was missing when it was to be finished.
#[allow(missing_docs)]
#[derive(Clone, Copy, Debug, PartialEq, Eq, Structural)]
pub enum MeasuerementIntervalError {
    MissingStartValue,
    MissingStopValue,
    MissingLineValue,
    MissingRunValue,
    MissingRegionValue,
}

/// The finished form of a measurement, or the first part that it lacks, in
/// the order start, stop, line, run, region.
pub open spec fn finished(val: MeasurementInterval) -> Result<
    FinishedMeasurementInterval,
    MeasuerementIntervalError,
> {
    if val.start is None {
        Err(MeasuerementIntervalError::MissingStartValue)
    } else if val.stop is None {
        Err(MeasuerementIntervalError::MissingStopValue)
    } else if val.line is None {
        Err(MeasuerementIntervalError::MissingLineValue)
    } else if val.run is None {
        Err(MeasuerementIntervalError::MissingRunValue)
    } else if val.region is None {
        Err(MeasuerementIntervalError::MissingRegionValue)
    } else {
        Ok(
            FinishedMeasurementInterval {
                start: val.start->0,
                stop: val.stop->0,
                line: val.line->0,
                run: val.run->0,
                region: val.region->0,
            },
        )
    }
}

impl TryFrom<MeasurementInterval> for FinishedMeasurementInterval {
    type Error = MeasuerementIntervalError;

    fn try_from(val: MeasurementInterval) -> (r: Result<Self, Self::Error>) {
        let start = match val.start {
            Some(v) => v,
            None => {
                return Err(MeasuerementIntervalError::MissingStartValue);
            },
        };
        let stop = match val.stop {
            Some(v) => v,
            None => {
                return Err(MeasuerementIntervalError::MissingStopValue);
            },
        };
        let line = match val.line {
            Some(v) => v,
            None => {
                return Err(MeasuerementIntervalError::MissingLineValue);
            },
        };
        let run = match val.run {
            Some(v) => v,
            None => {
                return Err(MeasuerementIntervalError::MissingRunValue);
            },
        };
        let region = match val.region {
            Some(v) => v,
            None => {
                return Err(MeasuerementIntervalError::MissingRegionValue);
            },
        };
        Ok(FinishedMeasurementInterval { start, stop, line, run, region })
    }
}

impl TryFromSpecImpl<MeasurementInterval> for FinishedMeasurementInterval {
    open spec fn obeys_try_from_spec() -> bool {
        true
    }

    open spec fn try_from_spec(val: MeasurementInterval) -> Result<Self, Self::Error> {
        finished(val)
    }
}

impl FinishedMeasurementInterval {
    /// Whether `telegram` belongs to this measurement: it names the line and
    /// the run, both are those of the measurement, so is the region, and
    /// the telegram was received after the start and before the stop.
    pub open spec fn matches_telegram(self, telegram: R09SaveTelegram) -> bool {
        &&& telegram.line == Some(self.line)
        &&& telegram.run_number == Some(self.run)
        &&& telegram.region == self.region
        &&& self.start.is_before(telegram.time)
        &&& telegram.time.is_before(self.stop)
    }

    /// The finished form of a measurement of which every part is known.
    ///
    /// Where a part may be missing, use `try_from`.
    pub fn from_measurement(measurement: MeasurementInterval) -> (r: FinishedMeasurementInterval)
        requires
            measurement.start is Some,
            measurement.stop is Some,
            measurement.line is Some,
            measurement.run is Some,
            measurement.region is Some,
        ensures
            finished(measurement) == Ok::<FinishedMeasurementInterval, MeasuerementIntervalError>(
                r,
            ),
    {
        FinishedMeasurementInterval {
            start: measurement.start.unwrap(),
            stop: measurement.stop.unwrap(),
            line: measurement.line.unwrap(),
            run: measurement.run.unwrap(),
            region: measurement.region.unwrap(),
        }
    }

    /// Whether `telegram` belongs to this measurement.
    pub fn fits(&self, telegram: &R09SaveTelegram) -> (b: bool)
        ensures
            b == self.matches_telegram(*telegram),
    {
        if telegram.line.is_none() || telegram.run_number.is_none() {
            return false;
        }
        self.start.before(&telegram.time) && telegram.time.before(&self.stop)
            && telegram.line.unwrap() == self.line && telegram.run_number.unwrap() == self.run
            && telegram.region == self.region
    }
}

} // verus!
