use tlms::measurement;
use tlms::measurements::{
    FinishedMeasurementInterval, MeasuerementIntervalError, MeasurementInterval,
};
use tlms::telegrams::r09::{R09SaveTelegram, R09Type};
use tlms::time::Timestamp;

fn at(seconds: i64) -> Timestamp {
    Timestamp { seconds, nanos: 0 }
}

fn whole() -> MeasurementInterval {
    MeasurementInterval {
        start: Some(at(100)),
        stop: Some(at(200)),
        line: Some(7),
        run: Some(3),
        region: Some(1),
    }
}

fn telegram(time: Timestamp, line: Option<i32>, run: Option<i32>, region: i64) -> R09SaveTelegram {
    R09SaveTelegram {
        id: Some(1),
        time,
        station: 0,
        r09_type: R09Type::R16,
        delay: None,
        reporting_point: 0,
        junction: 0,
        direction: 0,
        request_status: 0,
        priority: None,
        direction_request: None,
        line,
        run_number: run,
        destination_number: None,
        train_length: None,
        vehicle_number: None,
        operator: None,
        region,
    }
}

#[test]
fn a_whole_measurement_is_finished() {
    let finished = FinishedMeasurementInterval::try_from(whole());
    let expected = FinishedMeasurementInterval {
        start: at(100),
        stop: at(200),
        line: 7,
        run: 3,
        region: 1,
    };
    assert_eq!(finished, Ok(expected));
    assert_eq!(FinishedMeasurementInterval::from_measurement(whole()), expected);
}

#[test]
fn the_first_missing_part_is_reported() {
    let mut m = whole();
    m.region = None;
    assert_eq!(
        FinishedMeasurementInterval::try_from(m),
        Err(MeasuerementIntervalError::MissingRegionValue)
    );
    m.run = None;
    assert_eq!(
        FinishedMeasurementInterval::try_from(m),
        Err(MeasuerementIntervalError::MissingRunValue)
    );
    m.line = None;
    assert_eq!(
        FinishedMeasurementInterval::try_from(m),
        Err(MeasuerementIntervalError::MissingLineValue)
    );
    m.stop = None;
    assert_eq!(
        FinishedMeasurementInterval::try_from(m),
        Err(MeasuerementIntervalError::MissingStopValue)
    );
    m.start = None;
    assert_eq!(
        FinishedMeasurementInterval::try_from(m),
        Err(MeasuerementIntervalError::MissingStartValue)
    );
    let mut only_start = whole();
    only_start.start = None;
    assert_eq!(
        FinishedMeasurementInterval::try_from(only_start),
        Err(MeasuerementIntervalError::MissingStartValue)
    );
}

#[test]
fn a_telegram_fits_strictly_within_the_interval() {
    let interval = FinishedMeasurementInterval::from_measurement(whole());
    assert!(interval.fits(&telegram(at(150), Some(7), Some(3), 1)));
    assert!(interval.fits(&telegram(Timestamp { seconds: 100, nanos: 1 }, Some(7), Some(3), 1)));
    assert!(interval.fits(&telegram(
        Timestamp { seconds: 199, nanos: 999_999_999 },
        Some(7),
        Some(3),
        1
    )));
    assert!(!interval.fits(&telegram(at(100), Some(7), Some(3), 1)));
    assert!(!interval.fits(&telegram(at(200), Some(7), Some(3), 1)));
    assert!(!interval.fits(&telegram(at(99), Some(7), Some(3), 1)));
    assert!(!interval.fits(&telegram(at(201), Some(7), Some(3), 1)));
}

#[test]
fn a_telegram_fits_only_with_line_run_and_region() {
    let interval = FinishedMeasurementInterval::from_measurement(whole());
    assert!(!interval.fits(&telegram(at(150), Some(8), Some(3), 1)));
    assert!(!interval.fits(&telegram(at(150), Some(7), Some(4), 1)));
    assert!(!interval.fits(&telegram(at(150), Some(7), Some(3), 2)));
    assert!(!interval.fits(&telegram(at(150), None, Some(3), 1)));
    assert!(!interval.fits(&telegram(at(150), Some(7), None, 1)));
    assert!(!interval.fits(&telegram(at(150), None, None, 1)));
}

#[test]
fn the_first_form_knows_no_region_and_fits_no_incomplete_telegram() {
    let interval =
        measurement::FinishedMeasurementInterval::from_measurement(measurement::MeasurementInterval {
            start: Some(at(100)),
            stop: Some(at(200)),
            line: Some(7),
            run: Some(3),
        });
    assert_eq!(
        interval,
        measurement::FinishedMeasurementInterval { start: at(100), stop: at(200), line: 7, run: 3 }
    );
    assert!(!interval.fits(&telegram(at(50), None, Some(3), 1)));
    assert!(!interval.fits(&telegram(at(250), Some(7), None, 1)));
    assert!(!interval.fits(&telegram(at(150), Some(8), None, 1)));
}
