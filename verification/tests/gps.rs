use tlms::fixed::Fixed;
use tlms::gps::{
    Gps, GpsPoint, LegacySample, RecordedTrack, TrackFile, TrackSegment, TrackWaypoint,
    TRACK_TIME_FORMAT,
};
use tlms::time::{parse_timestamp, Timestamp};

fn waypoint(lat: i64, lon: i64, time: Option<&str>) -> TrackWaypoint {
    TrackWaypoint {
        lat: Fixed::from_units(lat),
        lon: Fixed::from_units(lon),
        elevation: Some(Fixed::from_units(1_130_000_000)),
        time: time.map(String::from),
    }
}

fn file(segments: Vec<Vec<TrackWaypoint>>) -> TrackFile {
    TrackFile {
        tracks: vec![RecordedTrack {
            segments: segments.into_iter().map(|points| TrackSegment { points }).collect(),
        }],
    }
}

#[test]
fn ingestion_stops_a_segment_at_the_first_waypoint_without_time() {
    // A known quirk, kept on purpose: the waypoint without a timestamp ends
    // the segment, so the third waypoint is lost although it has a time.
    let gpx = file(vec![vec![
        waypoint(510_500_000, 137_400_000, Some("2023-01-01T00:00:00Z")),
        waypoint(510_501_000, 137_401_000, None),
        waypoint(510_502_000, 137_402_000, Some("2023-01-01T00:00:02Z")),
    ]]);
    let mut track = Gps::empty();
    assert!(track.insert_from_gpx(&gpx).is_ok());
    assert_eq!(track.len(), 1);
    let sample = track.get(&1_672_531_200).unwrap();
    assert_eq!(
        *sample,
        GpsPoint {
            timestamp: 1_672_531_200,
            lat: Fixed::from_units(510_500_000),
            lon: Fixed::from_units(137_400_000),
            elevation: Some(Fixed::from_units(1_130_000_000)),
        }
    );
    assert!(track.get(&1_672_531_202).is_none());
}

#[test]
fn ingestion_goes_on_with_the_next_segment_and_track() {
    let mut gpx = file(vec![
        vec![
            waypoint(1, 1, Some("2023-01-01T00:00:00Z")),
            waypoint(2, 2, None),
            waypoint(3, 3, Some("2023-01-01T00:00:02Z")),
        ],
        vec![],
        vec![waypoint(4, 4, Some("2023-01-01T00:00:03Z"))],
    ]);
    gpx.tracks.push(RecordedTrack {
        segments: vec![TrackSegment {
            points: vec![waypoint(5, 5, Some("2023-01-01T00:01:00Z")), waypoint(6, 6, None)],
        }],
    });
    let mut track = Gps::empty();
    assert!(track.insert_from_gpx(&gpx).is_ok());
    let mut seen: Vec<(i64, i64)> =
        track.iter().into_iter().map(|(k, p)| (k, p.lat.units())).collect();
    seen.sort();
    assert_eq!(seen, vec![(1_672_531_200, 1), (1_672_531_203, 4), (1_672_531_260, 5)]);
}

#[test]
fn ingestion_overwrites_a_sample_of_the_same_time() {
    let gpx = file(vec![vec![
        waypoint(1, 1, Some("1970-01-01T00:00:10Z")),
        waypoint(2, 2, Some("1970-01-01T00:00:10Z")),
    ]]);
    let mut track = Gps::empty();
    track.insert(
        10,
        GpsPoint {
            timestamp: 10,
            lat: Fixed::from_units(9),
            lon: Fixed::from_units(9),
            elevation: None,
        },
    );
    assert!(track.insert_from_gpx(&gpx).is_ok());
    assert_eq!(track.len(), 1);
    assert_eq!(track.get(&10).unwrap().lat.units(), 2);
    assert_eq!(track.get(&10).unwrap().elevation, Some(Fixed::from_units(1_130_000_000)));
}

#[test]
fn ingestion_fails_on_a_timestamp_in_another_format() {
    let gpx = file(vec![
        vec![
            waypoint(1, 1, Some("2023-01-01T00:00:00Z")),
            waypoint(2, 2, Some("2023-01-01 00:00:01")),
            waypoint(3, 3, Some("2023-01-01T00:00:02Z")),
        ],
        vec![waypoint(4, 4, Some("2023-01-01T00:00:03Z"))],
    ]);
    let mut track = Gps::empty();
    let failed = track.insert_from_gpx(&gpx).unwrap_err();
    assert_eq!(failed.text, "2023-01-01 00:00:01");
    assert_eq!(track.len(), 1);
    assert!(track.get(&1_672_531_200).is_some());
}

#[test]
fn ingestion_refuses_fractions_of_a_second_and_other_offsets() {
    for text in ["2023-01-01T00:00:00.5Z", "2023-01-01T00:00:00+01:00", "", "2023-02-30T00:00:00Z"]
    {
        let gpx = file(vec![vec![waypoint(1, 1, Some(text))]]);
        let mut track = Gps::empty();
        let failed = track.insert_from_gpx(&gpx).unwrap_err();
        assert_eq!(failed.text, text);
        assert_eq!(track.len(), 0);
    }
}

#[test]
fn ingestion_of_nothing_changes_nothing() {
    let mut track = Gps::empty();
    assert!(track.insert_from_gpx(&TrackFile { tracks: vec![] }).is_ok());
    assert!(track.insert_from_gpx(&file(vec![])).is_ok());
    assert!(track.insert_from_gpx(&file(vec![vec![waypoint(1, 1, None)]])).is_ok());
    assert_eq!(track.len(), 0);
    assert!(track.iter().is_empty());
}

#[test]
fn timestamps_are_read_as_seconds_since_the_epoch() {
    let read = |text: &str| parse_timestamp(text, TRACK_TIME_FORMAT).map(|t| (t.seconds, t.nanos));
    assert_eq!(TRACK_TIME_FORMAT, "%Y-%m-%dT%H:%M:%SZ");
    assert_eq!(read("1970-01-01T00:00:00Z").unwrap(), (0, 0));
    assert_eq!(read("1969-12-31T23:59:59Z").unwrap(), (-1, 0));
    assert_eq!(read("2001-09-09T01:46:40Z").unwrap(), (1_000_000_000, 0));
    assert_eq!(read("2024-02-29T12:30:45Z").unwrap(), (1_709_209_845, 0));
    assert_eq!(read("garbage").unwrap_err().text, "garbage");
    assert_eq!(read("2024-02-29T12:30:45").unwrap_err().text, "2024-02-29T12:30:45");
}

#[test]
fn timestamps_are_read_under_the_format_given() {
    let t = parse_timestamp("05.03.2022 07:08", "%d.%m.%Y %H:%M").unwrap();
    assert_eq!(t, Timestamp { seconds: 1_646_464_080, nanos: 0 });
    let t = parse_timestamp("2022-03-05 07:08:09.25", "%Y-%m-%d %H:%M:%S%.f").unwrap();
    assert_eq!(t, Timestamp { seconds: 1_646_464_089, nanos: 250_000_000 });
    assert!(parse_timestamp("2022-03-05", "%").is_err());
}

#[test]
fn timestamps_compare_by_seconds_then_nanoseconds() {
    let t = |seconds, nanos| Timestamp { seconds, nanos };
    assert!(t(1, 0).before(&t(2, 0)));
    assert!(t(-5, 999).before(&t(-4, 0)));
    assert!(t(1, 5).before(&t(1, 6)));
    assert!(!t(1, 5).before(&t(1, 5)));
    assert!(!t(2, 0).before(&t(1, 999_999_999)));
    assert_eq!(Timestamp::from_seconds(7), t(7, 0));
}

#[test]
fn insert_returns_what_was_there() {
    let point = |lat| GpsPoint {
        timestamp: 5,
        lat: Fixed::from_units(lat),
        lon: Fixed::from_units(0),
        elevation: None,
    };
    let mut track = Gps::empty();
    assert_eq!(track.len(), 0);
    assert_eq!(track.insert(5, point(1)), None);
    assert_eq!(track.insert(5, point(2)), Some(point(1)));
    assert_eq!(track.insert(6, point(3)), None);
    assert_eq!(track.len(), 2);
    assert_eq!(track.get(&5), Some(&point(2)));
    assert_eq!(track.get(&7), None);
}

#[test]
fn iter_hands_out_every_sample_once() {
    let mut track = Gps::empty();
    for k in 0..50 {
        track.insert(
            k,
            GpsPoint {
                timestamp: k,
                lat: Fixed::from_units(k * 2),
                lon: Fixed::from_units(k * 3),
                elevation: None,
            },
        );
    }
    let mut all = track.iter();
    all.sort_by_key(|(k, _)| *k);
    assert_eq!(all.len(), 50);
    for (i, (k, p)) in all.iter().enumerate() {
        assert_eq!(*k, i as i64);
        assert_eq!(p.timestamp, *k);
        assert_eq!(p.lat.units(), 2 * k);
        assert_eq!(p.lon.units(), 3 * k);
    }
}

#[test]
fn legacy_samples_are_inserted_under_their_time() {
    let sample = |time, latitude| LegacySample {
        time,
        latitude: Fixed::from_units(latitude),
        longitude: Fixed::from_units(-latitude),
        altitude: Fixed::from_units(100),
    };
    let mut track = Gps::empty();
    track.insert_from_legacy(&vec![sample(3, 30), sample(1, 10), sample(3, 31)]);
    assert_eq!(track.len(), 2);
    assert_eq!(
        track.get(&3),
        Some(&GpsPoint {
            timestamp: 3,
            lat: Fixed::from_units(31),
            lon: Fixed::from_units(-31),
            elevation: Some(Fixed::from_units(100)),
        })
    );
    assert_eq!(track.get(&1).unwrap().lat.units(), 10);
    track.insert_from_legacy(&vec![]);
    assert_eq!(track.len(), 2);
}
