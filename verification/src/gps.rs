//! GPS tracks: position samples keyed by their time, and the ingestion of
//! recorded tracks into them.

use crate::fixed::Fixed;
use crate::time::{parse_timestamp, parsed_datetime, TimeFormatError};
use std::collections::HashMap;
use vstd::prelude::*;
use vstd::std_specs::iter::IteratorSpec;

verus! {

broadcast use vstd::std_specs::hash::group_hash_axioms;

/// The strftime pattern of the timestamps in a track file, which are in UTC.
pub const TRACK_TIME_FORMAT: &'static str = "%Y-%m-%dT%H:%M:%SZ";

/// One observed position.
#[derive(Clone, Copy, Debug, PartialEq, Eq, Structural)]
pub struct GpsPoint {
    /// Seconds since the Unix epoch at which the position was observed.
    pub timestamp: i64,
    /// Latitude in degrees.
    pub lat: Fixed,
    /// Longitude in degrees.
    pub lon: Fixed,
    /// Elevation in metres, where it was recorded.
    pub elevation: Option<Fixed>,
}

/// A track: position samples keyed by their timestamp. A sample inserted at
/// a timestamp that is taken replaces the one that was there.
#[derive(Clone, Debug)]
pub struct Gps(HashMap<i64, GpsPoint>);

/// A waypoint of a recorded track, as the track file holds it.
#[derive(Debug)]
pub struct TrackWaypoint {
    /// Latitude in degrees (the `y` of the point).
    pub lat: Fixed,
    /// Longitude in degrees (the `x` of the point).
    pub lon: Fixed,
    /// Elevation in metres.
    pub elevation: Option<Fixed>,
    /// Time of the observation, as text in [`TRACK_TIME_FORMAT`].
    pub time: Option<String>,
}

/// An unbroken run of waypoints.
#[derive(Debug)]
pub struct TrackSegment {
    /// The waypoints, in the order in which they were recorded.
    pub points: Vec<TrackWaypoint>,
}

/// A recorded track: one segment for each stretch of unbroken reception.
#[derive(Debug)]
pub struct RecordedTrack {
    /// The segments, in order.
    pub segments: Vec<TrackSegment>,
}

/// The tracks of one track file.
#[derive(Debug)]
pub struct TrackFile {
    /// The tracks, in order.
    pub tracks: Vec<RecordedTrack>,
}

/// A sample of the first recording format: a time and a position with
/// altitude.
#[derive(Clone, Copy, Debug)]
pub struct LegacySample {
    /// Seconds since the Unix epoch.
    pub time: i64,
    /// Latitude in degrees.
    pub latitude: Fixed,
    /// Longitude in degrees.
    pub longitude: Fixed,
    /// Altitude in metres.
    pub altitude: Fixed,
}

/// A track under construction, and the timestamp text on which the
/// construction failed, if it did.
pub struct Ingested {
    pub track: Map<i64, GpsPoint>,
    pub failed: Option<Seq<char>>,
}

/// The sample that a waypoint observed at `timestamp` stands for.
pub open spec fn sample_of(waypoint: TrackWaypoint, timestamp: i64) -> GpsPoint {
    GpsPoint { timestamp, lat: waypoint.lat, lon: waypoint.lon, elevation: waypoint.elevation }
}

/// Folds the waypoints of one segment into `track`, first to last. The first
/// waypoint without a timestamp ends the segment: it and all that follow it
/// are left out. A timestamp that does not parse ends the ingestion.
pub open spec fn ingest_points(track: Map<i64, GpsPoint>, points: Seq<TrackWaypoint>) -> Ingested
    decreases points.len(),
{
    if points.len() == 0 {
        Ingested { track, failed: None }
    } else {
        match points[0].time {
            None => Ingested { track, failed: None },
            Some(text) => match parsed_datetime(text@, TRACK_TIME_FORMAT@) {
                None => Ingested { track, failed: Some(text@) },
                Some(t) => ingest_points(
                    track.insert(t.seconds, sample_of(points[0], t.seconds)),
                    points.drop_first(),
                ),
            },
        }
    }
}

/// A segment counts up to its first waypoint without a timestamp: the
/// waypoints from that one on make no difference to what is ingested.
pub proof fn lemma_segment_ends_at_missing_time(
    track: Map<i64, GpsPoint>,
    points: Seq<TrackWaypoint>,
    k: int,
)
    requires
        0 <= k < points.len(),
        points[k].time is None,
    ensures
        ingest_points(track, points) == ingest_points(track, points.take(k)),
    decreases k,
{
    if points[0].time is None {
        if k > 0 {
            assert(points.take(k)[0] == points[0]);
        }
    } else if k > 0 {
        let text = points[0].time->0;
        assert(points.take(k)[0] == points[0]);
        assert(points.take(k).drop_first() =~= points.drop_first().take(k - 1));
        match parsed_datetime(text@, TRACK_TIME_FORMAT@) {
            None => {},
            Some(t) => {
                lemma_segment_ends_at_missing_time(
                    track.insert(t.seconds, sample_of(points[0], t.seconds)),
                    points.drop_first(),
                    k - 1,
                );
            },
        }
    }
}

/// Folds segments into `track`, first to last, up to the first failure.
pub open spec fn ingest_segments(track: Map<i64, GpsPoint>, segments: Seq<TrackSegment>)
    -> Ingested
    decreases segments.len(),
{
    if segments.len() == 0 {
        Ingested { track, failed: None }
    } else {
        let first = ingest_points(track, segments[0].points@);
        if first.failed is Some {
            first
        } else {
            ingest_segments(first.track, segments.drop_first())
        }
    }
}

/// Folds tracks into `track`, first to last, up to the first failure.
pub open spec fn ingest_tracks(track: Map<i64, GpsPoint>, tracks: Seq<RecordedTrack>) -> Ingested
    decreases tracks.len(),
{
    if tracks.len() == 0 {
        Ingested { track, failed: None }
    } else {
        let first = ingest_segments(track, tracks[0].segments@);
        if first.failed is Some {
            first
        } else {
            ingest_tracks(first.track, tracks.drop_first())
        }
    }
}

/// The sample that a legacy sample stands for.
pub open spec fn legacy_point(sample: LegacySample) -> GpsPoint {
    GpsPoint {
        timestamp: sample.time,
        lat: sample.latitude,
        lon: sample.longitude,
        elevation: Some(sample.altitude),
    }
}

/// Folds legacy samples into `track`, first to last, each under its time.
pub open spec fn ingest_legacy(track: Map<i64, GpsPoint>, samples: Seq<LegacySample>) -> Map<
    i64,
    GpsPoint,
>
    decreases samples.len(),
{
    if samples.len() == 0 {
        track
    } else {
        ingest_legacy(track.insert(samples[0].time, legacy_point(samples[0])), samples.drop_first())
    }
}

impl View for Gps {
    type V = Map<i64, GpsPoint>;

    closed spec fn view(&self) -> Map<i64, GpsPoint> {
        self.0@
    }
}

impl Gps {
    /// A track without samples.
    pub fn empty() -> (track: Gps)
        ensures
            track@ == Map::<i64, GpsPoint>::empty(),
    {
        Gps(HashMap::new())
    }

    /// Stores `v` under the timestamp `k` and returns the sample that was
    /// stored there before.
    pub fn insert(&mut self, k: i64, v: GpsPoint) -> (previous: Option<GpsPoint>)
        ensures
            final(self)@ == old(self)@.insert(k, v),
            previous == if old(self)@.contains_key(k) {
                Some(old(self)@[k])
            } else {
                None
            },
    {
        self.0.insert(k, v)
    }

    /// The sample stored under the timestamp `k`.
    pub fn get(&self, k: &i64) -> (found: Option<&GpsPoint>)
        ensures
            found == if self@.contains_key(*k) {
                Some(&self@[*k])
            } else {
                None
            },
    {
        self.0.get(k)
    }

    /// The number of samples.
    pub fn len(&self) -> (n: usize)
        ensures
            n == self@.len(),
    {
        self.0.len()
    }

    /// All samples with their timestamps, each once, in no particular order.
    pub fn iter(&self) -> (all: Vec<(i64, GpsPoint)>)
        ensures
            all@.len() == self@.len(),
            forall|i: int| 0 <= i < all@.len() ==> self@.contains_pair(all@[i].0, all@[i].1),
            forall|i: int, j: int| 0 <= i < j < all@.len() ==> all@[i].0 != all@[j].0,
            forall|k: i64|
                self@.contains_key(k) ==> exists|i: int|
                    0 <= i < all@.len() && all@[i] == (k, self@[k]),
    {
        let mut all: Vec<(i64, GpsPoint)> = Vec::new();
        for entry in it: self.0.iter()
            invariant
                all@.len() == it.index(),
                forall|i: int|
                    0 <= i < all@.len() ==> all@[i] == (*it.seq()[i].0, *it.seq()[i].1),
        {
            all.push((*entry.0, *entry.1));
        }
        proof {
            let entries = self.0.iter().remaining();
            assert(all@ =~= entries.unref());
            assert forall|i: int, j: int| 0 <= i < j < all@.len() implies all@[i].0 != all@[j].0 by {
                if all@[i].0 == all@[j].0 {
                    assert(self.0@[*entries[i].0] == *entries[i].1);
                    assert(self.0@[*entries[j].0] == *entries[j].1);
                    assert(entries[i] == entries[j]);
                }
            }
            assert forall|k: i64| self@.contains_key(k) implies exists|i: int|
                0 <= i < all@.len() && all@[i] == (k, self@[k]) by {
                assert(entries.contains((&k, &self.0@[k])));
                let i = choose|i: int| 0 <= i < entries.len() && entries[i] == (&k, &self.0@[k]);
                assert(all@[i] == (k, self@[k]));
            }
        }
        all
    }

    /// Adds the samples of the first recording format, each under its time.
    pub fn insert_from_legacy(&mut self, samples: &Vec<LegacySample>)
        ensures
            final(self)@ == ingest_legacy(old(self)@, samples@),
    {
        let mut i: usize = 0;
        assert(samples@.skip(0) =~= samples@);
        while i < samples.len()
            invariant
                i <= samples.len(),
                ingest_legacy(self@, samples@.skip(i as int)) == ingest_legacy(
                    old(self)@,
                    samples@,
                ),
            decreases samples.len() - i,
        {
            let sample = samples[i];
            proof {
                assert(samples@.skip(i as int).drop_first() =~= samples@.skip(i + 1));
            }
            self.0.insert(
                sample.time,
                GpsPoint {
                    timestamp: sample.time,
                    lat: sample.latitude,
                    lon: sample.longitude,
                    elevation: Some(sample.altitude),
                },
            );
            i += 1;
        }
    }

    /// Adds the waypoints of one segment: see [`ingest_points`].
    fn insert_segment(&mut self, segment: &TrackSegment) -> (r: Result<(), TimeFormatError>)
        ensures
            final(self)@ == ingest_points(old(self)@, segment.points@).track,
            match ingest_points(old(self)@, segment.points@).failed {
                None => r is Ok,
                Some(text) => r matches Err(e) && e.text@ == text,
            },
    {
        let mut i: usize = 0;
        assert(segment.points@.skip(0) =~= segment.points@);
        while i < segment.points.len()
            invariant
                i <= segment.points.len(),
                ingest_points(self@, segment.points@.skip(i as int)) == ingest_points(
                    old(self)@,
                    segment.points@,
                ),
            decreases segment.points.len() - i,
        {
            let point = &segment.points[i];
            proof {
                assert(segment.points@.skip(i as int).drop_first() =~= segment.points@.skip(i + 1));
                assert(segment.points@.skip(i as int)[0] == *point);
            }
            match &point.time {
                None => {
                    return Ok(());
                },
                Some(text) => {
                    let t = match parse_timestamp(text.as_str(), TRACK_TIME_FORMAT) {
                        Ok(t) => t,
                        Err(e) => {
                            return Err(e);
                        },
                    };
                    self.0.insert(
                        t.seconds,
                        GpsPoint {
                            timestamp: t.seconds,
                            lat: point.lat,
                            lon: point.lon,
                            elevation: point.elevation,
                        },
                    );
                },
            }
            i += 1;
        }
        Ok(())
    }

    /// Adds the waypoints of all segments of all tracks of a track file,
    /// each under its time in seconds since the epoch.
    ///
    /// A segment is read up to its first waypoint without a timestamp: that
    /// waypoint and the rest of the segment are left out, and the next
    /// segment is read. A timestamp that is present but does not follow
    /// [`TRACK_TIME_FORMAT`] fails the call with that text; the track then
    /// holds the samples that were read before it.
    pub fn insert_from_gpx(&mut self, gpx: &TrackFile) -> (r: Result<(), TimeFormatError>)
        ensures
            final(self)@ == ingest_tracks(old(self)@, gpx.tracks@).track,
            match ingest_tracks(old(self)@, gpx.tracks@).failed {
                None => r is Ok,
                Some(text) => r matches Err(e) && e.text@ == text,
            },
    {
        let mut i: usize = 0;
        assert(gpx.tracks@.skip(0) =~= gpx.tracks@);
        while i < gpx.tracks.len()
            invariant
                i <= gpx.tracks.len(),
                ingest_tracks(self@, gpx.tracks@.skip(i as int)) == ingest_tracks(
                    old(self)@,
                    gpx.tracks@,
                ),
            decreases gpx.tracks.len() - i,
        {
            let track = &gpx.tracks[i];
            let ghost entered = self@;
            proof {
                assert(gpx.tracks@.skip(i as int).drop_first() =~= gpx.tracks@.skip(i + 1));
                assert(gpx.tracks@.skip(i as int)[0] == *track);
                assert(track.segments@.skip(0) =~= track.segments@);
            }
            let mut j: usize = 0;
            while j < track.segments.len()
                invariant
                    j <= track.segments.len(),
                    i < gpx.tracks.len(),
                    gpx.tracks@.skip(i as int)[0] == *track,
                    ingest_segments(self@, track.segments@.skip(j as int)) == ingest_segments(
                        entered,
                        track.segments@,
                    ),
                    ingest_tracks(entered, gpx.tracks@.skip(i as int)) == ingest_tracks(
                        old(self)@,
                        gpx.tracks@,
                    ),
                decreases track.segments.len() - j,
            {
                let segment = &track.segments[j];
                proof {
                    assert(track.segments@.skip(j as int).drop_first() =~= track.segments@.skip(
                        j + 1,
                    ));
                    assert(track.segments@.skip(j as int)[0] == *segment);
                }
                match self.insert_segment(segment) {
                    Ok(()) => {},
                    Err(e) => {
                        return Err(e);
                    },
                }
                j += 1;
            }
            i += 1;
        }
        Ok(())
    }
}

} // verus!
