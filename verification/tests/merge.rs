use std::collections::HashMap;
use tlms::fixed::Fixed;
use tlms::locations::dataset::{
    DocumentMetadata, LocationDataset, Property, RegionMetadata, ReportingPointLocation,
    SANE_INTERPOLATION_DISTANCE, SCHEMA,
};
use tlms::locations::merge::MergeStatistics;
use tlms::telegrams::r09::R09Type;
use tlms::time::Timestamp;

/// Mean Earth radius in metres.
const EARTH_RADIUS: f64 = 6_371_000.0;

fn degrees(value: Fixed) -> f64 {
    value.units() as f64 / 10_000_000.0
}

fn fixed(deg: f64) -> Fixed {
    Fixed::from_units((deg * 10_000_000.0).round() as i64)
}

/// Great-circle distance in metres, rounded up, by the formula that takes
/// the difference of the latitudes for both of its terms.
fn distance(a: &ReportingPointLocation, b: &ReportingPointLocation) -> u64 {
    let lat1 = degrees(a.lat).to_radians();
    let lat2 = degrees(b.lat).to_radians();
    let delta = lat1 - lat2;
    let h = delta.sin().powi(2) + lat2.cos() * lat1.cos() * delta.sin().powi(2);
    let c = 2.0 * h.sqrt().atan2((1.0 - h).sqrt());
    (EARTH_RADIUS * c).ceil() as u64
}

fn document() -> DocumentMetadata {
    DocumentMetadata {
        schema_version: String::from("2"),
        date: Timestamp::from_seconds(1_700_000_000),
        generator: Some(String::from("merge-tests")),
        generator_version: None,
    }
}

fn dataset(points: &[(i64, i32, f64, f64)]) -> LocationDataset {
    let mut set = LocationDataset::new(document());
    for (region, point, lat, lon) in points {
        set.data
            .entry(*region)
            .or_insert_with(HashMap::new)
            .insert(*point, ReportingPointLocation::new(fixed(*lat), fixed(*lon)));
    }
    set
}

fn position(set: &LocationDataset, region: i64, point: i32) -> (i64, i64) {
    let stored = set.get(region, point).unwrap();
    (stored.lat.units(), stored.lon.units())
}

#[test]
fn merge_into_empty_region_creates_the_point() {
    let mut base = dataset(&[]);
    base.data.insert(5, HashMap::new());
    let incoming = dataset(&[(5, 100, 51.0500, 13.7400)]);
    let stats = base.merge(&incoming, distance);
    assert_eq!(stats, MergeStatistics { created: 1, refined: 0, skipped: 0 });
    assert_eq!(position(&base, 5, 100), (510_500_000, 137_400_000));
}

#[test]
fn merge_of_a_close_point_averages() {
    let mut base = dataset(&[(5, 100, 51.0500, 13.7400)]);
    let incoming = dataset(&[(5, 100, 51.0501, 13.7401)]);
    let stats = base.merge(&incoming, distance);
    assert_eq!(stats, MergeStatistics { created: 0, refined: 1, skipped: 0 });
    assert_eq!(position(&base, 5, 100), (510_500_500, 137_400_500));
    assert!(base.get(5, 100).unwrap().properties.is_empty());
}

#[test]
fn merge_of_a_far_point_is_skipped() {
    let mut base = dataset(&[(5, 100, 51.0500, 13.7400)]);
    let incoming = dataset(&[(5, 100, 52.5200, 13.4100)]);
    let stats = base.merge(&incoming, distance);
    assert_eq!(stats, MergeStatistics { created: 0, refined: 0, skipped: 1 });
    assert_eq!(position(&base, 5, 100), (510_500_000, 137_400_000));
}

#[test]
fn merging_twice_moves_the_point_twice() {
    // The merge is not idempotent: the first merge has moved the stored
    // point, so the second averages from another position.
    let mut base = dataset(&[(5, 100, 51.0500, 13.7400)]);
    let incoming = dataset(&[(5, 100, 51.0501, 13.7404)]);
    let first = base.merge(&incoming, distance);
    let after_first = position(&base, 5, 100);
    let second = base.merge(&incoming, distance);
    let after_second = position(&base, 5, 100);
    assert_eq!(first.refined, 1);
    assert_eq!(second.refined, 1);
    assert_eq!(after_first, (510_500_500, 137_402_000));
    assert_eq!(after_second, (510_500_750, 137_403_000));
    assert_ne!(after_first, after_second);
}

#[test]
fn merge_creates_a_missing_region() {
    let mut base = dataset(&[(1, 7, 50.0, 10.0)]);
    let mut incoming = dataset(&[(2, 8, 48.0, 11.0)]);
    incoming.data.insert(3, HashMap::new());
    let stats = base.merge(&incoming, distance);
    assert_eq!(stats, MergeStatistics { created: 1, refined: 0, skipped: 0 });
    assert_eq!(base.data.len(), 3);
    assert!(base.data.get(&3).unwrap().is_empty());
    assert_eq!(position(&base, 2, 8), (480_000_000, 110_000_000));
    assert_eq!(position(&base, 1, 7), (500_000_000, 100_000_000));
}

#[test]
fn merge_counts_every_kind_at_once() {
    let mut base = dataset(&[
        (1, 1, 51.0000, 13.0000),
        (1, 2, 51.0000, 13.0000),
        (1, 3, 51.0000, 13.0000),
        (2, 1, 40.0000, 9.0000),
    ]);
    let incoming = dataset(&[
        (1, 1, 51.0001, 13.0002),
        (1, 2, 51.9000, 13.0000),
        (1, 4, 51.5000, 13.5000),
        (2, 1, 40.0001, 9.0003),
        (2, 2, 41.0000, 9.0000),
        (9, 1, 10.0000, 20.0000),
    ]);
    let stats = base.merge(&incoming, distance);
    assert_eq!(stats, MergeStatistics { created: 3, refined: 2, skipped: 1 });
    assert_eq!(position(&base, 1, 1), (510_000_500, 130_001_000));
    assert_eq!(position(&base, 1, 2), (510_000_000, 130_000_000));
    assert_eq!(position(&base, 1, 3), (510_000_000, 130_000_000));
    assert_eq!(position(&base, 1, 4), (515_000_000, 135_000_000));
    assert_eq!(position(&base, 2, 1), (400_000_500, 90_001_500));
    assert_eq!(position(&base, 2, 2), (410_000_000, 90_000_000));
    assert_eq!(position(&base, 9, 1), (100_000_000, 200_000_000));
}

#[test]
fn merge_goes_by_the_distance_it_is_given() {
    // At the sanity distance a point is still refined; one metre more and
    // it is skipped.
    let mut base = dataset(&[(5, 100, 10.0, 10.0)]);
    let incoming = dataset(&[(5, 100, 20.0, 30.0)]);
    let stats = base.merge(&incoming, |_, _| SANE_INTERPOLATION_DISTANCE);
    assert_eq!(stats, MergeStatistics { created: 0, refined: 1, skipped: 0 });
    assert_eq!(position(&base, 5, 100), (150_000_000, 200_000_000));

    let mut base = dataset(&[(5, 100, 10.0, 10.0)]);
    let stats = base.merge(&incoming, |_, _| SANE_INTERPOLATION_DISTANCE + 1);
    assert_eq!(stats, MergeStatistics { created: 0, refined: 0, skipped: 1 });
    assert_eq!(position(&base, 5, 100), (100_000_000, 100_000_000));
}

#[test]
fn merge_never_measures_a_new_point() {
    let mut base = dataset(&[]);
    let incoming = dataset(&[(1, 1, 1.0, 1.0), (1, 2, 2.0, 2.0)]);
    let stats = base.merge(&incoming, |_, _| panic!("nothing to measure"));
    assert_eq!(stats, MergeStatistics { created: 2, refined: 0, skipped: 0 });
}

#[test]
fn merge_hands_stored_then_incoming_to_the_distance() {
    let mut base = dataset(&[(1, 1, 1.0, 1.0)]);
    let incoming = dataset(&[(1, 1, 2.0, 2.0)]);
    base.merge(&incoming, |stored, arriving| {
        assert_eq!(stored.lat.units(), 10_000_000);
        assert_eq!(arriving.lat.units(), 20_000_000);
        0
    });
}

#[test]
fn merge_keeps_properties_of_new_and_skipped_points_and_clears_refined_ones() {
    let tag = |value: &str| Property { key: String::from("tag"), value: String::from(value) };
    let mut base = dataset(&[(1, 1, 51.0, 13.0), (1, 2, 51.0, 13.0)]);
    for point in base.data.get_mut(&1).unwrap().values_mut() {
        point.properties.push(tag("\"old\""));
    }
    let mut incoming = dataset(&[(1, 1, 51.0001, 13.0), (1, 2, 53.0, 13.0), (1, 3, 52.0, 13.0)]);
    for point in incoming.data.get_mut(&1).unwrap().values_mut() {
        point.properties.push(tag("\"new\""));
    }
    let stats = base.merge(&incoming, distance);
    assert_eq!(stats, MergeStatistics { created: 1, refined: 1, skipped: 1 });
    assert!(base.get(1, 1).unwrap().properties.is_empty());
    assert_eq!(base.get(1, 2).unwrap().properties[0].value, "\"old\"");
    assert_eq!(base.get(1, 3).unwrap().properties.len(), 1);
    assert_eq!(base.get(1, 3).unwrap().properties[0].key, "tag");
    assert_eq!(base.get(1, 3).unwrap().properties[0].value, "\"new\"");
}

#[test]
fn merge_leaves_the_metadata_alone() {
    let mut base = dataset(&[(1, 1, 51.0, 13.0)]);
    base.set_region_metadata(
        1,
        RegionMetadata {
            name: Some(String::from("Dresden")),
            frequency: Some(170_795_000),
            r09_type: Some(R09Type::R16),
            lat: Some(fixed(51.05)),
            lon: Some(fixed(13.74)),
        },
    );
    let incoming = dataset(&[(2, 1, 52.0, 13.0)]);
    base.merge(&incoming, distance);
    assert_eq!(base.meta.len(), 1);
    assert_eq!(base.meta.get(&1).unwrap().name.as_deref(), Some("Dresden"));
    assert_eq!(base.meta.get(&1).unwrap().r09_type, Some(R09Type::R16));
    assert_eq!(base.document.generator.as_deref(), Some("merge-tests"));
    assert_eq!(base.document.date, Timestamp::from_seconds(1_700_000_000));
    assert_eq!(base.regions_without_metadata(), vec![2]);
}

#[test]
fn regions_without_metadata_lists_each_once() {
    let mut set = dataset(&[(1, 1, 1.0, 1.0), (2, 1, 1.0, 1.0), (3, 1, 1.0, 1.0)]);
    set.set_region_metadata(
        2,
        RegionMetadata { name: None, frequency: None, r09_type: None, lat: None, lon: None },
    );
    set.set_region_metadata(
        7,
        RegionMetadata { name: None, frequency: None, r09_type: None, lat: None, lon: None },
    );
    let mut missing = set.regions_without_metadata();
    missing.sort();
    assert_eq!(missing, vec![1, 3]);
}

#[test]
fn get_finds_only_what_is_there() {
    let set = dataset(&[(1, 1, 1.5, 2.5)]);
    assert_eq!(position(&set, 1, 1), (15_000_000, 25_000_000));
    assert!(set.get(1, 2).is_none());
    assert!(set.get(2, 1).is_none());
}

#[test]
fn refined_rejects_beyond_the_sanity_distance() {
    let stored = ReportingPointLocation::new(fixed(51.05), fixed(13.74));
    let arriving = ReportingPointLocation::new(fixed(51.06), fixed(13.76));
    assert!(stored.refined(&arriving, 51).is_none());
    assert!(stored.refined(&arriving, u64::MAX).is_none());
    let mean = stored.refined(&arriving, 50).unwrap();
    assert_eq!(mean.lat.units(), 510_550_000);
    assert_eq!(mean.lon.units(), 137_500_000);
    let mean = stored.refined(&arriving, 0).unwrap();
    assert_eq!(mean.lat.units(), 510_550_000);
}

#[test]
fn refined_rounds_the_mean_down() {
    let stored = ReportingPointLocation::new(Fixed::from_units(-3), Fixed::from_units(3));
    let arriving = ReportingPointLocation::new(Fixed::from_units(0), Fixed::from_units(0));
    let mean = stored.refined(&arriving, 0).unwrap();
    assert_eq!(mean.lat.units(), -2);
    assert_eq!(mean.lon.units(), 1);
}

#[test]
fn duplicate_copies_everything() {
    let mut first = ReportingPointLocation::new(fixed(1.0), fixed(2.0));
    first.set_property(String::from("a"), String::from("1"));
    first.set_property(String::from("b"), String::from("2"));
    let copy = first.duplicate();
    assert_eq!(copy.lat, first.lat);
    assert_eq!(copy.lon, first.lon);
    assert_eq!(copy.properties.len(), 2);
    assert_eq!(copy.properties[1].key, "b");
    assert_eq!(copy.properties[1].value, "2");
    let single = copy.properties[0].duplicate();
    assert_eq!(single.key, "a");
    assert_eq!(single.value, "1");
}

#[test]
fn set_property_replaces_the_first_of_that_name_or_appends() {
    let mut point = ReportingPointLocation::new(fixed(1.0), fixed(2.0));
    point.set_property(String::from("epsg3857"), String::from("{\"x\":1,\"y\":2}"));
    point.set_property(String::from("note"), String::from("\"a\""));
    point.properties.push(Property { key: String::from("note"), value: String::from("\"b\"") });
    point.set_property(String::from("note"), String::from("\"c\""));
    let seen: Vec<(&str, &str)> =
        point.properties.iter().map(|p| (p.key.as_str(), p.value.as_str())).collect();
    assert_eq!(
        seen,
        vec![("epsg3857", "{\"x\":1,\"y\":2}"), ("note", "\"c\""), ("note", "\"b\"")]
    );
    assert_eq!(point.lat, fixed(1.0));
    assert_eq!(point.lon, fixed(2.0));
}

#[test]
fn schema_version_is_checked() {
    let mut meta = document();
    assert_eq!(SCHEMA, "2");
    assert!(meta.has_known_schema());
    meta.schema_version = String::from("3");
    assert!(!meta.has_known_schema());
    meta.schema_version = String::from("");
    assert!(!meta.has_known_schema());
}
