use std::collections::HashMap;
use tlms::locations::region::{
    CacheLookup, Region, RegionCache, REGION_API_ENDPOINT, REGION_CACHE_EXPIRATION,
    REGION_CACHE_FILE,
};
use tlms::telegrams::r09::R09Type;
use tlms::time::Timestamp;

fn region(id: i64) -> Region {
    Region {
        id,
        name: format!("region {id}"),
        transport_company: String::from("DVB"),
        regional_company: Some(String::from("VVO")),
        frequency: Some(170_795_000),
        r09_type: Some(R09Type::R16),
        encoding: Some(1),
        deactivated: false,
    }
}

fn cache(ids: &[i64], modified: Timestamp) -> RegionCache {
    let mut metadata = HashMap::new();
    for id in ids {
        metadata.insert(*id, region(*id));
    }
    RegionCache::stamped(metadata, modified)
}

fn at(seconds: i64, nanos: u32) -> Timestamp {
    Timestamp { seconds, nanos }
}

#[test]
fn constants_of_the_cache() {
    assert_eq!(REGION_CACHE_EXPIRATION, 86_400);
    assert_eq!(REGION_CACHE_FILE, "region_cache.json");
    assert_eq!(REGION_API_ENDPOINT, "/region");
}

#[test]
fn endpoint_is_appended_to_the_address() {
    assert_eq!(RegionCache::endpoint("https://datacare.example"), "https://datacare.example/region");
    assert_eq!(RegionCache::endpoint(""), "/region");
    assert_eq!(RegionCache::endpoint("http://host/"), "http://host//region");
}

#[test]
fn stamped_cache_holds_what_it_was_given() {
    let c = cache(&[1, 2], at(5, 6));
    assert_eq!(c.modified, at(5, 6));
    assert_eq!(c.metadata.len(), 2);
    assert_eq!(c.metadata.get(&2).unwrap().name, "region 2");
}

#[test]
fn a_cache_is_fresh_for_less_than_a_day() {
    let c = cache(&[1], at(1_000, 500));
    assert!(c.is_fresh(at(1_000, 500)));
    assert!(c.is_fresh(at(1_000 + 86_399, 999_999_999)));
    assert!(c.is_fresh(at(1_000 + 86_400, 499)));
    assert!(!c.is_fresh(at(1_000 + 86_400, 500)));
    assert!(!c.is_fresh(at(1_000 + 86_400, 501)));
    assert!(!c.is_fresh(at(i64::MAX, 0)));
    // A cache from the future is fresh.
    assert!(c.is_fresh(at(0, 0)));
    assert!(c.is_fresh(at(i64::MIN, 0)));
    let oldest = cache(&[1], at(i64::MIN, 0));
    assert!(!oldest.is_fresh(at(i64::MAX, 999_999_999)));
}

#[test]
fn a_fresh_cache_is_used() {
    match RegionCache::after_read(Some(cache(&[1], at(100, 0))), at(200, 0)) {
        CacheLookup::Fresh(c) => {
            assert_eq!(c.modified, at(100, 0));
            assert!(c.metadata.contains_key(&1));
        }
        other => panic!("{other:?}"),
    }
}

#[test]
fn a_stale_cache_is_kept_to_fall_back_on() {
    match RegionCache::after_read(Some(cache(&[1], at(100, 0))), at(100 + 86_400, 0)) {
        CacheLookup::Refresh(Some(c)) => {
            assert_eq!(c.modified, at(100, 0));
            assert!(c.metadata.contains_key(&1));
        }
        other => panic!("{other:?}"),
    }
}

#[test]
fn a_missing_cache_is_refreshed() {
    assert!(matches!(RegionCache::after_read(None, at(0, 0)), CacheLookup::Refresh(None)));
}

#[test]
fn what_the_catalogue_answers_is_used() {
    let fetched: Result<RegionCache, String> = Ok(cache(&[2], at(300, 0)));
    let chosen = RegionCache::after_refresh(Some(cache(&[1], at(100, 0))), fetched).unwrap();
    assert_eq!(chosen.modified, at(300, 0));
    assert!(chosen.metadata.contains_key(&2));
    let fetched: Result<RegionCache, String> = Ok(cache(&[3], at(400, 0)));
    let chosen = RegionCache::after_refresh(None, fetched).unwrap();
    assert_eq!(chosen.modified, at(400, 0));
}

#[test]
fn a_failing_catalogue_falls_back_on_the_stale_cache() {
    let fetched: Result<RegionCache, String> = Err(String::from("unreachable"));
    let chosen = RegionCache::after_refresh(Some(cache(&[1], at(100, 0))), fetched).unwrap();
    assert_eq!(chosen.modified, at(100, 0));
    assert!(chosen.metadata.contains_key(&1));
}

#[test]
fn a_failing_catalogue_without_a_cache_fails() {
    let fetched: Result<RegionCache, String> = Err(String::from("unreachable"));
    match RegionCache::after_refresh(None, fetched) {
        Err(e) => assert_eq!(e, "unreachable"),
        Ok(_) => panic!("there was nothing to fall back on"),
    }
}
