//! Regions, and the cache that keeps what the catalogue knows of them.

use crate::telegrams::r09::R09Type;
use crate::time::Timestamp;
use std::collections::HashMap;
use vstd::prelude::*;
use vstd::string::StringExecFns;

verus! {

/// How long a cache of region metadata stays fresh, in seconds (24 hours).
pub const REGION_CACHE_EXPIRATION: i64 = 24 * 60 * 60;

/// Name of the file that holds the cache.
pub const REGION_CACHE_FILE: &'static str = "region_cache.json";

/// Path under which the catalogue serves the regions.
pub const REGION_API_ENDPOINT: &'static str = "/region";

/// A region: a city or a transit network.
#[derive(Debug, Clone)]
pub struct Region {
    /// Identifier of the region, an arbitrary number.
    pub id: i64,
    /// Name of the region or city.
    pub name: String,
    /// Name of the operator in the city.
    pub transport_company: String,
    /// Name of the regional association that the operator belongs to.
    pub regional_company: Option<String>,
    /// Frequency on which the operator sends its telegrams.
    pub frequency: Option<i64>,
    /// The telegram standard in use.
    pub r09_type: Option<R09Type>,
    /// Number of the encoding in use.
    pub encoding: Option<i32>,
    /// Whether the region is deleted.
    pub deactivated: bool,
}

/// A [`Region`] that is to be stored.
#[derive(Debug, Clone)]
pub struct InsertRegion {
    /// Identifier of the region; `None` lets the database assign one.
    pub id: Option<i64>,
    /// Name of the region or city.
    pub name: String,
    /// Name of the operator in the city.
    pub transport_company: String,
    /// Name of the regional association that the operator belongs to.
    pub regional_company: Option<String>,
    /// Frequency on which the operator sends its telegrams.
    pub frequency: Option<i64>,
    /// The telegram standard in use.
    pub r09_type: Option<R09Type>,
    /// Number of the encoding in use.
    pub encoding: Option<i32>,
    /// Whether the region is deleted.
    pub deactivated: bool,
}

/// What the catalogue knew of the regions at one time.
#[derive(Debug)]
pub struct RegionCache {
    /// Region identifier to the region.
    pub metadata: HashMap<i64, Region>,
    /// When the cache was last refreshed.
    pub modified: Timestamp,
}

/// What to do once the local cache has been looked for.
#[derive(Debug)]
pub enum CacheLookup {
    /// The local cache is fresh: use it.
    Fresh(RegionCache),
    /// There is no fresh local cache: ask the catalogue, and fall back on
    /// the stale cache, if there is one, should the catalogue fail.
    Refresh(Option<RegionCache>),
}

/// The nanoseconds that have passed from `then` to `now`.
pub open spec fn nanos_between(then: Timestamp, now: Timestamp) -> int {
    (now.seconds - then.seconds) * 1_000_000_000 + (now.nanos - then.nanos)
}

/// Whether a cache that was refreshed at `modified` is still fresh at `now`.
pub open spec fn fresh_at(modified: Timestamp, now: Timestamp) -> bool {
    nanos_between(modified, now) < REGION_CACHE_EXPIRATION * 1_000_000_000
}

impl RegionCache {
    /// The address at which the catalogue at `datacare_api` serves the
    /// regions.
    pub fn endpoint(datacare_api: &str) -> (url: String)
        ensures
            url@ == datacare_api@ + REGION_API_ENDPOINT@,
    {
        datacare_api.to_owned().concat(REGION_API_ENDPOINT)
    }

    /// The cache that holds what the catalogue answered at `now`.
    pub fn stamped(metadata: HashMap<i64, Region>, now: Timestamp) -> (cache: RegionCache)
        ensures
            cache.metadata == metadata,
            cache.modified == now,
    {
        RegionCache { metadata, modified: now }
    }

    /// Whether less than [`REGION_CACHE_EXPIRATION`] has passed at `now`
    /// since the cache was refreshed.
    pub fn is_fresh(&self, now: Timestamp) -> (fresh: bool)
        ensures
            fresh == fresh_at(self.modified, now),
    {
        let seconds: i128 = now.seconds as i128 - self.modified.seconds as i128;
        let nanos: i128 = now.nanos as i128 - self.modified.nanos as i128;
        let limit: i128 = REGION_CACHE_EXPIRATION as i128 * 1_000_000_000;
        seconds * 1_000_000_000 + nanos < limit
    }

    /// Decides what to do with the local cache as it was read at `now`:
    /// `read` is `None` where there was none, or none that could be read.
    pub fn after_read(read: Option<RegionCache>, now: Timestamp) -> (r: CacheLookup)
        ensures
            match read {
                Some(cache) => if fresh_at(cache.modified, now) {
                    r == CacheLookup::Fresh(cache)
                } else {
                    r == CacheLookup::Refresh(Some(cache))
                },
                None => r == CacheLookup::Refresh(None),
            },
    {
        match read {
            Some(cache) => {
                if cache.is_fresh(now) {
                    CacheLookup::Fresh(cache)
                } else {
                    CacheLookup::Refresh(Some(cache))
                }
            },
            None => CacheLookup::Refresh(None),
        }
    }

    /// Decides which cache to go on with once the catalogue has been asked:
    /// what it answered, else the stale cache, else its error.
    pub fn after_refresh<E>(stale: Option<RegionCache>, fetched: Result<RegionCache, E>) -> (r:
        Result<RegionCache, E>)
        ensures
            match fetched {
                Ok(cache) => r == Ok::<RegionCache, E>(cache),
                Err(e) => match stale {
                    Some(cache) => r == Ok::<RegionCache, E>(cache),
                    None => r == Err::<RegionCache, E>(e),
                },
            },
    {
        match fetched {
            Ok(cache) => Ok(cache),
            Err(e) => match stale {
                Some(cache) => Ok(cache),
                None => Err(e),
            },
        }
    }
}

} // verus!
