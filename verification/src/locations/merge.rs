//! The merge that reconciles an incoming version of the location dataset
//! into a stored one.

use super::dataset::{
    has_point, keys_of, lemma_take_one_more, point_at, reconciled, too_far, LocationDataset,
    ReportingPointLocation, SANE_INTERPOLATION_DISTANCE,
};
use std::collections::HashMap;
use vstd::prelude::*;
use vstd::relations::injective_on;
use vstd::set_lib::{lemma_map_size, lemma_set_disjoint_lens};

verus! {

broadcast use vstd::std_specs::hash::group_hash_axioms;

/// Counts of what one merge did to the points it met.
#[derive(Clone, Copy, Debug, PartialEq, Eq, Structural)]
pub struct MergeStatistics {
    /// Points that were unknown and have been inserted.
    pub created: u128,
    /// Points whose stored position was averaged with the incoming one.
    pub refined: u128,
    /// Points whose incoming position lay too far off and was dropped.
    pub skipped: u128,
}

/// The points of `incoming` that `mine` does not know.
spec fn fresh_points(
    mine: Map<i32, ReportingPointLocation>,
    incoming: Map<i32, ReportingPointLocation>,
) -> Set<i32> {
    Set::new(|p: i32| incoming.contains_key(p) && !mine.contains_key(p))
}

/// The points that both maps know and that lie `far` (or not `far`) apart.
spec fn contested_points(
    mine: Map<i32, ReportingPointLocation>,
    incoming: Map<i32, ReportingPointLocation>,
    distances: Map<i32, u64>,
    far: bool,
) -> Set<i32> {
    Set::new(
        |p: i32|
            incoming.contains_key(p) && mine.contains_key(p) && too_far(distances[p]) == far,
    )
}

/// What [`merge_region`] leaves in `after`, given the stored points `before`,
/// the `incoming` ones and the distances that were measured between them.
spec fn region_merged<F: Fn(&ReportingPointLocation, &ReportingPointLocation) -> u64>(
    before: Map<i32, ReportingPointLocation>,
    incoming: Map<i32, ReportingPointLocation>,
    after: Map<i32, ReportingPointLocation>,
    distance: F,
    distances: Map<i32, u64>,
) -> bool {
    &&& forall|p: i32|
        after.contains_key(p) <==> before.contains_key(p) || incoming.contains_key(p)
    &&& forall|p: i32|
        before.contains_key(p) && !incoming.contains_key(p) ==> after[p] == before[p]
    &&& forall|p: i32|
        incoming.contains_key(p) && !before.contains_key(p) ==> (#[trigger] after[p])@
            == incoming[p]@
    &&& forall|p: i32|
        incoming.contains_key(p) && before.contains_key(p) ==> {
            &&& call_ensures(distance, (&before[p], &incoming[p]), #[trigger] distances[p])
            &&& after[p]@ == reconciled(before[p]@, incoming[p]@, distances[p])
            &&& too_far(distances[p]) ==> after[p] == before[p]
        }
}

/// Merges the points of one region: see [`LocationDataset::merge`].
fn merge_region<F: Fn(&ReportingPointLocation, &ReportingPointLocation) -> u64>(
    mine: &mut HashMap<i32, ReportingPointLocation>,
    incoming: &HashMap<i32, ReportingPointLocation>,
    distance: &F,
) -> (r: (MergeStatistics, Ghost<Map<i32, u64>>))
    requires
        forall|a: &ReportingPointLocation, b: &ReportingPointLocation|
            call_requires(*distance, (a, b)),
    ensures
        region_merged(old(mine)@, incoming@, final(mine)@, *distance, r.1@),
        r.0.created == fresh_points(old(mine)@, incoming@).len(),
        r.0.skipped == contested_points(old(mine)@, incoming@, r.1@, true).len(),
        r.0.refined == contested_points(old(mine)@, incoming@, r.1@, false).len(),
        fresh_points(old(mine)@, incoming@).finite(),
        contested_points(old(mine)@, incoming@, r.1@, true).finite(),
        contested_points(old(mine)@, incoming@, r.1@, false).finite(),
        r.0.created + r.0.skipped + r.0.refined <= usize::MAX,
{
    let ghost before = mine@;
    let ghost mut distances: Map<i32, u64> = Map::empty();
    let mut stats = MergeStatistics { created: 0, refined: 0, skipped: 0 };
    let pids = keys_of(incoming);
    let mut j: usize = 0;
    proof {
        let none = incoming@.restrict(pids@.take(0).to_set());
        assert(none =~= Map::empty());
        assert(fresh_points(before, none) =~= Set::empty());
        assert(contested_points(before, none, distances, true) =~= Set::empty());
        assert(contested_points(before, none, distances, false) =~= Set::empty());
    }
    while j < pids.len()
        invariant
            j <= pids.len(),
            pids@.no_duplicates(),
            forall|p: i32| pids@.contains(p) <==> incoming@.contains_key(p),
            forall|a: &ReportingPointLocation, b: &ReportingPointLocation|
                call_requires(*distance, (a, b)),
            region_merged(
                before,
                incoming@.restrict(pids@.take(j as int).to_set()),
                mine@,
                *distance,
                distances,
            ),
            stats.created == fresh_points(
                before,
                incoming@.restrict(pids@.take(j as int).to_set()),
            ).len(),
            stats.skipped == contested_points(
                before,
                incoming@.restrict(pids@.take(j as int).to_set()),
                distances,
                true,
            ).len(),
            stats.refined == contested_points(
                before,
                incoming@.restrict(pids@.take(j as int).to_set()),
                distances,
                false,
            ).len(),
            fresh_points(before, incoming@.restrict(pids@.take(j as int).to_set())).finite(),
            contested_points(
                before,
                incoming@.restrict(pids@.take(j as int).to_set()),
                distances,
                true,
            ).finite(),
            contested_points(
                before,
                incoming@.restrict(pids@.take(j as int).to_set()),
                distances,
                false,
            ).finite(),
            stats.created + stats.skipped + stats.refined == j,
        decreases pids.len() - j,
    {
        let p = pids[j];
        let ghost seen = incoming@.restrict(pids@.take(j as int).to_set());
        let ghost next = incoming@.restrict(pids@.take(j + 1).to_set());
        let ghost prior = distances;
        proof {
            assert(pids@.contains(p));
            lemma_take_one_more(pids@, j as int);
            assert(!seen.contains_key(p));
            assert(next =~= seen.insert(p, incoming@[p]));
        }
        let arriving = incoming.get(&p).unwrap();
        let verdict = match mine.get(&p) {
            None => None,
            Some(existing) => {
                let d = distance(existing, arriving);
                Some((d, existing.refined(arriving, d)))
            },
        };
        match verdict {
            None => {
                mine.insert(p, arriving.duplicate());
                stats.created = stats.created + 1;
                proof {
                    assert(fresh_points(before, next) =~= fresh_points(before, seen).insert(p));
                    assert(contested_points(before, next, distances, true)
                        =~= contested_points(before, seen, prior, true));
                    assert(contested_points(before, next, distances, false)
                        =~= contested_points(before, seen, prior, false));
                }
            },
            Some((d, None)) => {
                stats.skipped = stats.skipped + 1;
                proof {
                    distances = distances.insert(p, d);
                    assert(fresh_points(before, next) =~= fresh_points(before, seen));
                    assert(contested_points(before, next, distances, true)
                        =~= contested_points(before, seen, prior, true).insert(p));
                    assert(contested_points(before, next, distances, false)
                        =~= contested_points(before, seen, prior, false));
                }
            },
            Some((d, Some(mean))) => {
                mine.insert(p, mean);
                stats.refined = stats.refined + 1;
                proof {
                    distances = distances.insert(p, d);
                    assert(fresh_points(before, next) =~= fresh_points(before, seen));
                    assert(contested_points(before, next, distances, true)
                        =~= contested_points(before, seen, prior, true));
                    assert(contested_points(before, next, distances, false)
                        =~= contested_points(before, seen, prior, false).insert(p));
                }
            },
        }
        j += 1;
    }
    proof {
        assert(pids@.take(pids@.len() as int) =~= pids@);
        assert(incoming@.restrict(pids@.to_set()) =~= incoming@);
    }
    (stats, Ghost(distances))
}

/// The points that `data` knows, as (region, point).
pub open spec fn point_keys(data: Map<i64, HashMap<i32, ReportingPointLocation>>) -> Set<
    (i64, i32),
> {
    Set::new(|k: (i64, i32)| has_point(data, k.0, k.1))
}

/// The points of `incoming`, as (region, point), that `before` does not know.
pub open spec fn created_keys(
    before: Map<i64, HashMap<i32, ReportingPointLocation>>,
    incoming: Map<i64, HashMap<i32, ReportingPointLocation>>,
) -> Set<(i64, i32)> {
    Set::new(|k: (i64, i32)| has_point(incoming, k.0, k.1) && !has_point(before, k.0, k.1))
}

/// The points, as (region, point), that both datasets know and that lie
/// `far` (or not `far`) apart by `distances`.
pub open spec fn contested_keys(
    before: Map<i64, HashMap<i32, ReportingPointLocation>>,
    incoming: Map<i64, HashMap<i32, ReportingPointLocation>>,
    distances: Map<(i64, i32), u64>,
    far: bool,
) -> Set<(i64, i32)> {
    Set::new(
        |k: (i64, i32)|
            has_point(incoming, k.0, k.1) && has_point(before, k.0, k.1) && too_far(distances[k])
                == far,
    )
}

/// What a merge of `incoming` into `before` leaves in `after`, where
/// `distances` holds what `distance` returned for each point that both knew:
///
/// - every region and every point of either dataset is there, and no other;
/// - a point that only `before` knew is untouched;
/// - a point that only `incoming` knew is stored as it came;
/// - a point that both knew is untouched if the two positions lie too far
///   apart, and is their midpoint, without properties, if not.
pub open spec fn merged<F: Fn(&ReportingPointLocation, &ReportingPointLocation) -> u64>(
    before: Map<i64, HashMap<i32, ReportingPointLocation>>,
    incoming: Map<i64, HashMap<i32, ReportingPointLocation>>,
    after: Map<i64, HashMap<i32, ReportingPointLocation>>,
    distance: F,
    distances: Map<(i64, i32), u64>,
) -> bool {
    &&& forall|r: i64|
        #[trigger] after.contains_key(r) <==> before.contains_key(r) || incoming.contains_key(r)
    &&& forall|r: i64, p: i32|
        #[trigger] has_point(after, r, p) <==> has_point(before, r, p) || has_point(
            incoming,
            r,
            p,
        )
    &&& forall|r: i64, p: i32|
        has_point(before, r, p) && !has_point(incoming, r, p) ==> #[trigger] point_at(
            after,
            r,
            p,
        ) == point_at(before, r, p)
    &&& forall|r: i64, p: i32|
        has_point(incoming, r, p) && !has_point(before, r, p) ==> (#[trigger] point_at(
            after,
            r,
            p,
        ))@ == point_at(incoming, r, p)@
    &&& forall|r: i64, p: i32|
        has_point(incoming, r, p) && has_point(before, r, p) ==> {
            &&& call_ensures(
                distance,
                (&point_at(before, r, p), &point_at(incoming, r, p)),
                distances[(r, p)],
            )
            &&& (#[trigger] point_at(after, r, p))@ == reconciled(
                point_at(before, r, p)@,
                point_at(incoming, r, p)@,
                distances[(r, p)],
            )
            &&& too_far(distances[(r, p)]) ==> point_at(after, r, p) == point_at(before, r, p)
        }
}

/// Whether `incoming` holds one point and no other: `point` of `region`.
pub open spec fn holds_only(
    incoming: Map<i64, HashMap<i32, ReportingPointLocation>>,
    region: i64,
    point: i32,
) -> bool {
    forall|r: i64, p: i32| has_point(incoming, r, p) <==> r == region && p == point
}

/// A point that the dataset does not know is created: merging a dataset
/// that holds that point alone counts one created point and nothing else,
/// and stores the point as it came.
pub proof fn lemma_merge_creates_unknown_point<
    F: Fn(&ReportingPointLocation, &ReportingPointLocation) -> u64,
>(
    before: Map<i64, HashMap<i32, ReportingPointLocation>>,
    incoming: Map<i64, HashMap<i32, ReportingPointLocation>>,
    after: Map<i64, HashMap<i32, ReportingPointLocation>>,
    distance: F,
    distances: Map<(i64, i32), u64>,
    region: i64,
    point: i32,
)
    requires
        merged(before, incoming, after, distance, distances),
        holds_only(incoming, region, point),
        !has_point(before, region, point),
    ensures
        created_keys(before, incoming).len() == 1,
        contested_keys(before, incoming, distances, true).len() == 0,
        contested_keys(before, incoming, distances, false).len() == 0,
        has_point(after, region, point),
        point_at(after, region, point)@ == point_at(incoming, region, point)@,
{
    assert(has_point(incoming, region, point));
    assert(created_keys(before, incoming) =~= set![(region, point)]);
    assert(contested_keys(before, incoming, distances, true) =~= Set::empty());
    assert(contested_keys(before, incoming, distances, false) =~= Set::empty());
}

/// A known point whose incoming position lies beyond the sanity distance is
/// skipped: merging a dataset that holds that point alone counts one
/// skipped point and nothing else, and leaves the stored location as it was.
pub proof fn lemma_merge_skips_distant_point<
    F: Fn(&ReportingPointLocation, &ReportingPointLocation) -> u64,
>(
    before: Map<i64, HashMap<i32, ReportingPointLocation>>,
    incoming: Map<i64, HashMap<i32, ReportingPointLocation>>,
    after: Map<i64, HashMap<i32, ReportingPointLocation>>,
    distance: F,
    distances: Map<(i64, i32), u64>,
    region: i64,
    point: i32,
)
    requires
        merged(before, incoming, after, distance, distances),
        holds_only(incoming, region, point),
        has_point(before, region, point),
        distances[(region, point)] > SANE_INTERPOLATION_DISTANCE,
    ensures
        created_keys(before, incoming).len() == 0,
        contested_keys(before, incoming, distances, true).len() == 1,
        contested_keys(before, incoming, distances, false).len() == 0,
        has_point(after, region, point),
        point_at(after, region, point) == point_at(before, region, point),
{
    assert(has_point(incoming, region, point));
    assert(created_keys(before, incoming) =~= Set::empty());
    assert(contested_keys(before, incoming, distances, true) =~= set![(region, point)]);
    assert(contested_keys(before, incoming, distances, false) =~= Set::empty());
}

/// A known point whose incoming position lies within the sanity distance is
/// refined: merging a dataset that holds that point alone counts one
/// refined point and nothing else, and stores the mean of the two
/// positions, per axis and rounded down to the grid, without properties.
pub proof fn lemma_merge_refines_close_point<
    F: Fn(&ReportingPointLocation, &ReportingPointLocation) -> u64,
>(
    before: Map<i64, HashMap<i32, ReportingPointLocation>>,
    incoming: Map<i64, HashMap<i32, ReportingPointLocation>>,
    after: Map<i64, HashMap<i32, ReportingPointLocation>>,
    distance: F,
    distances: Map<(i64, i32), u64>,
    region: i64,
    point: i32,
)
    requires
        merged(before, incoming, after, distance, distances),
        holds_only(incoming, region, point),
        has_point(before, region, point),
        distances[(region, point)] <= SANE_INTERPOLATION_DISTANCE,
    ensures
        created_keys(before, incoming).len() == 0,
        contested_keys(before, incoming, distances, true).len() == 0,
        contested_keys(before, incoming, distances, false).len() == 1,
        has_point(after, region, point),
        point_at(after, region, point)@.lat.steps() == (point_at(before, region, point).lat.steps()
            + point_at(incoming, region, point).lat.steps()) / 2,
        point_at(after, region, point)@.lon.steps() == (point_at(before, region, point).lon.steps()
            + point_at(incoming, region, point).lon.steps()) / 2,
        point_at(after, region, point)@.properties.len() == 0,
{
    assert(has_point(incoming, region, point));
    assert(created_keys(before, incoming) =~= Set::empty());
    assert(contested_keys(before, incoming, distances, true) =~= Set::empty());
    assert(contested_keys(before, incoming, distances, false) =~= set![(region, point)]);
}

/// The pairs of one region with each point of a set.
spec fn keys_of_region(region: i64, points: Set<i32>) -> Set<(i64, i32)> {
    Set::new(|k: (i64, i32)| k.0 == region && points.contains(k.1))
}

/// A region has as many keys as it has points.
proof fn lemma_keys_of_region_len(region: i64, points: Set<i32>)
    requires
        points.finite(),
    ensures
        keys_of_region(region, points).finite(),
        keys_of_region(region, points).len() == points.len(),
{
    let f = |p: i32| (region, p);
    assert(injective_on(f, points));
    assert(points.map(f) =~= keys_of_region(region, points)) by {
        assert forall|k: (i64, i32)| keys_of_region(region, points).contains(k) implies points.map(
            f,
        ).contains(k) by {
            assert(points.contains(k.1) && f(k.1) == k);
        }
    }
    lemma_map_size(points, keys_of_region(region, points), f);
}

impl LocationDataset {
    /// Reconciles `incoming` into this dataset and counts what happened.
    ///
    /// `distance` measures the great-circle distance between a stored and an
    /// incoming position, in metres, rounded up. Every region of `incoming`
    /// gets a point map here, an empty one if need be. A point that is new
    /// is stored as it comes and counted as created. A point that is known
    /// is left alone and counted as skipped where the two positions lie more
    /// than [`SANE_INTERPOLATION_DISTANCE`] apart; else it becomes the mean
    /// of the two positions, per axis, loses its properties, and is counted
    /// as refined. Every point of `incoming` is counted once. The metadata
    /// of the document and of the regions stay.
    pub fn merge<F: Fn(&ReportingPointLocation, &ReportingPointLocation) -> u64>(
        &mut self,
        incoming: &LocationDataset,
        distance: F,
    ) -> (stats: MergeStatistics)
        requires
            forall|a: &ReportingPointLocation, b: &ReportingPointLocation|
                call_requires(distance, (a, b)),
        ensures
            final(self).document == old(self).document,
            final(self).meta == old(self).meta,
            stats.created == created_keys(old(self).data@, incoming.data@).len(),
            stats.created + stats.refined + stats.skipped == point_keys(incoming.data@).len(),
            exists|distances: Map<(i64, i32), u64>|
                {
                    &&& merged(
                        old(self).data@,
                        incoming.data@,
                        final(self).data@,
                        distance,
                        distances,
                    )
                    &&& stats.skipped == (#[trigger] contested_keys(
                        old(self).data@,
                        incoming.data@,
                        distances,
                        true,
                    )).len()
                    &&& stats.refined == contested_keys(
                        old(self).data@,
                        incoming.data@,
                        distances,
                        false,
                    ).len()
                },
    {
        let ghost before = self.data@;
        let ghost mut distances: Map<(i64, i32), u64> = Map::empty();
        let mut stats = MergeStatistics { created: 0, refined: 0, skipped: 0 };
        let regions = keys_of(&incoming.data);
        let mut i: usize = 0;
        proof {
            let none = incoming.data@.restrict(regions@.take(0).to_set());
            assert(none =~= Map::empty());
            assert(created_keys(before, none) =~= Set::empty());
            assert(contested_keys(before, none, distances, true) =~= Set::empty());
            assert(contested_keys(before, none, distances, false) =~= Set::empty());
        }
        while i < regions.len()
            invariant
                i <= regions.len(),
                regions@.no_duplicates(),
                forall|r: i64| regions@.contains(r) <==> incoming.data@.contains_key(r),
                forall|a: &ReportingPointLocation, b: &ReportingPointLocation|
                    call_requires(distance, (a, b)),
                self.document == old(self).document,
                self.meta == old(self).meta,
                before == old(self).data@,
                merged(
                    before,
                    incoming.data@.restrict(regions@.take(i as int).to_set()),
                    self.data@,
                    distance,
                    distances,
                ),
                stats.created == created_keys(
                    before,
                    incoming.data@.restrict(regions@.take(i as int).to_set()),
                ).len(),
                stats.skipped == contested_keys(
                    before,
                    incoming.data@.restrict(regions@.take(i as int).to_set()),
                    distances,
                    true,
                ).len(),
                stats.refined == contested_keys(
                    before,
                    incoming.data@.restrict(regions@.take(i as int).to_set()),
                    distances,
                    false,
                ).len(),
                created_keys(
                    before,
                    incoming.data@.restrict(regions@.take(i as int).to_set()),
                ).finite(),
                contested_keys(
                    before,
                    incoming.data@.restrict(regions@.take(i as int).to_set()),
                    distances,
                    true,
                ).finite(),
                contested_keys(
                    before,
                    incoming.data@.restrict(regions@.take(i as int).to_set()),
                    distances,
                    false,
                ).finite(),
                stats.created + stats.skipped + stats.refined <= i * 0xffff_ffff_ffff_ffff,
            decreases regions.len() - i,
        {
            let region = regions[i];
            let ghost seen = incoming.data@.restrict(regions@.take(i as int).to_set());
            let ghost next = incoming.data@.restrict(regions@.take(i + 1).to_set());
            let ghost prior = distances;
            let ghost held = self.data@;
            proof {
                assert(regions@.contains(region));
                lemma_take_one_more(regions@, i as int);
                assert(!seen.contains_key(region));
                assert(next =~= seen.insert(region, incoming.data@[region]));
            }
            let arriving = incoming.data.get(&region).unwrap();
            let mut mine = match self.data.remove(&region) {
                Some(points) => points,
                None => HashMap::new(),
            };
            let ghost mine_before = mine@;
            let (counts, Ghost(measured)) = merge_region(&mut mine, arriving, &distance);
            let ghost mine_after = mine@;
            self.data.insert(region, mine);
            stats.created = stats.created + counts.created;
            stats.skipped = stats.skipped + counts.skipped;
            stats.refined = stats.refined + counts.refined;
            proof {
                distances =
                Map::new(
                    |k: (i64, i32)| true,
                    |k: (i64, i32)|
                        if k.0 == region {
                            measured[k.1]
                        } else {
                            prior[k]
                        },
                );
                let fresh = fresh_points(mine_before, arriving@);
                let far = contested_points(mine_before, arriving@, measured, true);
                let near = contested_points(mine_before, arriving@, measured, false);
                lemma_keys_of_region_len(region, fresh);
                lemma_keys_of_region_len(region, far);
                lemma_keys_of_region_len(region, near);
                assert forall|p: i32| mine_before.contains_key(p) <==> has_point(
                    before,
                    region,
                    p,
                ) by {
                    assert(has_point(held, region, p) <==> has_point(before, region, p));
                }
                assert forall|p: i32| mine_before.contains_key(p) implies mine_before[p]
                    == point_at(before, region, p) by {
                    assert(has_point(before, region, p) && !has_point(seen, region, p));
                    assert(point_at(held, region, p) == point_at(before, region, p));
                }
                let after = self.data@;
                assert(after =~= held.insert(region, mine));
                assert forall|r: i64, p: i32| r != region implies has_point(after, r, p)
                    == has_point(held, r, p) && point_at(after, r, p) == point_at(held, r, p)
                    && has_point(next, r, p) == has_point(seen, r, p) && point_at(next, r, p)
                    == point_at(seen, r, p) && distances[(r, p)] == prior[(r, p)] by {}
                assert forall|p: i32|
                    has_point(after, region, p) == mine_after.contains_key(p) && point_at(
                        after,
                        region,
                        p,
                    ) == mine_after[p] && has_point(next, region, p) == arriving@.contains_key(p)
                        && point_at(next, region, p) == arriving@[p] && distances[(region, p)]
                        == measured[p] by {}
                assert forall|r: i64, p: i32|
                    has_point(next, r, p) && has_point(before, r, p) implies {
                    &&& call_ensures(
                        distance,
                        (&point_at(before, r, p), &point_at(next, r, p)),
                        #[trigger] distances[(r, p)],
                    )
                    &&& point_at(after, r, p)@ == reconciled(
                        point_at(before, r, p)@,
                        point_at(next, r, p)@,
                        distances[(r, p)],
                    )
                    &&& too_far(distances[(r, p)]) ==> point_at(after, r, p) == point_at(
                        before,
                        r,
                        p,
                    )
                } by {
                    if r == region {
                        assert(mine_before.contains_key(p) && arriving@.contains_key(p));
                        assert(call_ensures(distance, (&mine_before[p], &arriving@[p]), measured[p]));
                    } else {
                        assert(has_point(seen, r, p));
                        assert(call_ensures(
                            distance,
                            (&point_at(before, r, p), &point_at(seen, r, p)),
                            prior[(r, p)],
                        ));
                    }
                }
                assert forall|r: i64, p: i32|
                    has_point(next, r, p) && !has_point(before, r, p) implies (#[trigger] point_at(
                    after,
                    r,
                    p,
                ))@ == point_at(next, r, p)@ by {
                    if r == region {
                        assert(!mine_before.contains_key(p) && arriving@.contains_key(p));
                        assert(mine_after[p]@ == arriving@[p]@);
                    } else {
                        assert(has_point(seen, r, p));
                        assert(point_at(held, r, p)@ == point_at(seen, r, p)@);
                    }
                }
                assert forall|r: i64, p: i32|
                    has_point(before, r, p) && !has_point(next, r, p) implies point_at(after, r, p)
                    == point_at(before, r, p) by {
                    if r == region {
                        assert(mine_before.contains_key(p) && !arriving@.contains_key(p));
                    } else {
                        assert(!has_point(seen, r, p));
                    }
                }
                assert forall|r: i64, p: i32|
                    has_point(after, r, p) <==> has_point(before, r, p) || has_point(
                        next,
                        r,
                        p,
                    ) by {
                    if r == region {
                        assert(mine_after.contains_key(p) <==> mine_before.contains_key(p)
                            || arriving@.contains_key(p));
                    } else {
                        assert(has_point(held, r, p) <==> has_point(before, r, p) || has_point(
                            seen,
                            r,
                            p,
                        ));
                    }
                }
                assert(created_keys(before, next) =~= created_keys(before, seen) + keys_of_region(
                    region,
                    fresh,
                ));
                assert(contested_keys(before, next, distances, true) =~= contested_keys(
                    before,
                    seen,
                    prior,
                    true,
                ) + keys_of_region(region, far));
                assert(contested_keys(before, next, distances, false) =~= contested_keys(
                    before,
                    seen,
                    prior,
                    false,
                ) + keys_of_region(region, near));
                assert(created_keys(before, seen).disjoint(keys_of_region(region, fresh)));
                assert(contested_keys(before, seen, prior, true).disjoint(
                    keys_of_region(region, far),
                ));
                assert(contested_keys(before, seen, prior, false).disjoint(
                    keys_of_region(region, near),
                ));
                lemma_set_disjoint_lens(created_keys(before, seen), keys_of_region(region, fresh));
                lemma_set_disjoint_lens(
                    contested_keys(before, seen, prior, true),
                    keys_of_region(region, far),
                );
                lemma_set_disjoint_lens(
                    contested_keys(before, seen, prior, false),
                    keys_of_region(region, near),
                );
            }
            i += 1;
        }
        proof {
            assert(regions@.take(regions@.len() as int) =~= regions@);
            assert(incoming.data@.restrict(regions@.to_set()) =~= incoming.data@);
            let created = created_keys(before, incoming.data@);
            let far = contested_keys(before, incoming.data@, distances, true);
            let near = contested_keys(before, incoming.data@, distances, false);
            assert(created.disjoint(far));
            assert((created + far).disjoint(near));
            assert(created + far + near =~= point_keys(incoming.data@));
            lemma_set_disjoint_lens(created, far);
            lemma_set_disjoint_lens(created + far, near);
        }
        stats
    }
}

} // verus!
