//! The reporting-point location dataset and the merge that reconciles two
//! versions of it.

use crate::fixed::Fixed;
use crate::telegrams::r09::R09Type;
use crate::text::str_eq;
use crate::time::Timestamp;
use std::collections::HashMap;
use vstd::prelude::*;
use vstd::std_specs::iter::IteratorSpec;

verus! {

broadcast use vstd::std_specs::hash::group_hash_axioms;

/// Largest distance, in metres, over which an incoming position may still
/// refine a stored one.
pub const SANE_INTERPOLATION_DISTANCE: u64 = 50;

/// One entry of the free-form property bag of a location.
#[derive(Debug)]
pub struct Property {
    /// Name of the property.
    pub key: String,
    /// Its value, as JSON text.
    pub value: String,
}

/// A named point within a region, where vehicles report their position.
#[derive(Debug)]
pub struct ReportingPointLocation {
    /// Latitude in degrees.
    pub lat: Fixed,
    /// Longitude in degrees.
    pub lon: Fixed,
    /// Auxiliary data, such as projected coordinates.
    pub properties: Vec<Property>,
}

/// What a [`ReportingPointLocation`] holds, as mathematical values.
pub struct LocationView {
    pub lat: Fixed,
    pub lon: Fixed,
    pub properties: Seq<(Seq<char>, Seq<char>)>,
}

impl View for Property {
    type V = (Seq<char>, Seq<char>);

    open spec fn view(&self) -> (Seq<char>, Seq<char>) {
        (self.key@, self.value@)
    }
}

impl View for ReportingPointLocation {
    type V = LocationView;

    open spec fn view(&self) -> LocationView {
        LocationView {
            lat: self.lat,
            lon: self.lon,
            properties: Seq::new(self.properties@.len(), |i: int| self.properties@[i]@),
        }
    }
}

/// Whether `distance` metres are too far for a refinement.
pub open spec fn too_far(distance: u64) -> bool {
    distance > SANE_INTERPOLATION_DISTANCE
}

/// The position halfway between two locations, axis by axis, with no
/// properties.
pub open spec fn midpoint(a: LocationView, b: LocationView) -> LocationView {
    LocationView {
        lat: Fixed { units: ((a.lat.steps() + b.lat.steps()) / 2) as i64 },
        lon: Fixed { units: ((a.lon.steps() + b.lon.steps()) / 2) as i64 },
        properties: Seq::empty(),
    }
}

/// What is stored for a point after `incoming` met `existing`, which lay
/// `distance` metres apart.
pub open spec fn reconciled(existing: LocationView, incoming: LocationView, distance: u64)
    -> LocationView {
    if too_far(distance) {
        existing
    } else {
        midpoint(existing, incoming)
    }
}

/// The index of the first property named `key`, or the number of
/// properties where none has that name.
pub open spec fn first_named(properties: Seq<(Seq<char>, Seq<char>)>, key: Seq<char>) -> int
    decreases properties.len(),
{
    if properties.len() == 0 || properties[0].0 == key {
        0
    } else {
        1 + first_named(properties.drop_first(), key)
    }
}

/// The properties once `key` has been set to `value`: the first property of
/// that name holds the value, or a new last one does.
pub open spec fn with_property(
    properties: Seq<(Seq<char>, Seq<char>)>,
    key: Seq<char>,
    value: Seq<char>,
) -> Seq<(Seq<char>, Seq<char>)> {
    let i = first_named(properties, key);
    if i < properties.len() {
        properties.update(i, (key, value))
    } else {
        properties.push((key, value))
    }
}

/// `first_named` is the index before which no property has the name, and at
/// which one has it or the properties end.
proof fn lemma_first_named(properties: Seq<(Seq<char>, Seq<char>)>, key: Seq<char>, i: int)
    requires
        0 <= i <= properties.len(),
        forall|k: int| 0 <= k < i ==> (#[trigger] properties[k]).0 != key,
        i < properties.len() ==> properties[i].0 == key,
    ensures
        first_named(properties, key) == i,
    decreases properties.len(),
{
    if i > 0 {
        assert(properties[0].0 != key);
        let rest = properties.drop_first();
        assert forall|k: int| 0 <= k < i - 1 implies (#[trigger] rest[k]).0 != key by {
            assert(rest[k] == properties[k + 1]);
        }
        lemma_first_named(rest, key, i - 1);
    }
}

impl Property {
    /// A copy of this property.
    pub fn duplicate(&self) -> (r: Property)
        ensures
            r@ == self@,
    {
        Property { key: self.key.clone(), value: self.value.clone() }
    }
}

impl ReportingPointLocation {
    /// A location at the given position, without properties.
    pub fn new(lat: Fixed, lon: Fixed) -> (r: ReportingPointLocation)
        ensures
            r@ == (LocationView { lat, lon, properties: Seq::empty() }),
    {
        let r = ReportingPointLocation { lat, lon, properties: Vec::new() };
        assert(r@.properties =~= Seq::empty());
        r
    }

    /// A copy of this location, properties included.
    pub fn duplicate(&self) -> (r: ReportingPointLocation)
        ensures
            r@ == self@,
    {
        let mut properties: Vec<Property> = Vec::new();
        let mut i: usize = 0;
        while i < self.properties.len()
            invariant
                i <= self.properties.len(),
                properties@.len() == i,
                forall|k: int| 0 <= k < i ==> properties@[k]@ == self.properties@[k]@,
            decreases self.properties.len() - i,
        {
            properties.push(self.properties[i].duplicate());
            i += 1;
        }
        let r = ReportingPointLocation { lat: self.lat, lon: self.lon, properties };
        assert(r@.properties =~= self@.properties);
        r
    }

    /// Sets the property `key` to `value`: the first property of that name
    /// takes the value, and where there is none, one is added at the end.
    pub fn set_property(&mut self, key: String, value: String)
        ensures
            final(self).lat == old(self).lat,
            final(self).lon == old(self).lon,
            final(self)@.properties == with_property(old(self)@.properties, key@, value@),
    {
        let ghost before = self@.properties;
        let mut i: usize = 0;
        while i < self.properties.len()
            invariant
                i <= self.properties.len(),
                self.lat == old(self).lat,
                self.lon == old(self).lon,
                self@.properties == before,
                before == old(self)@.properties,
                forall|k: int| 0 <= k < i ==> (#[trigger] before[k]).0 != key@,
            decreases self.properties.len() - i,
        {
            if str_eq(self.properties[i].key.as_str(), key.as_str()) {
                proof {
                    assert(before[i as int].0 == key@);
                    assert(first_named(before, key@) == i as int) by {
                        lemma_first_named(before, key@, i as int);
                    }
                }
                self.properties.set(i, Property { key, value });
                assert(self@.properties =~= before.update(i as int, (key@, value@)));
                return ;
            }
            i += 1;
        }
        proof {
            lemma_first_named(before, key@, before.len() as int);
        }
        self.properties.push(Property { key, value });
        assert(self@.properties =~= before.push((key@, value@)));
    }

    /// Folds an incoming observation of the same point into this one.
    ///
    /// `distance` is the great-circle distance between the two, in metres,
    /// rounded up. Beyond [`SANE_INTERPOLATION_DISTANCE`] the observation is
    /// rejected and `None` is returned; otherwise the result is the mean of
    /// the two positions, per axis, with an empty property bag.
    pub fn refined(&self, incoming: &ReportingPointLocation, distance: u64) -> (r: Option<
        ReportingPointLocation,
    >)
        ensures
            too_far(distance) <==> r is None,
            r matches Some(m) ==> m@ == midpoint(self@, incoming@),
            r matches Some(m) ==> m@ == reconciled(self@, incoming@, distance),
    {
        if distance > SANE_INTERPOLATION_DISTANCE {
            None
        } else {
            let m = ReportingPointLocation {
                lat: self.lat.mean(incoming.lat),
                lon: self.lon.mean(incoming.lon),
                properties: Vec::new(),
            };
            assert(m@.properties =~= Seq::empty());
            Some(m)
        }
    }
}

/// The keys of a map, each once, in no particular order.
pub(crate) fn keys_of<K: Copy, V>(m: &HashMap<K, V>) -> (ids: Vec<K>)
    requires
        vstd::std_specs::hash::obeys_key_model::<K>(),
    ensures
        ids@.no_duplicates(),
        forall|k: K| ids@.contains(k) <==> m@.contains_key(k),
{
    let mut ids: Vec<K> = Vec::new();
    for k in it: m.keys()
        invariant
            ids@.len() == it.index(),
            forall|i: int| 0 <= i < ids@.len() ==> ids@[i] == *it.seq()[i],
    {
        ids.push(*k);
    }
    proof {
        let keys = m.keys().remaining();
        assert(ids@ =~= keys.unref());
        assert(keys.unref().to_set() == m@.dom());
        assert forall|k: K| ids@.contains(k) <==> m@.contains_key(k) by {
            assert(ids@.contains(k) <==> ids@.to_set().contains(k));
        }
    }
    ids
}

/// Taking one more element of a sequence adds that element to the set of
/// those taken, and with no duplicates it is a new one.
pub(crate) proof fn lemma_take_one_more<T>(s: Seq<T>, j: int)
    requires
        0 <= j < s.len(),
    ensures
        s.take(j + 1).to_set() == s.take(j).to_set().insert(s[j]),
        s.no_duplicates() ==> !s.take(j).to_set().contains(s[j]),
{
    let wide = s.take(j + 1);
    let narrow = s.take(j);
    assert forall|x: T| wide.to_set().contains(x) <==> narrow.to_set().insert(s[j]).contains(
        x,
    ) by {
        if wide.contains(x) {
            let i = choose|i: int| 0 <= i < wide.len() && wide[i] == x;
            if i < j {
                assert(narrow[i] == x);
            }
        }
        if narrow.contains(x) {
            let i = choose|i: int| 0 <= i < narrow.len() && narrow[i] == x;
            assert(wide[i] == x);
        }
        assert(wide[j] == s[j]);
    }
    assert(wide.to_set() =~= narrow.to_set().insert(s[j]));
    if s.no_duplicates() && narrow.contains(s[j]) {
        let i = choose|i: int| 0 <= i < narrow.len() && narrow[i] == s[j];
        assert(s[i] == s[j]);
    }
}

/// Version of the dataset schema that this crate reads and writes.
pub const SCHEMA: &'static str = "2";

/// Describes a dataset document: which schema it follows, when and by what
/// it was generated.
#[derive(Debug)]
pub struct DocumentMetadata {
    /// Version of the schema; see [`SCHEMA`].
    pub schema_version: String,
    /// When the document was generated.
    pub date: Timestamp,
    /// Name of the program that generated it.
    pub generator: Option<String>,
    /// Version of that program.
    pub generator_version: Option<String>,
}

/// What is known of a region besides its points.
#[derive(Debug)]
pub struct RegionMetadata {
    /// Human-readable name of the region.
    pub name: Option<String>,
    /// Radio frequency, in hertz, on which its telegrams are sent.
    pub frequency: Option<u64>,
    /// The telegram standard in use.
    pub r09_type: Option<R09Type>,
    /// Latitude of the approximate centre of the region.
    pub lat: Option<Fixed>,
    /// Longitude of the approximate centre of the region.
    pub lon: Option<Fixed>,
}

/// The reporting-point locations of all regions, with the metadata of the
/// regions and of the document itself.
#[derive(Debug)]
pub struct LocationDataset {
    /// Metadata of the document.
    pub document: DocumentMetadata,
    /// Region id, then point id, to the location of the point.
    pub data: HashMap<i64, HashMap<i32, ReportingPointLocation>>,
    /// Region id to the metadata of the region.
    pub meta: HashMap<i64, RegionMetadata>,
}

/// Whether `data` knows the point `point` of the region `region`.
pub open spec fn has_point(
    data: Map<i64, HashMap<i32, ReportingPointLocation>>,
    region: i64,
    point: i32,
) -> bool {
    data.contains_key(region) && data[region]@.contains_key(point)
}

/// The location that `data` holds for a point that it knows.
pub open spec fn point_at(
    data: Map<i64, HashMap<i32, ReportingPointLocation>>,
    region: i64,
    point: i32,
) -> ReportingPointLocation {
    data[region]@[point]
}

impl DocumentMetadata {
    /// Whether the document follows the schema that this crate reads: a
    /// document of another version is to be refused or migrated, not read.
    pub fn has_known_schema(&self) -> (known: bool)
        ensures
            known == (self.schema_version@ == SCHEMA@),
    {
        str_eq(self.schema_version.as_str(), SCHEMA)
    }
}

impl LocationDataset {
    /// A dataset without regions, under the given document metadata.
    pub fn new(document: DocumentMetadata) -> (r: LocationDataset)
        ensures
            r.document == document,
            r.data@ == Map::<i64, HashMap<i32, ReportingPointLocation>>::empty(),
            r.meta@ == Map::<i64, RegionMetadata>::empty(),
    {
        LocationDataset { document, data: HashMap::new(), meta: HashMap::new() }
    }

    /// The location stored for a point, if the dataset knows the point.
    pub fn get(&self, region: i64, point: i32) -> (r: Option<&ReportingPointLocation>)
        ensures
            r is Some <==> has_point(self.data@, region, point),
            r matches Some(l) ==> *l == point_at(self.data@, region, point),
    {
        match self.data.get(&region) {
            None => None,
            Some(points) => points.get(&point),
        }
    }

    /// The regions that have a point map but no metadata, each once, in no
    /// particular order: those for which metadata is yet to be fetched.
    pub fn regions_without_metadata(&self) -> (regions: Vec<i64>)
        ensures
            regions@.no_duplicates(),
            forall|r: i64|
                regions@.contains(r) <==> self.data@.contains_key(r) && !self.meta@.contains_key(r),
    {
        let all = keys_of(&self.data);
        let mut regions: Vec<i64> = Vec::new();
        let mut i: usize = 0;
        while i < all.len()
            invariant
                i <= all.len(),
                all@.no_duplicates(),
                forall|r: i64| all@.contains(r) <==> self.data@.contains_key(r),
                regions@.no_duplicates(),
                forall|r: i64|
                    regions@.contains(r) <==> all@.take(i as int).contains(r)
                        && !self.meta@.contains_key(r),
            decreases all.len() - i,
        {
            let region = all[i];
            let ghost earlier = regions@;
            let ghost taken = all@.take(i as int);
            let ghost wider = all@.take(i + 1);
            proof {
                lemma_take_one_more(all@, i as int);
                assert forall|r: i64| wider.contains(r) <==> taken.contains(r) || r == region by {
                    assert(wider.to_set().contains(r) <==> taken.to_set().insert(region).contains(
                        r,
                    ));
                }
                assert(!taken.to_set().contains(region));
                assert(!taken.contains(region));
                assert(!earlier.contains(region));
            }
            if !self.meta.contains_key(&region) {
                regions.push(region);
                proof {
                    assert forall|r: i64| regions@.contains(r) <==> earlier.contains(r) || r
                        == region by {
                        if earlier.contains(r) {
                            let k = choose|k: int| 0 <= k < earlier.len() && earlier[k] == r;
                            assert(regions@[k] == r);
                        }
                        if regions@.contains(r) {
                            let k = choose|k: int| 0 <= k < regions@.len() && regions@[k] == r;
                            if k < earlier.len() {
                                assert(earlier[k] == r);
                            }
                        }
                        assert(regions@[earlier.len() as int] == region);
                    }
                }
            }
            proof {
                assert forall|r: i64|
                    regions@.contains(r) <==> wider.contains(r) && !self.meta@.contains_key(
                        r,
                    ) by {
                    assert(earlier.contains(r) <==> taken.contains(r) && !self.meta@.contains_key(
                        r,
                    ));
                }
            }
            i += 1;
        }
        proof {
            assert(all@.take(all@.len() as int) =~= all@);
        }
        regions
    }

    /// Stores the metadata of a region, in place of what was stored for it.
    pub fn set_region_metadata(&mut self, region: i64, metadata: RegionMetadata)
        ensures
            final(self).meta@ == old(self).meta@.insert(region, metadata),
            final(self).data == old(self).data,
            final(self).document == old(self).document,
    {
        self.meta.insert(region, metadata);
    }
}

} // verus!
