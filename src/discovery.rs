//! Picking, from the hub's listings, the sensor of each kind and the
//! garden light group.
//!
//! Listings are taken in the order in which the caller walked them; when
//! several entries match, the last one wins.
use vstd::prelude::*;

use crate::mappings::group::Group;
use crate::mappings::sensor::Sensor;
use crate::text::{contains_str, has_substring};

verus! {

/// The kinds of reading that one cycle collects.
#[derive(Debug, Clone, Copy, PartialEq, Eq, Structural)]
pub enum Category {
    Temperature,
    Humidity,
    Pressure,
    Lux,
}

/// The substring of a sensor's type tag that marks it as being of kind `c`.
pub open spec fn category_tag(c: Category) -> Seq<char> {
    match c {
        Category::Temperature => "Temperature"@,
        Category::Humidity => "Humidity"@,
        Category::Pressure => "Pressure"@,
        Category::Lux => "LightLevel"@,
    }
}

/// The sensor has a type tag and `tag` occurs in it.
pub open spec fn has_tag(s: Sensor, tag: Seq<char>) -> bool {
    s.sensor_type is Some && has_substring(s.sensor_type->0@, tag)
}

/// The id of the last entry whose sensor carries `tag`.
pub open spec fn last_with_tag(entries: Seq<(String, Sensor)>, tag: Seq<char>) -> Option<Seq<char>>
    decreases entries.len(),
{
    if entries.len() == 0 {
        None
    } else if has_tag(entries.last().1, tag) {
        Some(entries.last().0@)
    } else {
        last_with_tag(entries.drop_last(), tag)
    }
}

/// The name of the light group that the controller drives.
pub open spec fn garden_name() -> Seq<char> {
    "Garden"@
}

/// The id of the last entry whose group name contains `pat`.
pub open spec fn last_named(entries: Seq<(String, Group)>, pat: Seq<char>) -> Option<Seq<char>>
    decreases entries.len(),
{
    if entries.len() == 0 {
        None
    } else if has_substring(entries.last().1.name@, pat) {
        Some(entries.last().0@)
    } else {
        last_named(entries.drop_last(), pat)
    }
}

/// The characters of an optional id.
pub open spec fn id_view(o: Option<String>) -> Option<Seq<char>> {
    match o {
        Some(s) => Some(s@),
        None => None,
    }
}

/// The sensor chosen for each kind of reading, if any.
#[derive(Debug, Clone)]
pub struct SensorIds {
    pub temperature: Option<String>,
    pub humidity: Option<String>,
    pub pressure: Option<String>,
    pub lux: Option<String>,
}

impl SensorIds {
    /// The id chosen for kind `c`.
    pub open spec fn id_of(&self, c: Category) -> Option<String> {
        match c {
            Category::Temperature => self.temperature,
            Category::Humidity => self.humidity,
            Category::Pressure => self.pressure,
            Category::Lux => self.lux,
        }
    }

    /// The chosen ids are those of the last entries of `entries` carrying
    /// each kind's tag.
    pub open spec fn chosen_from(&self, entries: Seq<(String, Sensor)>) -> bool {
        forall|c: Category| #[trigger] id_view(self.id_of(c)) == last_with_tag(entries, category_tag(c))
    }
}

/// `last_with_tag` is `Some` exactly when some entry carries the tag, and
/// then names a carrying entry after which no entry carries it.
proof fn lemma_last_with_tag(entries: Seq<(String, Sensor)>, tag: Seq<char>)
    ensures
        (last_with_tag(entries, tag) is Some) <==> (exists|i: int|
            0 <= i < entries.len() && has_tag(#[trigger] entries[i].1, tag)),
        last_with_tag(entries, tag) is Some ==> (exists|i: int|
            0 <= i < entries.len() && has_tag(#[trigger] entries[i].1, tag)
                && last_with_tag(entries, tag) == Some(entries[i].0@)
                && (forall|j: int| i < j < entries.len() ==> !has_tag(#[trigger] entries[j].1, tag))),
    decreases entries.len(),
{
    if entries.len() > 0 {
        let rest = entries.drop_last();
        lemma_last_with_tag(rest, tag);
        let n = entries.len() - 1;
        if has_tag(entries.last().1, tag) {
            assert(has_tag(entries[n].1, tag));
        } else {
            if last_with_tag(rest, tag) is Some {
                let i = choose|i: int|
                    0 <= i < rest.len() && has_tag(#[trigger] rest[i].1, tag)
                        && last_with_tag(rest, tag) == Some(rest[i].0@)
                        && (forall|j: int| i < j < rest.len() ==> !has_tag(#[trigger] rest[j].1, tag));
                assert(entries[i] == rest[i]);
                assert forall|j: int| i < j < entries.len() implies !has_tag(#[trigger] entries[j].1, tag) by {
                    if j < n {
                        assert(entries[j] == rest[j]);
                    }
                }
            } else {
                assert forall|i: int| 0 <= i < entries.len() implies !has_tag(#[trigger] entries[i].1, tag) by {
                    if i < n {
                        assert(entries[i] == rest[i]);
                    }
                }
            }
        }
    }
}

/// Discovery chooses exactly one sensor of a kind whenever the listing holds
/// at least one sensor tagged with it, and none otherwise: never two, and
/// never none while a match exists. The one chosen carries the tag, and no
/// sensor listed after it does.
pub proof fn lemma_discovery_picks_one(entries: Seq<(String, Sensor)>, ids: SensorIds, c: Category)
    requires
        ids.chosen_from(entries),
    ensures
        (ids.id_of(c) is Some) <==> (exists|i: int|
            0 <= i < entries.len() && has_tag(#[trigger] entries[i].1, category_tag(c))),
        ids.id_of(c) is Some ==> (exists|i: int|
            0 <= i < entries.len() && has_tag(#[trigger] entries[i].1, category_tag(c))
                && ids.id_of(c)->0@ == entries[i].0@
                && (forall|j: int| i < j < entries.len() ==> !has_tag(#[trigger] entries[j].1, category_tag(c)))),
{
    assert(id_view(ids.id_of(c)) == last_with_tag(entries, category_tag(c)));
    lemma_last_with_tag(entries, category_tag(c));
}

/// Whether the sensor's type tag contains `tag`.
fn sensor_has_tag(s: &Sensor, tag: &str) -> (r: bool)
    ensures
        r == has_tag(*s, tag@),
{
    match &s.sensor_type {
        Some(t) => contains_str(t.as_str(), tag),
        None => false,
    }
}

/// Scans the sensor listing and records, for each kind, the id of the last
/// sensor whose type tag names that kind.
pub fn discover(entries: &Vec<(String, Sensor)>) -> (r: SensorIds)
    ensures
        r.chosen_from(entries@),
{
    let mut ids = SensorIds { temperature: None, humidity: None, pressure: None, lux: None };
    let mut i: usize = 0;
    while i < entries.len()
        invariant
            i <= entries@.len(),
            ids.chosen_from(entries@.take(i as int)),
        decreases entries@.len() - i,
    {
        let ghost prefix = entries@.take(i as int);
        let ghost old_ids = ids;
        let (id, sensor) = &entries[i];
        if sensor_has_tag(sensor, "Temperature") {
            ids.temperature = Some(id.clone());
        }
        if sensor_has_tag(sensor, "Humidity") {
            ids.humidity = Some(id.clone());
        }
        if sensor_has_tag(sensor, "Pressure") {
            ids.pressure = Some(id.clone());
        }
        if sensor_has_tag(sensor, "LightLevel") {
            ids.lux = Some(id.clone());
        }
        i = i + 1;
        proof {
            let next = entries@.take(i as int);
            assert(next.drop_last() =~= prefix);
            assert(next.last() == entries@[i - 1]);
            assert forall|c: Category|
                #[trigger] id_view(ids.id_of(c)) == last_with_tag(next, category_tag(c)) by {
                assert(id_view(old_ids.id_of(c)) == last_with_tag(prefix, category_tag(c)));
            }
        }
    }
    assert(entries@.take(entries@.len() as int) =~= entries@);
    ids
}

/// Scans the group listing and returns the id of the last group whose name
/// contains `Garden`.
pub fn find_garden_group(entries: &Vec<(String, Group)>) -> (r: Option<String>)
    ensures
        id_view(r) == last_named(entries@, garden_name()),
{
    let mut found: Option<String> = None;
    let mut i: usize = 0;
    while i < entries.len()
        invariant
            i <= entries@.len(),
            id_view(found) == last_named(entries@.take(i as int), garden_name()),
        decreases entries@.len() - i,
    {
        let ghost prefix = entries@.take(i as int);
        let (id, group) = &entries[i];
        if contains_str(group.name.as_str(), "Garden") {
            found = Some(id.clone());
        }
        i = i + 1;
        proof {
            let next = entries@.take(i as int);
            assert(next.drop_last() =~= prefix);
            assert(next.last() == entries@[i - 1]);
        }
    }
    assert(entries@.take(entries@.len() as int) =~= entries@);
    found
}

} // verus!
