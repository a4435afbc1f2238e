//! Per-feature preferences keyed by stable feature ID, kept in key order.

use vstd::prelude::*;

use crate::text::{
    lemma_text_less_irreflexive, lemma_text_less_total, lemma_text_less_transitive, owned,
    str_equal, text_less, text_precedes,
};

verus! {

/// Non-sensitive, per-feature preferences persisted by the application.
#[derive(Debug, Clone, Copy, PartialEq, Eq, Structural)]
pub struct FeatureConfiguration {
    /// Whether the user has opted into starting this feature.
    pub enabled: bool,
}

impl Default for FeatureConfiguration {
    fn default() -> (configuration: Self)
        ensures
            !configuration.enabled,
    {
        FeatureConfiguration { enabled: false }
    }
}

/// A feature map's content: its entries, by key in ascending order.
pub type FeatureEntries = Seq<(Seq<char>, FeatureConfiguration)>;

/// Whether the keys of `entries` ascend strictly.
pub open spec fn sorted_keys(entries: FeatureEntries) -> bool {
    forall|i: int, j: int| 0 <= i < j < entries.len() ==> text_less(entries[i].0, entries[j].0)
}

/// The preference stored under `key`, if any.
pub open spec fn lookup(entries: FeatureEntries, key: Seq<char>) -> Option<FeatureConfiguration>
    decreases entries.len(),
{
    if entries.len() == 0 {
        None
    } else if entries[0].0 == key {
        Some(entries[0].1)
    } else {
        lookup(entries.drop_first(), key)
    }
}

/// The entries after storing `value` under `key`: an existing entry for the key
/// is replaced in place, otherwise the entry joins at its place in key order.
pub open spec fn inserted(entries: FeatureEntries, key: Seq<char>, value: FeatureConfiguration) -> FeatureEntries
    decreases entries.len(),
{
    if entries.len() == 0 {
        seq![(key, value)]
    } else if entries[0].0 == key {
        seq![(key, value)] + entries.drop_first()
    } else if text_less(key, entries[0].0) {
        seq![(key, value)] + entries
    } else {
        seq![entries[0]] + inserted(entries.drop_first(), key, value)
    }
}

/// The keys of `entries`, in order.
pub open spec fn entry_keys(entries: FeatureEntries) -> Seq<Seq<char>> {
    entries.map_values(|entry: (Seq<char>, FeatureConfiguration)| entry.0)
}

/// Storing a preference makes it the one read back under its key, and leaves
/// every other key as it was; the keys stay in order.
pub proof fn lemma_inserted_lookup(
    entries: FeatureEntries,
    key: Seq<char>,
    value: FeatureConfiguration,
    probe: Seq<char>,
)
    requires
        sorted_keys(entries),
    ensures
        lookup(inserted(entries, key, value), probe) == if probe == key {
            Some(value)
        } else {
            lookup(entries, probe)
        },
        sorted_keys(inserted(entries, key, value)),
    decreases entries.len(),
{
    lemma_inserted_sorted(entries, key, value);
    if entries.len() == 0 {
        assert(seq![(key, value)].drop_first().len() == 0);
        assert(lookup(seq![(key, value)].drop_first(), probe) is None);
        assert(lookup(entries, probe) is None);
        assert(inserted(entries, key, value) == seq![(key, value)]);
        assert(seq![(key, value)][0] == (key, value));
    } else if entries[0].0 == key {
        assert((seq![(key, value)] + entries.drop_first())[0] == (key, value));
        assert((seq![(key, value)] + entries.drop_first()).drop_first() =~= entries.drop_first());
        assert(inserted(entries, key, value) == seq![(key, value)] + entries.drop_first());
        if probe != key {
            assert(lookup(entries, probe) == lookup(entries.drop_first(), probe));
        }
    } else if text_less(key, entries[0].0) {
        assert((seq![(key, value)] + entries)[0] == (key, value));
        assert((seq![(key, value)] + entries).drop_first() =~= entries);
        assert(inserted(entries, key, value) == seq![(key, value)] + entries);
    } else {
        let rest = inserted(entries.drop_first(), key, value);
        assert((seq![entries[0]] + rest)[0] == entries[0]);
        assert((seq![entries[0]] + rest).drop_first() =~= rest);
        assert(entries.drop_first().len() < entries.len());
        assert(sorted_keys(entries.drop_first()));
        lemma_inserted_lookup(entries.drop_first(), key, value, probe);
        assert(inserted(entries, key, value) == seq![entries[0]] + rest);
        if probe == entries[0].0 {
            assert(lookup(entries, probe) == Some(entries[0].1));
        } else {
            assert(lookup(entries, probe) == lookup(entries.drop_first(), probe));
        }
    }
}

/// Every key of `inserted` is either `key` or one of the old keys.
proof fn lemma_inserted_keys(entries: FeatureEntries, key: Seq<char>, value: FeatureConfiguration, i: int)
    requires
        0 <= i < inserted(entries, key, value).len(),
    ensures
        inserted(entries, key, value)[i].0 == key || exists|j: int|
            0 <= j < entries.len() && entries[j].0 == inserted(entries, key, value)[i].0,
        inserted(entries, key, value).len() >= 1,
        i == 0 ==> (inserted(entries, key, value)[0].0 == key || (entries.len() > 0
            && inserted(entries, key, value)[0].0 == entries[0].0)),
    decreases entries.len(),
{
    if entries.len() == 0 {
    } else if entries[0].0 == key {
        if i > 0 {
            assert(entries[i].0 == inserted(entries, key, value)[i].0);
        }
    } else if text_less(key, entries[0].0) {
        if i > 0 {
            assert(entries[i - 1].0 == inserted(entries, key, value)[i].0);
        }
    } else {
        if i > 0 {
            lemma_inserted_keys(entries.drop_first(), key, value, i - 1);
            let k = inserted(entries, key, value)[i].0;
            if k != key {
                let j = choose|j: int|
                    0 <= j < entries.drop_first().len() && entries.drop_first()[j].0 == k;
                assert(entries[j + 1].0 == k);
            }
        }
    }
}

/// Inserting keeps the keys in order.
proof fn lemma_inserted_sorted(entries: FeatureEntries, key: Seq<char>, value: FeatureConfiguration)
    requires
        sorted_keys(entries),
    ensures
        sorted_keys(inserted(entries, key, value)),
    decreases entries.len(),
{
    let result = inserted(entries, key, value);
    if entries.len() == 0 {
    } else if entries[0].0 == key {
        assert forall|i: int, j: int| 0 <= i < j < result.len() implies text_less(
            result[i].0,
            result[j].0,
        ) by {
            if i == 0 {
                assert(result[j].0 == entries[j].0);
            } else {
                assert(result[i].0 == entries[i].0);
                assert(result[j].0 == entries[j].0);
            }
        }
    } else if text_less(key, entries[0].0) {
        assert forall|i: int, j: int| 0 <= i < j < result.len() implies text_less(
            result[i].0,
            result[j].0,
        ) by {
            if i == 0 {
                assert(result[j].0 == entries[j - 1].0);
                if j > 1 {
                    lemma_text_less_transitive(key, entries[0].0, entries[j - 1].0);
                }
            } else {
                assert(result[i].0 == entries[i - 1].0);
                assert(result[j].0 == entries[j - 1].0);
            }
        }
    } else {
        let rest = inserted(entries.drop_first(), key, value);
        assert(sorted_keys(entries.drop_first()));
        lemma_inserted_sorted(entries.drop_first(), key, value);
        lemma_text_less_total(key, entries[0].0);
        assert forall|i: int, j: int| 0 <= i < j < result.len() implies text_less(
            result[i].0,
            result[j].0,
        ) by {
            if i == 0 {
                assert(result[j].0 == rest[j - 1].0);
                lemma_inserted_keys(entries.drop_first(), key, value, j - 1);
                if rest[j - 1].0 != key {
                    let m = choose|m: int|
                        0 <= m < entries.drop_first().len() && entries.drop_first()[m].0 == rest[j
                            - 1].0;
                    assert(entries[m + 1].0 == rest[j - 1].0);
                }
            } else {
                assert(result[i].0 == rest[i - 1].0);
                assert(result[j].0 == rest[j - 1].0);
            }
        }
    }
}

/// Per-feature preferences keyed by stable feature ID, in ascending key order.
#[derive(Debug)]
pub struct FeatureMap {
    entries: Vec<(String, FeatureConfiguration)>,
}

/// The content of a list of stored entries.
pub open spec fn stored_entries(entries: Seq<(String, FeatureConfiguration)>) -> FeatureEntries {
    entries.map_values(|entry: (String, FeatureConfiguration)| (entry.0@, entry.1))
}

impl View for FeatureMap {
    type V = FeatureEntries;

    closed spec fn view(&self) -> FeatureEntries {
        stored_entries(self.entries@)
    }
}

impl FeatureMap {
    #[verifier::type_invariant]
    spec fn keys_ascend(self) -> bool {
        sorted_keys(stored_entries(self.entries@))
    }

    /// An empty map.
    pub fn new() -> (map: Self)
        ensures
            map@.len() == 0,
    {
        let map = FeatureMap { entries: Vec::new() };
        assert(map@ =~= Seq::<(Seq<char>, FeatureConfiguration)>::empty());
        map
    }

    /// The number of entries.
    pub fn len(&self) -> (count: usize)
        ensures
            count == self@.len(),
    {
        self.entries.len()
    }

    /// Whether the map has no entries.
    pub fn is_empty(&self) -> (empty: bool)
        ensures
            empty == (self@.len() == 0),
    {
        self.entries.len() == 0
    }

    /// The stored entries, in ascending key order.
    pub fn entries(&self) -> (entries: &[(String, FeatureConfiguration)])
        ensures
            stored_entries(entries@) == self@,
            sorted_keys(self@),
    {
        proof {
            use_type_invariant(self);
        }
        &self.entries
    }

    /// The preference stored under `key`, if any.
    pub fn get(&self, key: &str) -> (found: Option<FeatureConfiguration>)
        ensures
            found == lookup(self@, key@),
    {
        let mut index: usize = 0;
        assert(self@.subrange(0, self@.len() as int) =~= self@);
        while index < self.entries.len()
            invariant
                index <= self@.len(),
                self@.len() == self.entries@.len(),
                lookup(self@, key@) == lookup(self@.subrange(index as int, self@.len() as int), key@),
            decreases self@.len() - index,
        {
            let ghost rest = self@.subrange(index as int, self@.len() as int);
            assert(rest.drop_first() =~= self@.subrange(index + 1, self@.len() as int));
            assert(rest[0] == self@[index as int]);
            if str_equal(self.entries[index].0.as_str(), key) {
                return Some(self.entries[index].1);
            }
            index += 1;
        }
        None
    }

    /// Whether a preference is stored under `key`.
    pub fn contains_key(&self, key: &str) -> (found: bool)
        ensures
            found == (lookup(self@, key@) is Some),
    {
        self.get(key).is_some()
    }

    /// Removes every entry.
    pub fn clear(&mut self)
        ensures
            final(self)@.len() == 0,
    {
        self.entries = Vec::new();
        assert(stored_entries(self.entries@) =~= Seq::<(Seq<char>, FeatureConfiguration)>::empty());
    }

    /// Stores `value` under `key`, replacing any previous preference, and
    /// returns the previous preference.
    pub fn insert(&mut self, key: String, value: FeatureConfiguration) -> (previous: Option<
        FeatureConfiguration,
    >)
        ensures
            final(self)@ == inserted(old(self)@, key@, value),
            previous == lookup(old(self)@, key@),
    {
        proof {
            use_type_invariant(&*self);
        }
        let ghost before = self@;
        let previous = self.get(key.as_str());
        let mut entries: Vec<(String, FeatureConfiguration)> = Vec::new();
        std::mem::swap(&mut entries, &mut self.entries);
        let mut index: usize = 0;
        assert(before.subrange(0, before.len() as int) =~= before);
        assert(before.subrange(0, 0) + inserted(before, key@, value) =~= inserted(before, key@, value));
        while index < entries.len() && text_precedes(entries[index].0.as_str(), key.as_str())
            invariant
                before == stored_entries(entries@),
                sorted_keys(before),
                index <= before.len(),
                forall|j: int| 0 <= j < index ==> text_less(#[trigger] before[j].0, key@),
                inserted(before, key@, value) == before.subrange(0, index as int) + inserted(
                    before.subrange(index as int, before.len() as int),
                    key@,
                    value,
                ),
            decreases before.len() - index,
        {
            let ghost rest = before.subrange(index as int, before.len() as int);
            proof {
                lemma_text_less_irreflexive(key@);
                assert(rest[0] == before[index as int]);
                assert(rest[0].0 != key@);
                if text_less(key@, rest[0].0) {
                    lemma_text_less_transitive(key@, rest[0].0, key@);
                }
                assert(rest.drop_first() =~= before.subrange(index + 1, before.len() as int));
                assert(inserted(rest, key@, value) == seq![rest[0]] + inserted(
                    rest.drop_first(),
                    key@,
                    value,
                ));
                assert(before.subrange(0, index + 1) =~= before.subrange(0, index as int).push(
                    rest[0],
                ));
                assert(before.subrange(0, index as int) + (seq![rest[0]] + inserted(
                    rest.drop_first(),
                    key@,
                    value,
                )) =~= before.subrange(0, index + 1) + inserted(
                    before.subrange(index + 1, before.len() as int),
                    key@,
                    value,
                ));
            }
            index += 1;
        }
        let ghost rest = before.subrange(index as int, before.len() as int);
        if index == entries.len() {
            let ghost key_view = key@;
            entries.push((key, value));
            proof {
                assert(rest =~= Seq::<(Seq<char>, FeatureConfiguration)>::empty());
                assert(stored_entries(entries@) =~= before + seq![(key_view, value)]);
                assert(before.subrange(0, index as int) =~= before);
            }
        } else if str_equal(entries[index].0.as_str(), key.as_str()) {
            let ghost key_view = key@;
            proof {
                assert(rest[0] == before[index as int]);
                assert(rest.drop_first() =~= before.subrange(index + 1, before.len() as int));
                lemma_inserted_sorted(before, key_view, value);
            }
            entries.set(index, (key, value));
            proof {
                assert(stored_entries(entries@) =~= before.subrange(0, index as int) + (seq![
                    (key_view, value),
                ] + rest.drop_first()));
            }
        } else {
            let ghost key_view = key@;
            proof {
                assert(rest[0] == before[index as int]);
                lemma_text_less_total(key_view, rest[0].0);
                lemma_inserted_sorted(before, key_view, value);
            }
            entries.insert(index, (key, value));
            proof {
                assert(stored_entries(entries@) =~= before.subrange(0, index as int) + (seq![
                    (key_view, value),
                ] + rest));
            }
        }
        self.entries = entries;
        previous
    }

    /// A copy of this map with equal contents.
    pub fn duplicate(&self) -> (copy: Self)
        ensures
            copy@ == self@,
    {
        proof {
            use_type_invariant(self);
        }
        let mut entries: Vec<(String, FeatureConfiguration)> = Vec::new();
        let mut index: usize = 0;
        while index < self.entries.len()
            invariant
                index <= self.entries@.len(),
                sorted_keys(self@),
                self@ == stored_entries(self.entries@),
                stored_entries(entries@) == self@.subrange(0, index as int),
            decreases self.entries@.len() - index,
        {
            let key = self.entries[index].0.clone();
            let ghost previous = stored_entries(entries@);
            entries.push((key, self.entries[index].1));
            assert(stored_entries(entries@) =~= previous.push(self@[index as int]));
            assert(stored_entries(entries@) =~= self@.subrange(0, index + 1));
            index += 1;
        }
        assert(self@.subrange(0, self@.len() as int) =~= self@);
        FeatureMap { entries }
    }

    /// Whether two maps hold the same entries.
    pub fn same_entries(&self, other: &Self) -> (same: bool)
        ensures
            same == (self@ == other@),
    {
        if self.entries.len() != other.entries.len() {
            return false;
        }
        let mut index: usize = 0;
        while index < self.entries.len()
            invariant
                index <= self.entries@.len(),
                self.entries@.len() == other.entries@.len(),
                self@.subrange(0, index as int) == other@.subrange(0, index as int),
            decreases self.entries@.len() - index,
        {
            if !str_equal(self.entries[index].0.as_str(), other.entries[index].0.as_str())
                || self.entries[index].1.enabled != other.entries[index].1.enabled {
                assert(self@[index as int] != other@[index as int]);
                return false;
            }
            assert(self@.subrange(0, index + 1) =~= self@.subrange(0, index as int).push(self@[index as int]));
            assert(other@.subrange(0, index + 1) =~= other@.subrange(0, index as int).push(other@[index as int]));
            index += 1;
        }
        assert(self@ =~= self@.subrange(0, index as int));
        assert(other@ =~= other@.subrange(0, index as int));
        true
    }

    /// Builds a map holding a single preference.
    pub fn singleton(key: &str, value: FeatureConfiguration) -> (map: Self)
        ensures
            map@ == seq![(key@, value)],
    {
        let mut map = FeatureMap::new();
        map.insert(owned(key), value);
        map
    }
}

impl Default for FeatureMap {
    fn default() -> (map: Self)
        ensures
            map@.len() == 0,
    {
        FeatureMap::new()
    }
}

impl PartialEq for FeatureMap {
    fn eq(&self, other: &Self) -> (equal: bool) {
        self.same_entries(other)
    }
}

impl vstd::std_specs::cmp::PartialEqSpecImpl for FeatureMap {
    open spec fn obeys_eq_spec() -> bool {
        true
    }

    open spec fn eq_spec(&self, other: &Self) -> bool {
        self@ == other@
    }
}

impl Eq for FeatureMap {

}

} // verus!
