//! An ordered map from tile keys, kept as a sorted list.
use vstd::prelude::*;

use crate::document::LayerId;

verus! {

/// The address of one tile of a layer.
#[derive(Clone, Copy, Debug, PartialEq, Eq, Hash, Structural)]
pub struct TileKey {
    pub layer: LayerId,
    pub mip: u8,
    pub x: i32,
    pub y: i32,
}

/// The order of tile keys: by layer, then by level, column and row.
pub open spec fn key_before(a: TileKey, b: TileKey) -> bool {
    ||| a.layer.0 < b.layer.0
    ||| a.layer == b.layer && (a.mip < b.mip || a.mip == b.mip && (a.x < b.x || a.x == b.x && a.y
        < b.y))
}

impl TileKey {
    pub fn is_before(&self, other: &TileKey) -> (r: bool)
        ensures
            r == key_before(*self, *other),
    {
        if self.layer.0 != other.layer.0 {
            self.layer.0 < other.layer.0
        } else if self.mip != other.mip {
            self.mip < other.mip
        } else if self.x != other.x {
            self.x < other.x
        } else {
            self.y < other.y
        }
    }
}

#[derive(Clone, Debug, PartialEq, Eq)]
pub struct TileEntry<V> {
    pub key: TileKey,
    pub value: V,
}

#[derive(Debug)]
pub struct TileMap<V> {
    entries: Vec<TileEntry<V>>,
}

pub open spec fn strictly_sorted<V>(entries: Seq<TileEntry<V>>) -> bool {
    forall|i: int, j: int|
        0 <= i < j < entries.len() ==> key_before(
            (#[trigger] entries[i]).key,
            (#[trigger] entries[j]).key,
        )
}

pub open spec fn holds_key<V>(entries: Seq<TileEntry<V>>, key: TileKey) -> bool {
    exists|i: int| 0 <= i < entries.len() && (#[trigger] entries[i]).key == key
}

pub open spec fn place_of<V>(entries: Seq<TileEntry<V>>, key: TileKey) -> int {
    choose|i: int| 0 <= i < entries.len() && (#[trigger] entries[i]).key == key
}

/// The map that a sorted list stands for.
pub open spec fn map_of<V>(entries: Seq<TileEntry<V>>) -> Map<TileKey, V> {
    Map::new(|key: TileKey| holds_key(entries, key), |key: TileKey| entries[place_of(entries, key)].value)
}

proof fn lemma_entry_in_map<V>(entries: Seq<TileEntry<V>>, i: int)
    requires
        strictly_sorted(entries),
        0 <= i < entries.len(),
    ensures
        map_of(entries).dom().contains(entries[i].key),
        map_of(entries)[entries[i].key] == entries[i].value,
        place_of(entries, entries[i].key) == i,
{
    let key = entries[i].key;
    let place = place_of(entries, key);
    assert(entries[i].key == key);
    assert(0 <= place < entries.len() && entries[place].key == key);
    if place < i {
        assert(key_before(entries[place].key, entries[i].key));
    } else if i < place {
        assert(key_before(entries[i].key, entries[place].key));
    }
}

impl<V> TileMap<V> {
    pub closed spec fn ordered(&self) -> Seq<TileEntry<V>> {
        self.entries@
    }

    pub closed spec fn wf(&self) -> bool {
        strictly_sorted(self.entries@)
    }

    /// The keys in order.
    pub open spec fn key_list(&self) -> Seq<TileKey> {
        self.ordered().map_values(|entry: TileEntry<V>| entry.key)
    }
}

impl<V> View for TileMap<V> {
    type V = Map<TileKey, V>;

    closed spec fn view(&self) -> Map<TileKey, V> {
        map_of(self.entries@)
    }
}

impl<V> TileMap<V> {
    pub fn new() -> (r: Self)
        ensures
            r.wf(),
            r@ == Map::<TileKey, V>::empty(),
    {
        let r = TileMap { entries: Vec::new() };
        assert(r@ =~= Map::<TileKey, V>::empty());
        r
    }

    pub fn len(&self) -> (r: usize)
        ensures
            r == self.ordered().len(),
    {
        self.entries.len()
    }

    /// The key at a place of the order.
    pub fn key_at(&self, index: usize) -> (r: TileKey)
        requires
            self.wf(),
            index < self.ordered().len(),
        ensures
            r == self.key_list()[index as int],
            r == self.ordered()[index as int].key,
            self@.dom().contains(r),
    {
        proof {
            lemma_entry_in_map(self.entries@, index as int);
        }
        self.entries[index].key
    }

    /// The value at a place of the order.
    pub fn value_at(&self, index: usize) -> (r: &V)
        requires
            self.wf(),
            index < self.ordered().len(),
        ensures
            *r == self.ordered()[index as int].value,
            *r == self@[self.ordered()[index as int].key],
    {
        proof {
            lemma_entry_in_map(self.entries@, index as int);
        }
        &self.entries[index].value
    }

    /// The first place whose key is not before `key`.
    fn lower_bound(&self, key: TileKey) -> (r: usize)
        requires
            self.wf(),
        ensures
            r <= self.entries@.len(),
            forall|i: int| 0 <= i < r ==> key_before((#[trigger] self.entries@[i]).key, key),
            forall|i: int|
                r <= i < self.entries@.len() ==> !key_before(
                    (#[trigger] self.entries@[i]).key,
                    key,
                ),
    {
        let mut low: usize = 0;
        let mut high: usize = self.entries.len();
        while low < high
            invariant
                strictly_sorted(self.entries@),
                low <= high <= self.entries@.len(),
                forall|i: int| 0 <= i < low ==> key_before((#[trigger] self.entries@[i]).key, key),
                forall|i: int|
                    high <= i < self.entries@.len() ==> !key_before(
                        (#[trigger] self.entries@[i]).key,
                        key,
                    ),
            decreases high - low,
        {
            let middle: usize = low + (high - low) / 2;
            if self.entries[middle].key.is_before(&key) {
                assert forall|i: int| 0 <= i < middle + 1 implies key_before(
                    (#[trigger] self.entries@[i]).key,
                    key,
                ) by {
                    if i < middle {
                        assert(key_before(self.entries@[i].key, self.entries@[middle as int].key));
                    }
                }
                low = middle + 1;
            } else {
                assert forall|i: int| middle <= i < self.entries@.len() implies !key_before(
                    (#[trigger] self.entries@[i]).key,
                    key,
                ) by {
                    if middle < i {
                        assert(key_before(self.entries@[middle as int].key, self.entries@[i].key));
                    }
                }
                high = middle;
            }
        }
        low
    }

    pub fn get(&self, key: TileKey) -> (r: Option<&V>)
        requires
            self.wf(),
        ensures
            match r {
                Some(value) => self@.dom().contains(key) && *value == self@[key],
                None => !self@.dom().contains(key),
            },
    {
        let place: usize = self.lower_bound(key);
        if place < self.entries.len() && self.entries[place].key == key {
            proof {
                lemma_entry_in_map(self.entries@, place as int);
            }
            return Some(&self.entries[place].value);
        }
        proof {
            if holds_key(self.entries@, key) {
                let i = place_of(self.entries@, key);
                assert(self.entries@[i].key == key);
                if i > place {
                    assert(key_before(self.entries@[place as int].key, self.entries@[i].key));
                }
            }
        }
        None
    }

    pub fn insert(&mut self, key: TileKey, value: V)
        requires
            old(self).wf(),
        ensures
            final(self).wf(),
            final(self)@ == old(self)@.insert(key, value),
    {
        let ghost before = self.entries@;
        let place: usize = self.lower_bound(key);
        if place < self.entries.len() && self.entries[place].key == key {
            self.entries[place] = TileEntry { key, value };
            proof {
                let after = self.entries@;
                assert(after =~= before.update(place as int, TileEntry { key, value }));
                assert(strictly_sorted(after));
                lemma_entry_in_map(after, place as int);
                lemma_entry_in_map(before, place as int);
                assert forall|other: TileKey| #[trigger]
                    map_of(after).dom().contains(other) <==> map_of(before).insert(
                    key,
                    value,
                ).dom().contains(other) by {
                    if holds_key(after, other) {
                        let i = place_of(after, other);
                        assert(before[i].key == other);
                    }
                    if holds_key(before, other) {
                        let i = place_of(before, other);
                        assert(after[i].key == other);
                    }
                }
                assert forall|other: TileKey| #[trigger]
                    map_of(after).dom().contains(other) implies map_of(after)[other] == map_of(
                    before,
                ).insert(key, value)[other] by {
                    let i = place_of(after, other);
                    assert(after[i].key == other);
                    lemma_entry_in_map(after, i);
                    lemma_entry_in_map(before, i);
                }
                assert(map_of(after) =~= map_of(before).insert(key, value));
            }
        } else {
            self.entries.insert(place, TileEntry { key, value });
            proof {
                let after = self.entries@;
                assert(after =~= before.insert(place as int, TileEntry { key, value }));
                if place < before.len() {
                    assert(!key_before(before[place as int].key, key));
                }
                assert forall|i: int, j: int| 0 <= i < j < after.len() implies key_before(
                    (#[trigger] after[i]).key,
                    (#[trigger] after[j]).key,
                ) by {
                    let source_i = if i < place { i } else { i - 1 };
                    let source_j = if j < place { j } else { j - 1 };
                    if i != place {
                        assert(after[i] == before[source_i]);
                    }
                    if j != place {
                        assert(after[j] == before[source_j]);
                    }
                    if i == place {
                        assert(!key_before(before[source_j].key, key));
                        assert(place < before.len());
                        if source_j > place {
                            assert(key_before(before[place as int].key, before[source_j].key));
                        }
                    } else if j == place {
                        assert(key_before(before[source_i].key, key));
                    } else {
                        assert(key_before(before[source_i].key, before[source_j].key));
                    }
                }
                lemma_entry_in_map(after, place as int);
                assert forall|other: TileKey| #[trigger]
                    map_of(after).dom().contains(other) <==> map_of(before).insert(
                    key,
                    value,
                ).dom().contains(other) by {
                    if holds_key(after, other) {
                        let i = place_of(after, other);
                        if i != place {
                            assert(before[if i < place { i } else { i - 1 }].key == other);
                        }
                    }
                    if holds_key(before, other) {
                        let i = place_of(before, other);
                        assert(after[if i < place { i } else { i + 1 }].key == other);
                    }
                }
                assert forall|other: TileKey| #[trigger]
                    map_of(after).dom().contains(other) implies map_of(after)[other] == map_of(
                    before,
                ).insert(key, value)[other] by {
                    let i = place_of(after, other);
                    assert(after[i].key == other);
                    lemma_entry_in_map(after, i);
                    if i != place {
                        let source = if i < place { i } else { i - 1 };
                        assert(after[i] == before[source]);
                        lemma_entry_in_map(before, source);
                        if other == key {
                            if i < place {
                                assert(key_before(after[i].key, after[place as int].key));
                            } else {
                                assert(key_before(after[place as int].key, after[i].key));
                            }
                        }
                    }
                }
                assert(map_of(after) =~= map_of(before).insert(key, value));
            }
        }
    }

    pub fn remove(&mut self, key: TileKey)
        requires
            old(self).wf(),
        ensures
            final(self).wf(),
            final(self)@ == old(self)@.remove(key),
    {
        let ghost before = self.entries@;
        let place: usize = self.lower_bound(key);
        if place < self.entries.len() && self.entries[place].key == key {
            self.entries.remove(place);
            proof {
                let after = self.entries@;
                assert(after =~= before.remove(place as int));
                assert forall|i: int, j: int| 0 <= i < j < after.len() implies key_before(
                    (#[trigger] after[i]).key,
                    (#[trigger] after[j]).key,
                ) by {
                    let source_i = if i < place { i } else { i + 1 };
                    let source_j = if j < place { j } else { j + 1 };
                    assert(after[i] == before[source_i]);
                    assert(after[j] == before[source_j]);
                }
                lemma_entry_in_map(before, place as int);
                assert forall|other: TileKey| #[trigger]
                    map_of(after).dom().contains(other) <==> map_of(before).remove(
                    key,
                ).dom().contains(other) by {
                    if holds_key(after, other) {
                        let i = place_of(after, other);
                        let source = if i < place { i } else { i + 1 };
                        assert(before[source].key == other);
                        if other == key {
                            lemma_entry_in_map(before, source);
                        }
                    }
                    if holds_key(before, other) && other != key {
                        let i = place_of(before, other);
                        assert(after[if i < place { i } else { i - 1 }].key == other);
                    }
                }
                assert forall|other: TileKey| #[trigger]
                    map_of(after).dom().contains(other) implies map_of(after)[other] == map_of(
                    before,
                ).remove(key)[other] by {
                    let i = place_of(after, other);
                    assert(after[i].key == other);
                    lemma_entry_in_map(after, i);
                    let source = if i < place { i } else { i + 1 };
                    assert(after[i] == before[source]);
                    lemma_entry_in_map(before, source);
                }
                assert(map_of(after) =~= map_of(before).remove(key));
            }
        } else {
            proof {
                if holds_key(before, key) {
                    let i = place_of(before, key);
                    assert(before[i].key == key);
                    if i > place {
                        assert(key_before(before[place as int].key, before[i].key));
                    }
                }
                assert(map_of(before) =~= map_of(before).remove(key));
            }
        }
    }

    /// Every key of the map has a place in the order.
    pub proof fn lemma_key_has_place(&self, key: TileKey) -> (i: int)
        requires
            self.wf(),
            self@.dom().contains(key),
        ensures
            0 <= i < self.ordered().len(),
            self.ordered()[i].key == key,
            self.ordered()[i].value == self@[key],
    {
        place_of(self.entries@, key)
    }

    /// A place in the order belongs to a key of the map.
    pub proof fn lemma_place_has_key(&self, i: int)
        requires
            self.wf(),
            0 <= i < self.ordered().len(),
        ensures
            self@.dom().contains(self.ordered()[i].key),
            self@[self.ordered()[i].key] == self.ordered()[i].value,
    {
        lemma_entry_in_map(self.entries@, i);
    }

    /// The keys rise along the order.
    pub proof fn lemma_keys_rise(&self, i: int, j: int)
        requires
            self.wf(),
            0 <= i < j < self.ordered().len(),
        ensures
            key_before(self.ordered()[i].key, self.ordered()[j].key),
    {
    }
}

/// The entries of a map that hold another value.
pub open spec fn without_value(map: Map<TileKey, u64>, value: u64) -> Map<TileKey, u64> {
    map.restrict(Set::new(|key: TileKey| map.dom().contains(key) && map[key] != value))
}

impl TileMap<u64> {
    /// Drops every entry with this value.
    pub fn drop_value(&mut self, value: u64)
        requires
            old(self).wf(),
        ensures
            final(self).wf(),
            final(self)@ == without_value(old(self)@, value),
    {
        let ghost before = self.entries@;
        let mut kept: Vec<TileEntry<u64>> = Vec::new();
        let mut index: usize = 0;
        while index < self.entries.len()
            invariant
                index <= before.len(),
                self.entries@ == before,
                strictly_sorted(before),
                strictly_sorted(kept@),
                forall|i: int, j: int|
                    0 <= i < kept@.len() && index <= j < before.len() ==> key_before(
                        (#[trigger] kept@[i]).key,
                        (#[trigger] before[j]).key,
                    ),
                forall|i: int|
                    0 <= i < kept@.len() ==> (#[trigger] kept@[i]).value != value && before.contains(
                        kept@[i],
                    ),
                forall|j: int|
                    0 <= j < index && (#[trigger] before[j]).value != value ==> kept@.contains(
                        before[j],
                    ),
            decreases before.len() - index,
        {
            let ghost shorter = kept@;
            let key = self.entries[index].key;
            let current: u64 = self.entries[index].value;
            if current != value {
                kept.push(TileEntry { key, value: current });
                proof {
                    assert(kept@.last() == before[index as int]);
                    assert forall|j: int|
                        0 <= j < index + 1 && (#[trigger] before[j]).value != value implies
                        kept@.contains(before[j]) by {
                        if j < index {
                            assert(shorter.contains(before[j]));
                            let place = choose|i: int|
                                0 <= i < shorter.len() && shorter[i] == before[j];
                            assert(kept@[place] == before[j]);
                        } else {
                            assert(kept@[kept@.len() - 1] == before[j]);
                        }
                    }
                }
            }
            index = index + 1;
        }
        self.entries = kept;
        proof {
            let after = self.entries@;
            let expected = without_value(map_of(before), value);
            assert forall|key: TileKey| #[trigger] map_of(after).dom().contains(key)
                <==> expected.dom().contains(key) by {
                if holds_key(after, key) {
                    let i = place_of(after, key);
                    assert(before.contains(after[i]));
                    let j = choose|j: int| 0 <= j < before.len() && before[j] == after[i];
                    lemma_entry_in_map(before, j);
                }
                if holds_key(before, key) {
                    let j = place_of(before, key);
                    lemma_entry_in_map(before, j);
                    if before[j].value != value {
                        assert(after.contains(before[j]));
                        let i = choose|i: int| 0 <= i < after.len() && after[i] == before[j];
                        assert(after[i].key == key);
                    }
                }
            }
            assert forall|key: TileKey| #[trigger] map_of(after).dom().contains(key) implies map_of(
                after,
            )[key] == expected[key] by {
                let i = place_of(after, key);
                lemma_entry_in_map(after, i);
                assert(before.contains(after[i]));
                let j = choose|j: int| 0 <= j < before.len() && before[j] == after[i];
                lemma_entry_in_map(before, j);
            }
            assert(map_of(after) =~= expected);
        }
    }

    pub fn clear(&mut self)
        ensures
            final(self).wf(),
            final(self)@ == Map::<TileKey, u64>::empty(),
    {
        self.entries = Vec::new();
        assert(self@ =~= Map::<TileKey, u64>::empty());
    }
}

} // verus!
