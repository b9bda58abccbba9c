//! Tile pixels, and how a snapshot of them is adopted.
use vstd::prelude::*;

use crate::tile_map::{TileKey, TileMap};

verus! {

/// Pixels along one side of a tile.
pub const TILE_EDGE: u32 = 128;

/// Bytes of one tile, four per pixel.
pub const TILE_BYTE_LEN: usize = 65_536;

/// The pixel content of a tile map.
pub open spec fn pixel_map(tiles: Map<TileKey, Vec<u8>>) -> Map<TileKey, Seq<u8>> {
    tiles.map_values(|pixels: Vec<u8>| pixels@)
}

/// What a map holds at a key, where it holds anything.
pub open spec fn held<V>(map: Map<TileKey, V>, key: TileKey) -> Option<V> {
    if map.dom().contains(key) { Some(map[key]) } else { None }
}

fn same_pixels(a: &Vec<u8>, b: &Vec<u8>) -> (r: bool)
    ensures
        r == (a@ == b@),
{
    if a.len() != b.len() {
        return false;
    }
    let mut index: usize = 0;
    while index < a.len()
        invariant
            index <= a@.len(),
            a@.len() == b@.len(),
            forall|i: int| 0 <= i < index ==> a@[i] == b@[i],
        decreases a@.len() - index,
    {
        if a[index] != b[index] {
            assert(a@[index as int] != b@[index as int]);
            return false;
        }
        index = index + 1;
    }
    assert(a@ =~= b@);
    true
}

fn copy_pixels(pixels: &Vec<u8>) -> (r: Vec<u8>)
    ensures
        r@ == pixels@,
{
    let r = pixels.clone();
    assert(r@ =~= pixels@);
    r
}

/// The pixels of a tile without artwork.
pub open spec fn blank_tile() -> Seq<u8> {
    Seq::new(TILE_BYTE_LEN as nat, |i: int| 0u8)
}

/// The pixels that stand at a key: blank ones where no tile is held.
pub open spec fn pixels_or_blank(tiles: Map<TileKey, Seq<u8>>, key: TileKey) -> Seq<u8> {
    if tiles.dom().contains(key) { tiles[key] } else { blank_tile() }
}

/// The pixels to show at a key.
pub fn tile_or_blank(tiles: &TileMap<Vec<u8>>, key: TileKey) -> (r: Vec<u8>)
    requires
        tiles.wf(),
    ensures
        r@ == pixels_or_blank(pixel_map(tiles@), key),
{
    match tiles.get(key) {
        Some(pixels) => copy_pixels(pixels),
        None => {
            let mut blank: Vec<u8> = Vec::new();
            blank.resize(TILE_BYTE_LEN, 0);
            assert(blank@ =~= blank_tile());
            blank
        },
    }
}

/// One decision of an adoption: the tile, and whether its pixels differ.
#[derive(Clone, Copy, Debug, PartialEq, Eq, Structural)]
pub struct TileChange {
    pub key: TileKey,
    pub changed: bool,
}

/// The decisions of one adoption, made once for the upload and for the cache.
#[derive(Debug)]
pub struct CpuSnapshotAdoption {
    pub tiles: Vec<TileChange>,
}

/// `tiles` decides, in key order, on every tile of either map exactly once.
pub open spec fn decides(
    tiles: Seq<TileChange>,
    cache: Map<TileKey, Seq<u8>>,
    snapshot: Map<TileKey, Seq<u8>>,
) -> bool {
    &&& forall|i: int, j: int|
        0 <= i < j < tiles.len() ==> crate::tile_map::key_before(
            (#[trigger] tiles[i]).key,
            (#[trigger] tiles[j]).key,
        )
    &&& forall|i: int|
        0 <= i < tiles.len() ==> {
            &&& cache.dom().contains((#[trigger] tiles[i]).key) || snapshot.dom().contains(
                tiles[i].key,
            )
            &&& tiles[i].changed == (held(cache, tiles[i].key) != held(snapshot, tiles[i].key))
        }
    &&& forall|key: TileKey|
        cache.dom().contains(key) || snapshot.dom().contains(key) ==> decided(tiles, key)
}

pub open spec fn decided(tiles: Seq<TileChange>, key: TileKey) -> bool {
    exists|i: int| 0 <= i < tiles.len() && (#[trigger] tiles[i]).key == key
}

/// The keys of the decisions that an upload follows.
pub open spec fn upload_list(tiles: Seq<TileChange>, rebuild_surfaces: bool) -> Seq<TileKey>
    decreases tiles.len(),
{
    if tiles.len() == 0 {
        Seq::empty()
    } else if rebuild_surfaces || tiles.last().changed {
        upload_list(tiles.drop_last(), rebuild_surfaces).push(tiles.last().key)
    } else {
        upload_list(tiles.drop_last(), rebuild_surfaces)
    }
}

/// The decisions that leave a surface as it is.
pub open spec fn unchanged_count(tiles: Seq<TileChange>) -> nat
    decreases tiles.len(),
{
    if tiles.len() == 0 {
        0
    } else if tiles.last().changed {
        unchanged_count(tiles.drop_last())
    } else {
        unchanged_count(tiles.drop_last()) + 1
    }
}

impl CpuSnapshotAdoption {
    /// Compares the cache with the snapshot to adopt.
    pub fn new(cache: &TileMap<Vec<u8>>, snapshot: &TileMap<Vec<u8>>) -> (r: Self)
        requires
            cache.wf(),
            snapshot.wf(),
        ensures
            decides(r.tiles@, pixel_map(cache@), pixel_map(snapshot@)),
    {
        let ghost old_pixels = pixel_map(cache@);
        let ghost new_pixels = pixel_map(snapshot@);
        let mut tiles: Vec<TileChange> = Vec::new();
        let mut i: usize = 0;
        let mut j: usize = 0;
        while i < cache.len() || j < snapshot.len()
            invariant
                cache.wf(),
                snapshot.wf(),
                old_pixels == pixel_map(cache@),
                new_pixels == pixel_map(snapshot@),
                i <= cache.ordered().len(),
                j <= snapshot.ordered().len(),
                forall|a: int, b: int|
                    0 <= a < b < tiles@.len() ==> crate::tile_map::key_before(
                        (#[trigger] tiles@[a]).key,
                        (#[trigger] tiles@[b]).key,
                    ),
                forall|a: int, b: int|
                    0 <= a < tiles@.len() && i <= b < cache.ordered().len()
                        ==> crate::tile_map::key_before(
                        (#[trigger] tiles@[a]).key,
                        (#[trigger] cache.ordered()[b]).key,
                    ),
                forall|a: int, b: int|
                    0 <= a < tiles@.len() && j <= b < snapshot.ordered().len()
                        ==> crate::tile_map::key_before(
                        (#[trigger] tiles@[a]).key,
                        (#[trigger] snapshot.ordered()[b]).key,
                    ),
                forall|a: int|
                    0 <= a < tiles@.len() ==> {
                        &&& old_pixels.dom().contains((#[trigger] tiles@[a]).key)
                            || new_pixels.dom().contains(tiles@[a].key)
                        &&& tiles@[a].changed == (held(old_pixels, tiles@[a].key) != held(
                            new_pixels,
                            tiles@[a].key,
                        ))
                    },
                forall|b: int|
                    0 <= b < i ==> decided(tiles@, (#[trigger] cache.ordered()[b]).key),
                forall|b: int|
                    0 <= b < j ==> decided(tiles@, (#[trigger] snapshot.ordered()[b]).key),
            decreases cache.ordered().len() - i + snapshot.ordered().len() - j,
        {
            let ghost before = tiles@;
            let from_cache = i < cache.len() && (j >= snapshot.len() || !snapshot.key_at(
                j,
            ).is_before(&cache.key_at(i)));
            let from_snapshot = j < snapshot.len() && (i >= cache.len() || !cache.key_at(
                i,
            ).is_before(&snapshot.key_at(j)));
            let key = if from_cache {
                cache.key_at(i)
            } else {
                snapshot.key_at(j)
            };
            let changed = if from_cache && from_snapshot {
                !same_pixels(cache.value_at(i), snapshot.value_at(j))
            } else {
                true
            };
            tiles.push(TileChange { key, changed });
            proof {
                if i < cache.ordered().len() {
                    cache.lemma_place_has_key(i as int);
                }
                if j < snapshot.ordered().len() {
                    snapshot.lemma_place_has_key(j as int);
                }
                if !from_cache && old_pixels.dom().contains(key) {
                    let place = cache.lemma_key_has_place(key);
                    if place < i {
                        assert(decided(before, cache.ordered()[place].key));
                    } else if i < place {
                        cache.lemma_keys_rise(i as int, place);
                    }
                    assert(false);
                }
                if !from_snapshot && new_pixels.dom().contains(key) {
                    let place = snapshot.lemma_key_has_place(key);
                    if place < j {
                        assert(decided(before, snapshot.ordered()[place].key));
                    } else if j < place {
                        snapshot.lemma_keys_rise(j as int, place);
                    }
                    assert(false);
                }
                assert forall|other: TileKey| decided(before, other) implies decided(
                    tiles@,
                    other,
                ) by {
                    let a = choose|a: int|
                        0 <= a < before.len() && (#[trigger] before[a]).key == other;
                    assert(tiles@[a].key == other);
                }
                assert(tiles@[before.len() as int].key == key);
                assert(decided(tiles@, key));
                let next_i = if from_cache { i + 1 } else { i as int };
                let next_j = if from_snapshot { j + 1 } else { j as int };
                assert forall|b: int| next_i <= b < cache.ordered().len() implies
                    crate::tile_map::key_before(key, (#[trigger] cache.ordered()[b]).key) by {
                    if i < b {
                        cache.lemma_keys_rise(i as int, b);
                    }
                }
                assert forall|b: int| next_j <= b < snapshot.ordered().len() implies
                    crate::tile_map::key_before(key, (#[trigger] snapshot.ordered()[b]).key) by {
                    if j < b {
                        snapshot.lemma_keys_rise(j as int, b);
                    }
                }
            }
            if from_cache {
                i = i + 1;
            }
            if from_snapshot {
                j = j + 1;
            }
        }
        proof {
            assert forall|key: TileKey|
                old_pixels.dom().contains(key) || new_pixels.dom().contains(key) implies decided(
                tiles@,
                key,
            ) by {
                if old_pixels.dom().contains(key) {
                    let place = cache.lemma_key_has_place(key);
                    assert(decided(tiles@, cache.ordered()[place].key));
                } else {
                    let place = snapshot.lemma_key_has_place(key);
                    assert(decided(tiles@, snapshot.ordered()[place].key));
                }
            }
        }
        CpuSnapshotAdoption { tiles }
    }

    /// The tiles to upload, in key order: the changed ones, or all of them
    /// where their surfaces were rebuilt.
    pub fn upload_keys(&self, rebuild_surfaces: bool) -> (r: Vec<TileKey>)
        ensures
            r@ == upload_list(self.tiles@, rebuild_surfaces),
    {
        let mut keys: Vec<TileKey> = Vec::new();
        let mut index: usize = 0;
        assert(self.tiles@.take(0) =~= Seq::empty());
        while index < self.tiles.len()
            invariant
                index <= self.tiles@.len(),
                keys@ == upload_list(self.tiles@.take(index as int), rebuild_surfaces),
            decreases self.tiles@.len() - index,
        {
            assert(self.tiles@.take(index + 1).drop_last() =~= self.tiles@.take(index as int));
            if rebuild_surfaces || self.tiles[index].changed {
                keys.push(self.tiles[index].key);
            }
            index = index + 1;
        }
        assert(self.tiles@.take(index as int) =~= self.tiles@);
        keys
    }

    /// How many surfaces survive the adoption untouched.
    pub fn retained(&self, rebuild_surfaces: bool) -> (r: usize)
        ensures
            r == (if rebuild_surfaces {
                0
            } else {
                unchanged_count(self.tiles@)
            }),
    {
        if rebuild_surfaces {
            return 0;
        }
        let mut count: usize = 0;
        let mut index: usize = 0;
        assert(self.tiles@.take(0) =~= Seq::empty());
        while index < self.tiles.len()
            invariant
                index <= self.tiles@.len(),
                count <= index,
                count == unchanged_count(self.tiles@.take(index as int)),
            decreases self.tiles@.len() - index,
        {
            assert(self.tiles@.take(index + 1).drop_last() =~= self.tiles@.take(index as int));
            if !self.tiles[index].changed {
                count = count + 1;
            }
            index = index + 1;
        }
        assert(self.tiles@.take(index as int) =~= self.tiles@);
        count
    }

    /// Brings the cache to the snapshot. Deleted artwork does not stay behind.
    pub fn apply(self, cache: &mut TileMap<Vec<u8>>, snapshot: &TileMap<Vec<u8>>)
        requires
            old(cache).wf(),
            snapshot.wf(),
            decides(self.tiles@, pixel_map(old(cache)@), pixel_map(snapshot@)),
        ensures
            final(cache).wf(),
            pixel_map(final(cache)@) == pixel_map(snapshot@),
    {
        let ghost old_pixels = pixel_map(cache@);
        let ghost new_pixels = pixel_map(snapshot@);
        let mut index: usize = 0;
        while index < self.tiles.len()
            invariant
                index <= self.tiles@.len(),
                cache.wf(),
                snapshot.wf(),
                new_pixels == pixel_map(snapshot@),
                decides(self.tiles@, old_pixels, new_pixels),
                forall|a: int|
                    0 <= a < index ==> held(pixel_map(cache@), (#[trigger] self.tiles@[a]).key)
                        == held(new_pixels, self.tiles@[a].key),
                forall|a: int|
                    index <= a < self.tiles@.len() ==> held(
                        pixel_map(cache@),
                        (#[trigger] self.tiles@[a]).key,
                    ) == held(old_pixels, self.tiles@[a].key),
                forall|key: TileKey|
                    pixel_map(cache@).dom().contains(key) ==> old_pixels.dom().contains(key)
                        || new_pixels.dom().contains(key),
            decreases self.tiles@.len() - index,
        {
            let change = self.tiles[index];
            let ghost before = cache@;
            if change.changed {
                match snapshot.get(change.key) {
                    Some(pixels) => {
                        cache.insert(change.key, copy_pixels(pixels));
                    },
                    None => {
                        cache.remove(change.key);
                    },
                }
            }
            proof {
                assert forall|other: TileKey| other != change.key implies held(
                    pixel_map(cache@),
                    other,
                ) == held(pixel_map(before), other) by {}
                assert forall|a: int| 0 <= a < self.tiles@.len() && a != index implies (
                #[trigger] self.tiles@[a]).key != change.key by {
                    if a < index {
                        assert(crate::tile_map::key_before(
                            self.tiles@[a].key,
                            self.tiles@[index as int].key,
                        ));
                    } else {
                        assert(crate::tile_map::key_before(
                            self.tiles@[index as int].key,
                            self.tiles@[a].key,
                        ));
                    }
                }
                assert(held(pixel_map(cache@), change.key) == held(new_pixels, change.key));
            }
            index = index + 1;
        }
        proof {
            let result = pixel_map(cache@);
            assert forall|key: TileKey| #[trigger] result.dom().contains(key)
                <==> new_pixels.dom().contains(key) by {
                if result.dom().contains(key) || new_pixels.dom().contains(key) {
                    assert(decided(self.tiles@, key));
                    let a = choose|a: int|
                        0 <= a < self.tiles@.len() && (#[trigger] self.tiles@[a]).key == key;
                    assert(held(result, self.tiles@[a].key) == held(new_pixels, self.tiles@[a].key));
                }
            }
            assert forall|key: TileKey| #[trigger] result.dom().contains(key) implies result[key]
                == new_pixels[key] by {
                assert(decided(self.tiles@, key));
                let a = choose|a: int|
                    0 <= a < self.tiles@.len() && (#[trigger] self.tiles@[a]).key == key;
                assert(held(result, self.tiles@[a].key) == held(new_pixels, self.tiles@[a].key));
            }
            assert(result =~= new_pixels);
        }
    }
}

proof fn lemma_upload_list_members(tiles: Seq<TileChange>, rebuild_surfaces: bool)
    ensures
        forall|i: int|
            0 <= i < tiles.len() && (rebuild_surfaces || (#[trigger] tiles[i]).changed)
                ==> upload_list(tiles, rebuild_surfaces).contains(tiles[i].key),
    decreases tiles.len(),
{
    if tiles.len() > 0 {
        let front = tiles.drop_last();
        lemma_upload_list_members(front, rebuild_surfaces);
        let whole = upload_list(tiles, rebuild_surfaces);
        let shorter = upload_list(front, rebuild_surfaces);
        assert forall|i: int|
            0 <= i < tiles.len() && (rebuild_surfaces || (#[trigger] tiles[i]).changed) implies
            whole.contains(tiles[i].key) by {
            if i < front.len() {
                assert(front[i] == tiles[i]);
                assert(shorter.contains(tiles[i].key));
                let place = choose|k: int| 0 <= k < shorter.len() && shorter[k] == tiles[i].key;
                assert(whole[place] == tiles[i].key);
            } else {
                assert(whole[whole.len() - 1] == tiles[i].key);
            }
        }
    }
}

/// No changed tile misses its upload, and after a rebuild none does at all.
pub proof fn every_changed_tile_is_uploaded(
    tiles: Seq<TileChange>,
    cache: Map<TileKey, Seq<u8>>,
    snapshot: Map<TileKey, Seq<u8>>,
    key: TileKey,
    rebuild_surfaces: bool,
)
    requires
        decides(tiles, cache, snapshot),
        held(cache, key) != held(snapshot, key) || rebuild_surfaces && snapshot.dom().contains(key),
    ensures
        upload_list(tiles, rebuild_surfaces).contains(key),
{
    lemma_upload_list_members(tiles, rebuild_surfaces);
    assert(cache.dom().contains(key) || snapshot.dom().contains(key));
    assert(decided(tiles, key));
    let i = choose|i: int| 0 <= i < tiles.len() && (#[trigger] tiles[i]).key == key;
    assert(rebuild_surfaces || tiles[i].changed);
}

} // verus!
