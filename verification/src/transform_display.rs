//! What the display shows while a transform is drafted. The cache stays at the
//! last committed artwork until a draft is committed.
use vstd::prelude::*;

use crate::layer_tree::LayerTree;
use crate::tile_map::{TileKey, TileMap};
use crate::tiles::CpuSnapshotAdoption;

verus! {

pub type Tiles = TileMap<Vec<u8>>;

/// One of the three holds the tile.
pub open spec fn held_somewhere(
    cache: Map<TileKey, Vec<u8>>,
    shown: Option<Map<TileKey, Vec<u8>>>,
    outcome: Map<TileKey, Vec<u8>>,
    key: TileKey,
) -> bool {
    ||| cache.dom().contains(key)
    ||| shown matches Some(shown) && shown.dom().contains(key)
    ||| outcome.dom().contains(key)
}

pub open spec fn shown_map(shown: Option<&Tiles>) -> Option<Map<TileKey, Vec<u8>>> {
    match shown {
        Some(shown) => Some(shown@),
        None => None,
    }
}

/// Keys in ascending order, each once.
pub open spec fn keys_rise(keys: Seq<TileKey>) -> bool {
    forall|i: int, j: int|
        0 <= i < j < keys.len() ==> crate::tile_map::key_before(
            #[trigger] keys[i],
            #[trigger] keys[j],
        )
}

pub open spec fn in_tree(tree: LayerTree, key: TileKey) -> bool {
    crate::layer_tree::raster_named(tree.rasters(), key.layer) is Some
}

/// What the scene could not take of an outcome.
#[derive(Clone, Copy, Debug, PartialEq, Eq, Structural)]
pub enum DisplayFailure {
    Tree,
    Pixels,
}

impl DisplayFailure {
    /// The workspace error, before the scene's own words.
    pub fn lead(self) -> (r: &'static str)
        ensures
            r@ == (match self {
                DisplayFailure::Tree => "Transform display tree: "@,
                DisplayFailure::Pixels => "Transform display pixels: "@,
            }),
    {
        match self {
            DisplayFailure::Tree => "Transform display tree: ",
            DisplayFailure::Pixels => "Transform display pixels: ",
        }
    }
}

/// Collects the keys of a map.
fn add_keys(keys: &mut TileMap<()>, tiles: &Tiles)
    requires
        old(keys).wf(),
        tiles.wf(),
    ensures
        final(keys).wf(),
        forall|key: TileKey| #[trigger]
            final(keys)@.dom().contains(key) <==> old(keys)@.dom().contains(key)
                || tiles@.dom().contains(key),
{
    let mut index: usize = 0;
    while index < tiles.len()
        invariant
            index <= tiles.ordered().len(),
            keys.wf(),
            tiles.wf(),
            forall|key: TileKey|
                old(keys)@.dom().contains(key) ==> #[trigger] keys@.dom().contains(key),
            forall|i: int|
                0 <= i < index ==> keys@.dom().contains((#[trigger] tiles.ordered()[i]).key),
            forall|key: TileKey| #[trigger]
                keys@.dom().contains(key) ==> old(keys)@.dom().contains(key)
                    || tiles@.dom().contains(key),
        decreases tiles.ordered().len() - index,
    {
        let key = tiles.key_at(index);
        keys.insert(key, ());
        index = index + 1;
    }
    proof {
        assert forall|key: TileKey| tiles@.dom().contains(key) implies #[trigger]
            keys@.dom().contains(key) by {
            let place = tiles.lemma_key_has_place(key);
            assert(keys@.dom().contains(tiles.ordered()[place].key));
        }
    }
}

/// The tiles that the outcome of a transform command has to upload, in key
/// order: every tile that is cached, shown or part of the outcome, on the
/// rasters of the tree.
pub fn transform_upload_keys(
    cache: &Tiles,
    shown: Option<&Tiles>,
    outcome: &Tiles,
    tree: &LayerTree,
) -> (r: Vec<TileKey>)
    requires
        cache.wf(),
        shown matches Some(tiles) ==> tiles.wf(),
        outcome.wf(),
    ensures
        keys_rise(r@),
        forall|key: TileKey| #[trigger]
            r@.contains(key) <==> held_somewhere(cache@, shown_map(shown), outcome@, key) && in_tree(
                *tree,
                key,
            ),
{
    let mut keys: TileMap<()> = TileMap::new();
    add_keys(&mut keys, cache);
    if let Some(shown) = shown {
        add_keys(&mut keys, shown);
    }
    add_keys(&mut keys, outcome);
    let mut uploads: Vec<TileKey> = Vec::new();
    let mut index: usize = 0;
    while index < keys.len()
        invariant
            index <= keys.ordered().len(),
            keys.wf(),
            keys_rise(uploads@),
            forall|i: int, j: int|
                0 <= i < uploads@.len() && index <= j < keys.ordered().len()
                    ==> crate::tile_map::key_before(
                    #[trigger] uploads@[i],
                    (#[trigger] keys.ordered()[j]).key,
                ),
            forall|i: int|
                0 <= i < uploads@.len() ==> keys@.dom().contains(#[trigger] uploads@[i]) && in_tree(
                    *tree,
                    uploads@[i],
                ),
            forall|i: int|
                0 <= i < index && in_tree(*tree, (#[trigger] keys.ordered()[i]).key)
                    ==> uploads@.contains(keys.ordered()[i].key),
        decreases keys.ordered().len() - index,
    {
        let key = keys.key_at(index);
        let ghost before = uploads@;
        if tree.raster(key.layer).is_some() {
            uploads.push(key);
            assert(uploads@[before.len() as int] == key);
        }
        proof {
            assert forall|i: int, j: int|
                0 <= i < uploads@.len() && index + 1 <= j < keys.ordered().len() implies
                crate::tile_map::key_before(
                #[trigger] uploads@[i],
                (#[trigger] keys.ordered()[j]).key,
            ) by {
                keys.lemma_keys_rise(index as int, j);
            }
            assert forall|i: int|
                0 <= i < index + 1 && in_tree(
                    *tree,
                    (#[trigger] keys.ordered()[i]).key,
                ) implies uploads@.contains(keys.ordered()[i].key) by {
                if i < index {
                    let place = choose|k: int|
                        0 <= k < before.len() && before[k] == keys.ordered()[i].key;
                    assert(uploads@[place] == keys.ordered()[i].key);
                }
            }
        }
        index = index + 1;
    }
    proof {
        assert forall|key: TileKey| #[trigger]
            uploads@.contains(key) <==> held_somewhere(
                cache@,
                shown_map(shown),
                outcome@,
                key,
            ) && in_tree(*tree, key) by {
            assert(keys@.dom().contains(key) <==> held_somewhere(
                cache@,
                shown_map(shown),
                outcome@,
                key,
            ));
            if keys@.dom().contains(key) && in_tree(*tree, key) {
                let place = keys.lemma_key_has_place(key);
                assert(in_tree(*tree, keys.ordered()[place].key));
            }
        }
    }
    uploads
}

/// The cache after the outcome of a transform command.
pub open spec fn cache_after(
    cache: Map<TileKey, Seq<u8>>,
    outcome: Map<TileKey, Seq<u8>>,
    committed: bool,
) -> Map<TileKey, Seq<u8>> {
    if committed { outcome } else { cache }
}

/// Adopts the outcome of a transform command into the cache. Neither a draft
/// nor its cancellation is artwork.
pub fn adopt_transform(cache: &mut Tiles, outcome: &Tiles, committed: bool)
    requires
        old(cache).wf(),
        outcome.wf(),
    ensures
        final(cache).wf(),
        crate::tiles::pixel_map(final(cache)@) == cache_after(
            crate::tiles::pixel_map(old(cache)@),
            crate::tiles::pixel_map(outcome@),
            committed,
        ),
        !committed ==> final(cache)@ == old(cache)@,
{
    if committed {
        let adoption = CpuSnapshotAdoption::new(cache, outcome);
        adoption.apply(cache, outcome);
    }
}

/// The tiles of a draft stay to be replaced; those of its end are artwork.
pub fn display_after(outcome: Tiles, active: bool) -> (r: Option<Tiles>)
    ensures
        r == (if active { Some(outcome) } else { None }),
{
    if active {
        Some(outcome)
    } else {
        None
    }
}

/// The cache after a row of outcomes.
pub open spec fn cache_after_all(
    cache: Map<TileKey, Seq<u8>>,
    outcomes: Seq<(Map<TileKey, Seq<u8>>, bool)>,
) -> Map<TileKey, Seq<u8>>
    decreases outcomes.len(),
{
    if outcomes.len() == 0 {
        cache
    } else {
        cache_after(
            cache_after_all(cache, outcomes.drop_last()),
            outcomes.last().0,
            outcomes.last().1,
        )
    }
}

/// However many drafts are shown, the cache stays as it was until one of them
/// is committed.
pub proof fn drafts_leave_the_cache(
    cache: Map<TileKey, Seq<u8>>,
    outcomes: Seq<(Map<TileKey, Seq<u8>>, bool)>,
)
    requires
        forall|i: int| 0 <= i < outcomes.len() ==> !(#[trigger] outcomes[i]).1,
    ensures
        cache_after_all(cache, outcomes) == cache,
    decreases outcomes.len(),
{
    if outcomes.len() > 0 {
        assert forall|i: int| 0 <= i < outcomes.drop_last().len() implies !(
        #[trigger] outcomes.drop_last()[i]).1 by {
            assert(outcomes.drop_last()[i] == outcomes[i]);
        }
        drafts_leave_the_cache(cache, outcomes.drop_last());
        assert(!outcomes[outcomes.len() - 1].1);
    }
}

/// No tile that the outcome changes misses its upload, whether the display
/// showed the cache or an earlier draft.
pub proof fn every_drafted_tile_is_uploaded(
    cache: Map<TileKey, Vec<u8>>,
    shown: Option<Map<TileKey, Vec<u8>>>,
    outcome: Map<TileKey, Vec<u8>>,
    tree: LayerTree,
    uploads: Seq<TileKey>,
    key: TileKey,
)
    requires
        forall|other: TileKey| #[trigger]
            uploads.contains(other) <==> held_somewhere(cache, shown, outcome, other) && in_tree(
                tree,
                other,
            ),
        in_tree(tree, key),
        ({
            let displayed = match shown {
                Some(shown) => shown,
                None => cache,
            };
            crate::tiles::pixels_or_blank(crate::tiles::pixel_map(displayed), key)
                != crate::tiles::pixels_or_blank(crate::tiles::pixel_map(outcome), key)
        }),
    ensures
        uploads.contains(key),
{
}

} // verus!
