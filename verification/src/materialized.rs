//! Closed strokes coming back from the writer: exact pixels for the cache and
//! uploads that replace the preview.
use std::collections::VecDeque;

use vstd::prelude::*;

use crate::document::LayerId;
use crate::frame_trace::MaterializedTrace;
use crate::tile_map::{TileEntry, TileKey, TileMap};

verus! {

/// A stroke that the writer has saved. `history` is the host's history state
/// after it, where that changed.
#[derive(Clone, Debug, PartialEq, Eq)]
pub struct ClosedStrokeCompletion<H> {
    pub ordinal: u64,
    pub stroke_generation: u64,
    pub tiles: Vec<TileEntry<Vec<u8>>>,
    pub history: Option<H>,
}

/// Upload work of a saved stroke; its pixels are in the cache already.
#[derive(Clone, Debug, PartialEq, Eq)]
pub struct DeferredTileUpload {
    pub ordinal: u64,
    pub stroke_generation: u64,
    pub tiles: Vec<TileEntry<Vec<u8>>>,
}

/// The cache after these tiles were put into it.
pub open spec fn with_tiles(cache: Map<TileKey, Seq<u8>>, tiles: Seq<TileEntry<Vec<u8>>>) -> Map<
    TileKey,
    Seq<u8>,
>
    decreases tiles.len(),
{
    if tiles.len() == 0 {
        cache
    } else {
        with_tiles(cache, tiles.drop_last()).insert(tiles.last().key, tiles.last().value@)
    }
}

/// The cache after all completions, oldest first.
pub open spec fn with_completions<H>(
    cache: Map<TileKey, Seq<u8>>,
    completed: Seq<ClosedStrokeCompletion<H>>,
) -> Map<TileKey, Seq<u8>>
    decreases completed.len(),
{
    if completed.len() == 0 {
        cache
    } else {
        with_tiles(with_completions(cache, completed.drop_last()), completed.last().tiles@)
    }
}

/// The history state of the last completion that brought one.
pub open spec fn latest_history<H>(completed: Seq<ClosedStrokeCompletion<H>>) -> Option<H>
    decreases completed.len(),
{
    if completed.len() == 0 {
        None
    } else {
        match completed.last().history {
            Some(history) => Some(history),
            None => latest_history(completed.drop_last()),
        }
    }
}

/// The same stroke, as upload work.
pub open spec fn upload_of<H>(completion: ClosedStrokeCompletion<H>) -> DeferredTileUpload {
    DeferredTileUpload {
        ordinal: completion.ordinal,
        stroke_generation: completion.stroke_generation,
        tiles: completion.tiles,
    }
}

/// The counters after copying these tiles.
pub open spec fn cloning_tiles(trace: MaterializedTrace, tiles: Seq<TileEntry<Vec<u8>>>) -> MaterializedTrace
    decreases tiles.len(),
{
    if tiles.len() == 0 {
        trace
    } else {
        cloning_tiles(trace, tiles.drop_last()).cloning(tiles.last().value@.len() as usize)
    }
}

pub open spec fn cloning_completions<H>(
    trace: MaterializedTrace,
    completed: Seq<ClosedStrokeCompletion<H>>,
) -> MaterializedTrace
    decreases completed.len(),
{
    if completed.len() == 0 {
        trace
    } else {
        cloning_tiles(cloning_completions(trace, completed.drop_last()), completed.last().tiles@)
    }
}

fn adopt_tiles(
    cpu_tiles: &mut TileMap<Vec<u8>>,
    tiles: &Vec<TileEntry<Vec<u8>>>,
    trace: &mut MaterializedTrace,
)
    requires
        old(cpu_tiles).wf(),
    ensures
        final(cpu_tiles).wf(),
        crate::tiles::pixel_map(final(cpu_tiles)@) == with_tiles(
            crate::tiles::pixel_map(old(cpu_tiles)@),
            tiles@,
        ),
        *final(trace) == cloning_tiles(*old(trace), tiles@),
{
    let ghost start = crate::tiles::pixel_map(cpu_tiles@);
    let ghost start_trace = *trace;
    let mut index: usize = 0;
    assert(tiles@.take(0) =~= Seq::empty());
    while index < tiles.len()
        invariant
            index <= tiles@.len(),
            cpu_tiles.wf(),
            crate::tiles::pixel_map(cpu_tiles@) == with_tiles(start, tiles@.take(index as int)),
            *trace == cloning_tiles(start_trace, tiles@.take(index as int)),
        decreases tiles@.len() - index,
    {
        assert(tiles@.take(index + 1).drop_last() =~= tiles@.take(index as int));
        let ghost before = crate::tiles::pixel_map(cpu_tiles@);
        let entry = &tiles[index];
        trace.add_cpu_clone(entry.value.len());
        let pixels = entry.value.clone();
        assert(pixels@ =~= entry.value@);
        cpu_tiles.insert(entry.key, pixels);
        assert(crate::tiles::pixel_map(cpu_tiles@) =~= before.insert(entry.key, entry.value@));
        index = index + 1;
    }
    assert(tiles@.take(index as int) =~= tiles@);
}

/// Adopts every saved stroke, even where a newer preview still hides it. Its
/// upload follows the older ones: a new stroke uploaded first could lose its
/// guard and be overwritten by an older one afterwards.
pub fn adopt_materialized_completions<H>(
    cpu_tiles: &mut TileMap<Vec<u8>>,
    pending_uploads: &mut Vec<DeferredTileUpload>,
    completed: VecDeque<ClosedStrokeCompletion<H>>,
    trace: &mut MaterializedTrace,
) -> (r: Option<H>)
    requires
        old(cpu_tiles).wf(),
    ensures
        final(cpu_tiles).wf(),
        crate::tiles::pixel_map(final(cpu_tiles)@) == with_completions(
            crate::tiles::pixel_map(old(cpu_tiles)@),
            completed@,
        ),
        final(pending_uploads)@ == old(pending_uploads)@ + completed@.map_values(
            |completion: ClosedStrokeCompletion<H>| upload_of(completion),
        ),
        r == latest_history(completed@),
        *final(trace) == cloning_completions(*old(trace), completed@),
{
    let ghost all = completed@;
    let ghost start = crate::tiles::pixel_map(cpu_tiles@);
    let ghost start_uploads = pending_uploads@;
    let ghost start_trace = *trace;
    let ghost mut count: int = 0;
    let mut rest = completed;
    let mut latest: Option<H> = None;
    assert(all.take(0) =~= Seq::empty());
    assert(all.skip(0) =~= all);
    assert(pending_uploads@ =~= start_uploads + all.take(0).map_values(
        |completion: ClosedStrokeCompletion<H>| upload_of(completion),
    ));
    loop
        invariant
            0 <= count <= all.len(),
            rest@ == all.skip(count),
            cpu_tiles.wf(),
            crate::tiles::pixel_map(cpu_tiles@) == with_completions(start, all.take(count)),
            pending_uploads@ == start_uploads + all.take(count).map_values(
                |completion: ClosedStrokeCompletion<H>| upload_of(completion),
            ),
            latest == latest_history(all.take(count)),
            *trace == cloning_completions(start_trace, all.take(count)),
        ensures
            count == all.len(),
        decreases all.len() - count,
    {
        let ghost before = rest@;
        let completion = match rest.pop_front() {
            Some(completion) => completion,
            None => {
                break ;
            },
        };
        proof {
            assert(completion == all[count]);
            assert(rest@ =~= all.skip(count + 1));
            assert(all.take(count + 1).drop_last() =~= all.take(count));
            assert(all.take(count + 1).last() == completion);
        }
        adopt_tiles(cpu_tiles, &completion.tiles, trace);
        if completion.history.is_some() {
            latest = completion.history;
        }
        let ghost uploads = pending_uploads@;
        pending_uploads.push(
            DeferredTileUpload {
                ordinal: completion.ordinal,
                stroke_generation: completion.stroke_generation,
                tiles: completion.tiles,
            },
        );
        proof {
            assert(pending_uploads@ =~= start_uploads + all.take(count + 1).map_values(
                |completion: ClosedStrokeCompletion<H>| upload_of(completion),
            ));
            count = count + 1;
        }
    }
    assert(all.take(count) =~= all);
    latest
}

/// What happens to one tile of a saved stroke.
#[derive(Clone, Copy, Debug, PartialEq, Eq, Structural)]
pub enum UploadDecision {
    /// A newer preview is on the tile; its own stroke will replace it.
    Superseded,
    /// The layer previews a stroke; the tile waits.
    Wait,
    Upload,
}

/// What the scene made of an upload.
#[derive(Clone, Copy, Debug, PartialEq, Eq, Structural)]
pub enum UploadOutcome {
    Uploaded,
    LiveStrokeActive,
    Failed,
}

pub open spec fn upload_decision(
    latest: Map<TileKey, u64>,
    active_layer: Option<LayerId>,
    key: TileKey,
    generation: u64,
) -> UploadDecision {
    if latest.dom().contains(key) && latest[key] > generation {
        UploadDecision::Superseded
    } else if active_layer == Some(key.layer) {
        UploadDecision::Wait
    } else {
        UploadDecision::Upload
    }
}

pub fn decide_upload(
    latest: &TileMap<u64>,
    active_layer: Option<LayerId>,
    key: TileKey,
    generation: u64,
) -> (r: UploadDecision)
    requires
        latest.wf(),
    ensures
        r == upload_decision(latest@, active_layer, key, generation),
{
    if let Some(newest) = latest.get(key) {
        if *newest > generation {
            return UploadDecision::Superseded;
        }
    }
    if active_layer == Some(key.layer) {
        UploadDecision::Wait
    } else {
        UploadDecision::Upload
    }
}

/// The shown previews after an upload: the tile of this very stroke is no
/// longer one.
pub open spec fn after_upload(
    latest: Map<TileKey, u64>,
    key: TileKey,
    generation: u64,
    outcome: UploadOutcome,
) -> Map<TileKey, u64> {
    if outcome is Uploaded && latest.dom().contains(key) && latest[key] == generation {
        latest.remove(key)
    } else {
        latest
    }
}

/// Takes the outcome of an upload. Returns whether the tile has to wait.
pub fn upload_finished(
    latest: &mut TileMap<u64>,
    key: TileKey,
    generation: u64,
    outcome: UploadOutcome,
) -> (waits: bool)
    requires
        old(latest).wf(),
    ensures
        final(latest).wf(),
        waits == (outcome is LiveStrokeActive),
        final(latest)@ == after_upload(old(latest)@, key, generation, outcome),
{
    if outcome == UploadOutcome::Uploaded {
        let retired = match latest.get(key) {
            Some(newest) => *newest == generation,
            None => false,
        };
        if retired {
            latest.remove(key);
        }
    }
    outcome == UploadOutcome::LiveStrokeActive
}

/// The part of an upload that has to wait, if any does.
pub fn remaining_upload(
    ordinal: u64,
    stroke_generation: u64,
    remaining: Vec<TileEntry<Vec<u8>>>,
) -> (r: Option<DeferredTileUpload>)
    ensures
        remaining@.len() == 0 ==> r is None,
        remaining@.len() > 0 ==> r == Some(
            DeferredTileUpload { ordinal, stroke_generation, tiles: remaining },
        ),
{
    if remaining.len() == 0 {
        None
    } else {
        Some(DeferredTileUpload { ordinal, stroke_generation, tiles: remaining })
    }
}

/// An older saved stroke never overwrites the preview of a newer one.
pub proof fn older_strokes_never_cover_newer_previews(
    latest: Map<TileKey, u64>,
    active_layer: Option<LayerId>,
    key: TileKey,
    generation: u64,
)
    requires
        upload_decision(latest, active_layer, key, generation) is Upload,
    ensures
        latest.dom().contains(key) ==> latest[key] <= generation,
        active_layer != Some(key.layer),
{
}

proof fn lemma_tiles_stay(cache: Map<TileKey, Seq<u8>>, tiles: Seq<TileEntry<Vec<u8>>>)
    ensures
        forall|key: TileKey|
            cache.dom().contains(key) ==> #[trigger] with_tiles(cache, tiles).dom().contains(key),
        forall|i: int|
            0 <= i < tiles.len() ==> with_tiles(cache, tiles).dom().contains(
                (#[trigger] tiles[i]).key,
            ),
    decreases tiles.len(),
{
    if tiles.len() > 0 {
        lemma_tiles_stay(cache, tiles.drop_last());
        assert forall|key: TileKey| cache.dom().contains(key) implies #[trigger] with_tiles(
            cache,
            tiles,
        ).dom().contains(key) by {
            assert(with_tiles(cache, tiles.drop_last()).dom().contains(key));
        }
        assert forall|i: int| 0 <= i < tiles.len() implies with_tiles(cache, tiles).dom().contains(
            (#[trigger] tiles[i]).key,
        ) by {
            if i < tiles.len() - 1 {
                assert(tiles.drop_last()[i] == tiles[i]);
            }
        }
    }
}

/// Adopting saved strokes never loses a tile, and the last stroke that wrote a
/// tile decides its pixels.
pub proof fn adoption_keeps_every_tile(
    cache: Map<TileKey, Seq<u8>>,
    tiles: Seq<TileEntry<Vec<u8>>>,
    key: TileKey,
)
    ensures
        cache.dom().contains(key) ==> with_tiles(cache, tiles).dom().contains(key),
        tiles.len() > 0 ==> with_tiles(cache, tiles)[tiles.last().key] == tiles.last().value@,
{
    lemma_tiles_stay(cache, tiles);
}

} // verus!
