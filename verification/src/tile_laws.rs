//! What tiles hold: their order, the white of a page, copies of a layer, the
//! previews of live strokes, and which tiles an adoption uploads.
use vstd::prelude::*;

use crate::commits::closed_tiles;
use crate::document::{CanvasSpec, LayerId, Rgba};
use crate::frame_trace::MaterializedTrace;
use crate::gpu_ops::{drawn_on, GpuAction, GpuState, LivePreview, Painter, PreviewState};
use crate::layer_command::LayerPixelChange;
use crate::materialized::{DeferredTileUpload, UploadOutcome};
use crate::page_tiles::{
    duplicated, on_layer, tile_block, tile_row, tiles_across, white_layer, SignedDirtyRect,
};
use crate::stroke::{GpuOp, GpuStrokeOp, LiveStrokeDisposition};
use crate::stroke_pipeline::StrokePipeline;
use crate::tile_map::{key_before, without_value, TileEntry, TileKey, TileMap};
use crate::tiles::{blank_tile, pixels_or_blank, unchanged_count, upload_list, TileChange};
use crate::uploads::{PassState, Shown, UploadPass};

verus! {

/// Tile keys are in one order: of two different ones exactly one is before the
/// other, and the order carries on.
pub proof fn tile_keys_are_ordered(a: TileKey, b: TileKey, c: TileKey)
    ensures
        !key_before(a, a),
        a != b ==> key_before(a, b) || key_before(b, a),
        !(key_before(a, b) && key_before(b, a)),
        key_before(a, b) && key_before(b, c) ==> key_before(a, c),
        a.layer.0 < b.layer.0 ==> key_before(a, b),
{
}

/// Dropping a value drops every tile that holds it, and no other.
pub proof fn dropped_values_are_gone(map: Map<TileKey, u64>, value: u64, key: TileKey)
    ensures
        without_value(map, value).dom().contains(key) <==> map.dom().contains(key) && map[key]
            != value,
        without_value(map, value).dom().contains(key) ==> without_value(map, value)[key]
            == map[key],
{
}

/// Drawing on tiles makes the stroke the latest on each of them, and leaves the
/// others as they were.
pub proof fn drawn_tiles_show_the_stroke(
    latest: Map<TileKey, u64>,
    keys: Seq<TileKey>,
    generation: u64,
    key: TileKey,
)
    ensures
        ({
            let after = drawn_on(latest, keys, generation);
            &&& keys.contains(key) ==> after.dom().contains(key) && after[key] == generation
            &&& !keys.contains(key) ==> (after.dom().contains(key) <==> latest.dom().contains(key))
            &&& !keys.contains(key) && latest.dom().contains(key) ==> after[key] == latest[key]
        }),
    decreases keys.len(),
{
    if keys.len() > 0 {
        let before = keys.drop_last();
        drawn_tiles_show_the_stroke(latest, before, generation, key);
        if keys.contains(key) {
            let i = choose|i: int| 0 <= i < keys.len() && keys[i] == key;
            if i < keys.len() - 1 {
                assert(before[i] == key);
            }
        }
        if before.contains(key) {
            let i = choose|i: int| 0 <= i < before.len() && before[i] == key;
            assert(keys[i] == key);
        }
        assert(keys[keys.len() - 1] == keys.last());
    }
}

/// The scene draws the dabs of the stroke it previews: an eraser erases, a
/// locked transparency is kept, and any other stroke paints. It finishes that
/// stroke as asked.
pub proof fn previewed_strokes_are_drawn<D>(
    state: PreviewState,
    live: LivePreview,
    dabs: Seq<D>,
    disposition: LiveStrokeDisposition,
)
    requires
        state.live == Some(live),
    ensures
        state.action(GpuOp::Dabs { generation: live.generation, dabs }) == GpuAction::ApplyDabs(
            if live.eraser {
                Painter::Eraser
            } else if live.alpha_locked {
                Painter::AlphaLocked
            } else {
                Painter::Normal
            },
        ),
        state.action(GpuOp::Finish::<D> { generation: live.generation, disposition })
            == GpuAction::Finish(disposition),
{
}

/// A new stroke is previewed on its layer in its colour; an eraser has none.
pub proof fn new_strokes_are_previewed<D>(
    state: PreviewState,
    generation: u64,
    layer: LayerId,
    color: Rgba,
    alpha_locked: bool,
)
    ensures
        state.action(
            GpuOp::Replace::<D> { generation, layer, color, eraser: false, alpha_locked },
        ) == (GpuAction::Replace { layer, paint_color: Some(color) }),
        state.action(
            GpuOp::Replace::<D> { generation, layer, color, eraser: true, alpha_locked },
        ) == (GpuAction::Replace { layer, paint_color: None }),
{
}

/// A replaced preview is the new stroke; tiles of a stroke that was dropped for
/// it show it no longer, and those of a kept one still do.
pub proof fn replaced_previews_hide_dropped_strokes(
    state: PreviewState,
    next: LivePreview,
    key: TileKey,
)
    ensures
        state.replaced(next, true).live == Some(next),
        state.replaced(next, false).live == Some(next),
        state.replaced(next, false).latest == state.latest,
        state.live matches Some(previous) ==> (state.replaced(next, true).latest.dom().contains(key)
            <==> state.latest.dom().contains(key) && state.latest[key] != previous.generation),
        state.live is None ==> state.replaced(next, true).latest == state.latest,
        state.replaced(next, true).batches == state.batches,
{
}

/// A finished stroke is previewed no longer; its tiles stay where it was kept.
pub proof fn finished_strokes_leave_the_preview(
    state: PreviewState,
    generation: u64,
    disposition: LiveStrokeDisposition,
    key: TileKey,
)
    ensures
        state.finished(generation, disposition).live is None,
        disposition is Commit ==> state.finished(generation, disposition).latest == state.latest,
        disposition is Cancel ==> (state.finished(
            generation,
            disposition,
        ).latest.dom().contains(key) <==> state.latest.dom().contains(key) && state.latest[key]
            != generation),
        state.finished(generation, disposition).batches == state.batches,
{
}

/// A failed scene previews nothing, and no tile of the stroke it failed on
/// counts; a forgotten preview hides no tile at all.
pub proof fn failed_scenes_hide_nothing(
    state: PreviewState,
    generation: u64,
    had_token: bool,
    key: TileKey,
)
    ensures
        state.failed(generation, had_token).live is None,
        state.live matches Some(live) ==> (state.failed(
            generation,
            had_token,
        ).latest.dom().contains(key) <==> state.latest.dom().contains(key) && state.latest[key]
            != live.generation),
        state.live is None && had_token ==> (state.failed(
            generation,
            had_token,
        ).latest.dom().contains(key) <==> state.latest.dom().contains(key) && state.latest[key]
            != generation),
        state.live is None && !had_token ==> state.failed(generation, had_token).latest
            == state.latest,
        !state.forgotten().latest.dom().contains(key),
        state.forgotten().live == state.live,
{
}

/// Drawn dabs make the stroke the latest on the tiles that they touched, and
/// count as one batch where there were any.
pub proof fn drawn_dabs_count_as_a_batch(
    generation: u64,
    dirty: Option<SignedDirtyRect>,
    dab_count: usize,
)
    ensures
        forall|state: &mut GpuState|
            #[trigger] call_ensures(
                GpuState::dabs_applied,
                (state, generation, dirty, dab_count),
                (),
            ) ==> {
                &&& final(state)@.live == state@.live
                &&& dirty is None ==> final(state)@.latest == state@.latest
                &&& dab_count == 0 ==> final(state)@.batches == state@.batches
                &&& dab_count > 0 && state@.batches < u64::MAX ==> final(state)@.batches
                    == state@.batches + 1
            },
{
}

/// Handing the operations over hands over all of them, in order, and starts a
/// new list.
pub proof fn operations_are_handed_over_once<P: Copy, D, A>(ops: Vec<GpuStrokeOp<D>>)
    ensures
        forall|pipeline: &mut StrokePipeline<P, D, A>|
            #[trigger] call_ensures(
                StrokePipeline::<P, D, A>::take_gpu_ops,
                (pipeline,),
                ops,
            ) ==> {
                &&& crate::stroke::gpu_view(ops@) == pipeline@.gpu_ops
                &&& final(pipeline)@.gpu_ops.len() == 0
                &&& final(pipeline)@.active is Some <==> pipeline@.active is Some
                &&& final(pipeline)@.active matches Some(active) ==> active.samples
                    == pipeline@.active->0.samples && active.generation
                    == pipeline@.active->0.generation
                &&& final(pipeline)@.backlog == pipeline@.backlog
                &&& final(pipeline)@.gesture == pipeline@.gesture
            },
        forall|pipeline: &mut StrokePipeline<P, D, A>|
            #[trigger] call_ensures(
                StrokePipeline::<P, D, A>::quarantine_after_gpu_failure,
                (pipeline,),
                (),
            ) ==> {
                &&& final(pipeline)@.gpu_ops.len() == 0
                &&& final(pipeline)@.recovery.fatal
                &&& final(pipeline)@.backlog == pipeline@.backlog
            },
{
}

/// A tile that is not held is transparent all over; one that is held shows its
/// pixels.
pub proof fn missing_tiles_are_transparent(tiles: Map<TileKey, Seq<u8>>, key: TileKey, i: int)
    requires
        0 <= i < 65_536,
    ensures
        blank_tile().len() == 65_536,
        blank_tile()[i] == 0,
        tiles.dom().contains(key) ==> pixels_or_blank(tiles, key) == tiles[key],
        !tiles.dom().contains(key) ==> pixels_or_blank(tiles, key)[i] == 0,
{
}

/// A saved stroke reports one tile for each of its changes, in order, with the
/// pixels after it.
pub proof fn saved_strokes_report_their_tiles(
    changed: Vec<TileKey>,
    after: TileMap<Vec<u8>>,
    tiles: Vec<TileEntry<Vec<u8>>>,
    at: int,
)
    requires
        call_ensures(closed_tiles, (&changed, &after), tiles),
        0 <= at < changed@.len(),
    ensures
        tiles@.len() == changed@.len(),
        tiles@[at].key == changed@[at],
        after@.dom().contains(changed@[at]) ==> tiles@[at].value@ == after@[changed@[at]]@,
        !after@.dom().contains(changed@[at]) ==> tiles@[at].value@ == blank_tile(),
{
}

/// An upload brings exactly the changed tiles, or every tile where the surfaces
/// were rebuilt; the rest is retained.
pub proof fn uploads_and_retained_make_up_all(tiles: Seq<TileChange>, key: TileKey)
    ensures
        upload_list(tiles, false).len() + unchanged_count(tiles) == tiles.len(),
        upload_list(tiles, true).len() == tiles.len(),
        upload_list(tiles, false).contains(key) <==> exists|i: int|
            0 <= i < tiles.len() && (#[trigger] tiles[i]).key == key && tiles[i].changed,
        forall|i: int|
            0 <= i < tiles.len() ==> #[trigger] upload_list(tiles, true)[i] == tiles[i].key,
    decreases tiles.len(),
{
    if tiles.len() > 0 {
        let before = tiles.drop_last();
        let last = tiles.last();
        uploads_and_retained_make_up_all(before, key);
        let list = upload_list(tiles, false);
        let shorter = upload_list(before, false);
        assert forall|i: int| 0 <= i < tiles.len() implies #[trigger] upload_list(tiles, true)[i]
            == tiles[i].key by {
            if i < before.len() {
                assert(upload_list(before, true)[i] == before[i].key);
            }
        }
        if list.contains(key) {
            let i = choose|i: int| 0 <= i < list.len() && list[i] == key;
            if i < shorter.len() {
                assert(shorter[i] == key);
                let j = choose|j: int|
                    0 <= j < before.len() && (#[trigger] before[j]).key == key
                        && before[j].changed;
                assert(tiles[j] == before[j]);
            } else {
                assert(tiles[tiles.len() - 1].key == key);
            }
        }
        if exists|i: int|
            0 <= i < tiles.len() && (#[trigger] tiles[i]).key == key && tiles[i].changed {
            let i = choose|i: int|
                0 <= i < tiles.len() && (#[trigger] tiles[i]).key == key && tiles[i].changed;
            if i < before.len() {
                assert(before[i].key == key && before[i].changed);
                let j = choose|j: int| 0 <= j < shorter.len() && shorter[j] == key;
                assert(list[j] == key);
            } else {
                assert(list[list.len() - 1] == key);
            }
        }
    }
}

/// The tiles across an extent cover it, and none of them lies beyond it.
pub proof fn tiles_cover_the_extent(extent: u32)
    ensures
        tiles_across(extent) * 128 >= extent,
        tiles_across(extent) > 0 ==> (tiles_across(extent) - 1) * 128 < extent,
        tiles_across(extent) >= 0,
{
}

/// Every pixel of the page is opaque white in the tile that holds it, and every
/// other pixel of these tiles is transparent.
pub proof fn white_covers_the_page(
    canvas: CanvasSpec,
    layer: LayerId,
    px: int,
    py: int,
    channel: int,
)
    requires
        0 <= px < tiles_across(canvas.width_px) * 128,
        0 <= py < tiles_across(canvas.height_px) * 128,
        0 <= channel < 4,
    ensures
        ({
            let key = TileKey { layer, mip: 0, x: (px / 128) as i32, y: (py / 128) as i32 };
            let byte = ((py % 128) * 128 + px % 128) * 4 + channel;
            let white = white_layer(canvas, layer);
            &&& white.dom().contains(key)
            &&& white[key].len() == 65_536
            &&& px < canvas.width_px && py < canvas.height_px ==> white[key][byte] == 255
            &&& !(px < canvas.width_px && py < canvas.height_px) ==> white[key][byte] == 0
        }),
{
    let x = px / 128;
    let y = py / 128;
    let byte = ((py % 128) * 128 + px % 128) * 4 + channel;
    assert(0 <= x < tiles_across(canvas.width_px));
    assert(0 <= y < tiles_across(canvas.height_px));
    assert(x <= 33_554_432 && y <= 33_554_432);
    assert(x * 128 + px % 128 == px);
    assert(y * 128 + py % 128 == py);
    assert(byte / 512 == py % 128);
    assert((byte % 512) / 4 == px % 128);
    assert(0 <= byte < 65_536);
}

/// A copied layer has the tiles of its source and nothing else; the source and
/// every other layer stay as they were.
pub proof fn copies_hold_what_their_source_holds(
    tiles: Map<TileKey, Seq<u8>>,
    source: LayerId,
    destination: LayerId,
    key: TileKey,
)
    requires
        source != destination,
    ensures
        ({
            let after = duplicated(tiles, source, destination);
            let copy = TileKey { layer: destination, ..key };
            let original = TileKey { layer: source, ..key };
            &&& after.dom().contains(copy) <==> tiles.dom().contains(original)
            &&& after.dom().contains(copy) ==> after[copy] == tiles[original]
            &&& key.layer != destination ==> (after.dom().contains(key) <==> tiles.dom().contains(
                key,
            ))
            &&& key.layer != destination && tiles.dom().contains(key) ==> after[key] == tiles[key]
        }),
{
    assert(on_layer(TileKey { layer: destination, ..key }, source) == TileKey {
        layer: source,
        ..key
    });
}

/// The pixels that come with a tree edit are the white of the page on the new
/// layer, or a copy of the source; a copy needs a free destination.
pub proof fn pixel_changes_do_what_they_say(
    tiles: Map<TileKey, Seq<u8>>,
    canvas: CanvasSpec,
    layer: LayerId,
    source: LayerId,
    key: TileKey,
)
    requires
        source != layer,
    ensures
        ({
            let white = LayerPixelChange::White(layer);
            let copy = LayerPixelChange::Duplicate { source, destination: layer };
            &&& white.fits(tiles)
            &&& tiles.dom().contains(key) && key.layer == layer ==> !copy.fits(tiles)
            &&& (forall|other: TileKey| #[trigger]
                tiles.dom().contains(other) ==> other.layer != layer) ==> copy.fits(tiles)
            &&& key.layer != layer && tiles.dom().contains(key) ==> white.applied(
                tiles,
                canvas,
            ).dom().contains(key) && white.applied(tiles, canvas)[key] == tiles[key]
                && copy.applied(tiles, canvas)[key] == tiles[key]
            &&& white_layer(canvas, layer).dom().contains(key) ==> white.applied(
                tiles,
                canvas,
            )[key] == white_layer(canvas, layer)[key]
        }),
{
}

proof fn lemma_row_is_within(layer: LayerId, first: int, count: int, y: int, key: TileKey)
    requires
        tile_row(layer, first, count, y).contains(key),
        i32::MIN <= first,
        first + count - 1 <= i32::MAX,
        i32::MIN <= y <= i32::MAX,
    ensures
        key.layer == layer,
        key.mip == 0,
        first <= key.x < first + count,
        key.y == y,
    decreases count,
{
    if count > 0 {
        let row = tile_row(layer, first, count, y);
        let before = tile_row(layer, first, count - 1, y);
        let i = choose|i: int| 0 <= i < row.len() && row[i] == key;
        if i < before.len() {
            assert(before[i] == key);
            lemma_row_is_within(layer, first, count - 1, y, key);
        }
    }
}

proof fn lemma_block_is_within(
    layer: LayerId,
    first_x: int,
    columns: int,
    first_y: int,
    rows: int,
    key: TileKey,
)
    requires
        tile_block(layer, first_x, columns, first_y, rows).contains(key),
        i32::MIN <= first_x,
        first_x + columns - 1 <= i32::MAX,
        i32::MIN <= first_y,
        first_y + rows - 1 <= i32::MAX,
    ensures
        key.layer == layer,
        key.mip == 0,
        first_x <= key.x < first_x + columns,
        first_y <= key.y < first_y + rows,
    decreases rows,
{
    if rows > 0 {
        let block = tile_block(layer, first_x, columns, first_y, rows);
        let before = tile_block(layer, first_x, columns, first_y, rows - 1);
        let row = tile_row(layer, first_x, columns, first_y + rows - 1);
        let i = choose|i: int| 0 <= i < block.len() && block[i] == key;
        if i < before.len() {
            assert(before[i] == key);
            lemma_block_is_within(layer, first_x, columns, first_y, rows - 1, key);
        } else {
            assert(row[i - before.len()] == key);
            lemma_row_is_within(layer, first_x, columns, first_y + rows - 1, key);
        }
    }
}

/// No tile of the list lies beside the dirty rectangle.
pub proof fn dirty_tiles_touch_the_rectangle(layer: LayerId, dirty: SignedDirtyRect, key: TileKey)
    requires
        dirty.addressable(),
        dirty.min_x < dirty.max_x,
        dirty.min_y < dirty.max_y,
        tile_block(
            layer,
            dirty.first_column(),
            dirty.columns(),
            dirty.first_row(),
            dirty.rows(),
        ).contains(key),
    ensures
        key.layer == layer,
        key.mip == 0,
        key.x * 128 < dirty.max_x,
        key.x * 128 + 128 > dirty.min_x,
        key.y * 128 < dirty.max_y,
        key.y * 128 + 128 > dirty.min_y,
{
    lemma_block_is_within(
        layer,
        dirty.first_column(),
        dirty.columns(),
        dirty.first_row(),
        dirty.rows(),
        key,
    );
}

/// A pass hands out only what can be uploaded, keeps only what waits, and
/// leaves the numbers of its stroke alone.
pub proof fn passes_keep_what_waits(
    pass: PassState,
    shown: Shown,
    trace: MaterializedTrace,
    tile: TileEntry<Vec<u8>>,
)
    ensures
        ({
            let (after, handed, _) = pass.advanced(shown, trace);
            &&& after.ordinal == pass.ordinal
            &&& after.stroke_generation == pass.stroke_generation
            &&& handed matches Some(given) ==> pass.decision(shown, given) is Upload
                && pass.tiles.contains(given)
            &&& handed is None ==> after.tiles.len() == 0
            &&& pass.remaining.is_prefix_of(after.remaining)
            &&& after.remaining.contains(tile) ==> pass.remaining.contains(tile) || pass.decision(
                shown,
                tile,
            ) is Wait
            &&& after.tiles.len() <= pass.tiles.len()
        }),
    decreases pass.tiles.len(),
{
    if pass.tiles.len() > 0 {
        let first = pass.tiles.first();
        let rest = PassState { tiles: pass.tiles.drop_first(), ..pass };
        assert(pass.tiles[0] == first);
        assert forall|other: TileEntry<Vec<u8>>| rest.tiles.contains(other) implies
            pass.tiles.contains(other) by {
            let i = choose|i: int| 0 <= i < rest.tiles.len() && rest.tiles[i] == other;
            assert(pass.tiles[i + 1] == other);
        }
        match pass.decision(shown, first) {
            crate::materialized::UploadDecision::Superseded => {
                passes_keep_what_waits(rest, shown, trace, tile);
            },
            crate::materialized::UploadDecision::Wait => {
                let kept = PassState { remaining: pass.remaining.push(first), ..rest };
                passes_keep_what_waits(kept, shown, trace.deferring(), tile);
                if kept.remaining.contains(tile) {
                    let i = choose|i: int|
                        0 <= i < kept.remaining.len() && kept.remaining[i] == tile;
                    if i < pass.remaining.len() {
                        assert(pass.remaining[i] == tile);
                    }
                }
            },
            crate::materialized::UploadDecision::Upload => {},
        }
    }
}

/// A tile that met a live stroke waits behind the others; what waits at the end
/// is kept for the next frame under the same numbers.
pub proof fn refused_tiles_wait(tile: TileEntry<Vec<u8>>, outcome: UploadOutcome)
    ensures
        forall|
            pass: &mut UploadPass,
            latest: &mut TileMap<u64>,
            trace: &mut MaterializedTrace,
        |
            #[trigger] call_ensures(
                UploadPass::uploaded,
                (pass, latest, tile, outcome, trace),
                (),
            ) ==> {
                &&& outcome is LiveStrokeActive ==> final(pass)@.remaining == pass@.remaining.push(
                    tile,
                )
                &&& !(outcome is LiveStrokeActive) ==> final(pass)@.remaining == pass@.remaining
                &&& final(pass)@.tiles == pass@.tiles
                &&& final(pass)@.ordinal == pass@.ordinal
                &&& final(pass)@.stroke_generation == pass@.stroke_generation
                &&& outcome is Uploaded && latest@.dom().contains(tile.key) && latest@[tile.key]
                    == pass@.stroke_generation ==> !final(latest)@.dom().contains(tile.key)
            },
        forall|pass: UploadPass, left: Option<DeferredTileUpload>|
            #[trigger] call_ensures(UploadPass::finish, (pass,), left) ==> {
                &&& left is Some <==> pass@.remaining.len() > 0
                &&& left matches Some(upload) ==> upload.tiles@ == pass@.remaining
                    && upload.ordinal == pass@.ordinal && upload.stroke_generation
                    == pass@.stroke_generation
            },
        forall|upload: DeferredTileUpload, pass: UploadPass|
            #[trigger] call_ensures(UploadPass::new, (upload,), pass) ==> {
                &&& pass@.tiles == upload.tiles@
                &&& pass@.remaining.len() == 0
                &&& pass@.ordinal == upload.ordinal
                &&& pass@.stroke_generation == upload.stroke_generation
            },
{
}

} // verus!
