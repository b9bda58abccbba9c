//! What the scene shows of saved strokes and of a pick: which tiles replace
//! which, what a patch holds, and when it is read.
use std::collections::VecDeque;

use vstd::prelude::*;

use crate::canvas::{BridgeFacts, CanvasState};
use crate::document::{LayerId, PixelPoint, Rgba};
use crate::frame_trace::MaterializedTrace;
use crate::materialized::{
    adopt_materialized_completions, after_upload, latest_history, remaining_upload, upload_decision,
    with_completions, with_tiles, ClosedStrokeCompletion, DeferredTileUpload, UploadOutcome,
};
use crate::picker::PickerRead;
use crate::picker_preview::{
    patch_bytes, patch_point, pixel_bytes, PickerPreview, PickerWake, PreviewAnswer, PreviewFacts,
    PreviewNext,
};
use crate::tile_map::{TileEntry, TileKey, TileMap};

verus! {

/// A saved stroke replaces exactly the tiles that it names, each by the last
/// pixels it gives for it.
pub proof fn saved_tiles_replace_their_own(
    cache: Map<TileKey, Seq<u8>>,
    tiles: Seq<TileEntry<Vec<u8>>>,
    at: int,
    other: TileKey,
)
    requires
        0 <= at < tiles.len(),
        forall|i: int| at < i < tiles.len() ==> (#[trigger] tiles[i]).key != tiles[at].key,
        forall|i: int| 0 <= i < tiles.len() ==> (#[trigger] tiles[i]).key != other,
    ensures
        with_tiles(cache, tiles).dom().contains(tiles[at].key),
        with_tiles(cache, tiles)[tiles[at].key] == tiles[at].value@,
        with_tiles(cache, tiles).dom().contains(other) <==> cache.dom().contains(other),
        cache.dom().contains(other) ==> with_tiles(cache, tiles)[other] == cache[other],
    decreases tiles.len(),
{
    let before = tiles.drop_last();
    assert forall|i: int| 0 <= i < before.len() implies (#[trigger] before[i]).key != other by {
        assert(before[i] == tiles[i]);
    }
    if at < tiles.len() - 1 {
        assert forall|i: int| at < i < before.len() implies (#[trigger] before[i]).key
            != before[at].key by {
            assert(before[i] == tiles[i]);
        }
        saved_tiles_replace_their_own(cache, before, at, other);
        assert(tiles.last() == tiles[tiles.len() - 1]);
    } else {
        lemma_untouched_tiles_stay(cache, before, other);
    }
}

proof fn lemma_untouched_tiles_stay(
    cache: Map<TileKey, Seq<u8>>,
    tiles: Seq<TileEntry<Vec<u8>>>,
    other: TileKey,
)
    requires
        forall|i: int| 0 <= i < tiles.len() ==> (#[trigger] tiles[i]).key != other,
    ensures
        with_tiles(cache, tiles).dom().contains(other) <==> cache.dom().contains(other),
        cache.dom().contains(other) ==> with_tiles(cache, tiles)[other] == cache[other],
    decreases tiles.len(),
{
    if tiles.len() > 0 {
        let before = tiles.drop_last();
        assert forall|i: int| 0 <= i < before.len() implies (#[trigger] before[i]).key != other by {
            assert(before[i] == tiles[i]);
        }
        lemma_untouched_tiles_stay(cache, before, other);
        assert(tiles[tiles.len() - 1].key != other);
    }
}

/// Saved strokes are adopted oldest first: what a later one writes stands.
pub proof fn later_strokes_stand<H>(
    cache: Map<TileKey, Seq<u8>>,
    earlier: Seq<ClosedStrokeCompletion<H>>,
    last: ClosedStrokeCompletion<H>,
)
    ensures
        with_completions(cache, Seq::<ClosedStrokeCompletion<H>>::empty()) == cache,
        with_completions(cache, earlier.push(last)) == with_tiles(
            with_completions(cache, earlier),
            last.tiles@,
        ),
        last.history is Some ==> latest_history(earlier.push(last)) == last.history,
        last.history is None ==> latest_history(earlier.push(last)) == latest_history(earlier),
        latest_history(Seq::<ClosedStrokeCompletion<H>>::empty()) is None,
{
    assert(earlier.push(last).drop_last() =~= earlier);
}

/// Every adopted stroke waits for its upload, behind the older ones, with its
/// own number and tiles.
pub proof fn adopted_strokes_wait_in_order<H>(
    completed: VecDeque<ClosedStrokeCompletion<H>>,
    history: Option<H>,
    at: int,
)
    requires
        0 <= at < completed@.len(),
    ensures
        forall|
            tiles: &mut TileMap<Vec<u8>>,
            uploads: &mut Vec<DeferredTileUpload>,
            trace: &mut MaterializedTrace,
        |
            #[trigger] call_ensures(
                adopt_materialized_completions::<H>,
                (tiles, uploads, completed, trace),
                history,
            ) ==> {
                let old_len = uploads@.len();
                &&& final(uploads)@.len() == old_len + completed@.len()
                &&& forall|i: int|
                    0 <= i < old_len ==> (#[trigger] final(uploads)@[i]) == uploads@[i]
                &&& final(uploads)@[old_len + at].ordinal == completed@[at].ordinal
                &&& final(uploads)@[old_len + at].stroke_generation
                    == completed@[at].stroke_generation
                &&& final(uploads)@[old_len + at].tiles == completed@[at].tiles
            },
{
}

/// A tile waits while its layer previews a stroke, is dropped under a newer
/// preview, and is uploaded otherwise.
pub proof fn tiles_wait_or_go(
    latest: Map<TileKey, u64>,
    active: Option<LayerId>,
    key: TileKey,
    generation: u64,
)
    ensures
        ({
            let newer = latest.dom().contains(key) && latest[key] > generation;
            let decision = upload_decision(latest, active, key, generation);
            &&& decision is Superseded <==> newer
            &&& decision is Wait <==> !newer && active == Some(key.layer)
            &&& decision is Upload <==> !newer && active != Some(key.layer)
        }),
{
}

/// Only the upload of the very stroke that a preview shows ends that preview,
/// and no other tile is touched.
pub proof fn previews_end_with_their_own_upload(
    latest: Map<TileKey, u64>,
    key: TileKey,
    other: TileKey,
    generation: u64,
    outcome: UploadOutcome,
)
    requires
        other != key,
    ensures
        ({
            let after = after_upload(latest, key, generation, outcome);
            &&& after.dom().contains(key) <==> latest.dom().contains(key) && !(outcome is Uploaded
                && latest[key] == generation)
            &&& after.dom().contains(other) <==> latest.dom().contains(other)
            &&& after.dom().contains(other) ==> after[other] == latest[other]
            &&& after.dom().contains(key) ==> after[key] == latest[key]
        }),
{
}

/// What is left of an upload keeps its stroke's number and exactly the tiles
/// that wait; with none left nothing waits.
pub proof fn left_tiles_keep_their_stroke(
    ordinal: u64,
    generation: u64,
    remaining: Vec<TileEntry<Vec<u8>>>,
    left: Option<DeferredTileUpload>,
)
    requires
        call_ensures(remaining_upload, (ordinal, generation, remaining), left),
    ensures
        left is Some <==> remaining@.len() > 0,
        left matches Some(upload) ==> upload.ordinal == ordinal && upload.stroke_generation
            == generation && upload.tiles == remaining,
{
}

/// The answer to the latest read is shown for it; an answer to another read
/// only ends that read. Either way a new read may follow.
pub proof fn answers_are_shown_for_their_read<P, D, A>(
    state: CanvasState<P, D, A>,
    preview: PickerPreview,
    job: PickerRead,
    answer: PreviewAnswer,
)
    requires
        preview.job == Some(job),
    ensures
        ({
            let (after, next) = state.preview_answered(preview, Some(answer));
            let asked = state.stroke.gesture.picker matches Some(gesture) && !gesture.released
                && gesture.latest == job;
            &&& next.job is None
            &&& next.submitted_ns == preview.submitted_ns
            &&& asked ==> next.shown == Some(answer) && (
            after.stroke.gesture.picker matches Some(gesture) && gesture.sampled == Some(job)
                && gesture.latest == job && gesture.token == state.stroke.gesture.picker->0.token)
            &&& !asked ==> next.shown == preview.shown && after == state
            &&& after.drawing == state.drawing
        }),
        state.preview_answered(preview, None::<PreviewAnswer>) == (state, preview),
{
}

/// A pick whose patch is up to date reads nothing; one that moved reads its
/// latest place, once nothing else is on the way and the interval has passed.
pub proof fn moved_picks_read_again<P, D, A>(
    state: CanvasState<P, D, A>,
    preview: PickerPreview,
    facts: PreviewFacts,
)
    ensures
        state.stroke.gesture.picker is None ==> state.preview_next(preview, facts).0 is None,
        state.stroke.gesture.picker matches Some(gesture) ==> {
            let (shown, next) = state.preview_next(preview, facts);
            let current = gesture.sampled == Some(gesture.latest);
            let free = preview.job is None && state.stroke.backlog.len() == 0
                && facts.writer_pending == 0;
            &&& gesture.released ==> shown is None && next is Nothing
            &&& !gesture.released ==> {
                &&& shown matches Some(snapshot) && (snapshot.pending <==> !current) && (current
                    ==> snapshot.answer == preview.shown) && (!current ==> snapshot.answer is None)
                &&& current || !free ==> next is Nothing
                &&& !current && free ==> match next {
                    PreviewNext::Nothing => false,
                    PreviewNext::Wait { delay_ns, read } => read == gesture.latest && delay_ns
                        == preview.delay(facts.now_ns) && delay_ns > 0,
                    PreviewNext::Submit(read) => read == gesture.latest && preview.delay(
                        facts.now_ns,
                    ) == 0,
                }
            }
        },
{
}

/// The wait and the time since the last read make up one interval.
pub proof fn reads_are_an_interval_apart(preview: PickerPreview, now_ns: u128)
    ensures
        preview.submitted_ns is None ==> preview.delay(now_ns) == 0,
        preview.submitted_ns matches Some(submitted) ==> {
            &&& submitted <= now_ns < submitted + 33_000_000 ==> now_ns + preview.delay(now_ns)
                == submitted + 33_000_000
            &&& now_ns >= submitted + 33_000_000 ==> preview.delay(now_ns) == 0
            &&& now_ns < submitted ==> preview.delay(now_ns) == 33_000_000
        },
{
}

/// A read that the writer took is under way from then on; a refused one leaves
/// the preview as it was.
pub proof fn taken_reads_are_under_way(read: PickerRead, now_ns: u128)
    ensures
        forall|preview: &mut PickerPreview|
            #[trigger] call_ensures(PickerPreview::submitted, (preview, read, true, now_ns), ())
                ==> final(preview).job == Some(read) && final(preview).submitted_ns == Some(now_ns)
                && final(preview).shown == preview.shown,
        forall|preview: &mut PickerPreview|
            #[trigger] call_ensures(PickerPreview::submitted, (preview, read, false, now_ns), ())
                ==> *final(preview) == *preview,
{
}

/// A pick that lost its contact or whose view changed is given up; any other
/// goes on.
pub proof fn picks_need_their_view<P, D, A>(
    state: CanvasState<P, D, A>,
    bridge: BridgeFacts,
    viewport_revision: u64,
)
    ensures
        state.stroke.gesture.picker is None ==> state.preview_refreshed(bridge, viewport_revision)
            == state,
        state.stroke.gesture.picker matches Some(gesture) ==> {
            let keeps = bridge.picker_epoch == gesture.token.epoch && !bridge.closing
                && !bridge.workspace_failed && gesture.viewport_revision == viewport_revision;
            &&& keeps ==> state.preview_refreshed(bridge, viewport_revision) == state
            &&& !keeps ==> state.preview_refreshed(
                bridge,
                viewport_revision,
            ).stroke.gesture.picker is None
        },
{
}

/// One deadline at a time: a second one is not handed out until the first has
/// passed.
pub proof fn deadlines_come_one_at_a_time(delay_ns: u128)
    ensures
        forall|wake: &mut PickerWake, delay: Option<u128>|
            #[trigger] call_ensures(PickerWake::schedule, (wake, delay_ns), delay) ==> {
                &&& delay is Some <==> !wake.pending
                &&& delay matches Some(given) ==> given == delay_ns
                &&& final(wake).pending
            },
        forall|wake: &mut PickerWake|
            #[trigger] call_ensures(PickerWake::settle, (wake,), ()) ==> !final(wake).pending,
{
}

/// The patch is centred on the picked pixel and runs row by row, one pixel per
/// place.
pub proof fn patches_surround_the_pick(center: PixelPoint, place: int)
    requires
        0 <= place < 169,
    ensures
        patch_point(center, 84) == Some(center),
        patch_point(center, place) matches Some(point) ==> {
            &&& -6 <= point.x - center.x <= 6
            &&& -6 <= point.y - center.y <= 6
            &&& place == (point.y - center.y + 6) * 13 + (point.x - center.x + 6)
        },
        -1_000_000 <= center.x <= 1_000_000 && -1_000_000 <= center.y <= 1_000_000 ==> patch_point(
            center,
            place,
        ) is Some,
{
}

/// A patch holds four bytes for each of its pixels, in their order: red, green,
/// blue and alpha, and nothing for a pixel that was not read.
pub proof fn patches_hold_every_pixel(pixels: Seq<Option<Rgba>>, at: int)
    requires
        0 <= at < pixels.len(),
    ensures
        patch_bytes(pixels).len() == 4 * pixels.len(),
        match pixels[at] {
            Some(pixel) => {
                &&& patch_bytes(pixels)[4 * at] == pixel.red
                &&& patch_bytes(pixels)[4 * at + 1] == pixel.green
                &&& patch_bytes(pixels)[4 * at + 2] == pixel.blue
                &&& patch_bytes(pixels)[4 * at + 3] == pixel.alpha
            },
            None => forall|i: int| 4 * at <= i < 4 * at + 4 ==> #[trigger] patch_bytes(pixels)[i] == 0,
        },
    decreases pixels.len(),
{
    let before = pixels.drop_last();
    lemma_patch_length(before);
    let last = pixel_bytes(pixels.last());
    assert(last.len() == 4);
    if at < pixels.len() - 1 {
        patches_hold_every_pixel(before, at);
        assert(before[at] == pixels[at]);
        assert forall|i: int| 4 * at <= i < 4 * at + 4 implies #[trigger] patch_bytes(pixels)[i]
            == patch_bytes(before)[i] by {}
    } else {
        assert forall|i: int| 4 * at <= i < 4 * at + 4 implies #[trigger] patch_bytes(pixels)[i]
            == last[i - 4 * at] by {}
    }
}

proof fn lemma_patch_length(pixels: Seq<Option<Rgba>>)
    ensures
        patch_bytes(pixels).len() == 4 * pixels.len(),
    decreases pixels.len(),
{
    if pixels.len() > 0 {
        lemma_patch_length(pixels.drop_last());
    }
}

} // verus!
