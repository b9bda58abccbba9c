//! What the writer does with a request: what it hands out, what it publishes
//! in which order, and when it stops.
use vstd::prelude::*;

use crate::canvas::ExportStatus;
use crate::commits::{LayerStage, LayerStep, StrokeStage, StrokeStep};
use crate::document::{CanvasSpec, LayerId};
use crate::edit::EditCommand;
use crate::editor_command::HistoryCommand;
use crate::export::{ExportGenerationGate, ExportPngOutcome};
use crate::layer_tree::{raster_named, LayerTree};
use crate::tile_map::TileKey;
use crate::transform::TransformCommand;
use crate::writer::{
    delivery_of, exit_fails_export, probe_of, restored_tree, system_timestamp_ns, thumbnail_layers,
    ArtworkResult, Delivery, HistoryStage, HistoryStep, LaneAnswer, LayerCommitPlan, ProbeKind,
    StrokeResult, WorkerExit, Writer, WriterEffect, WriterFailure, WriterLane, WriterState,
    WriterTask, WriterWork,
};

verus! {

/// A running writer first wakes the canvas and then does what was asked: a pick
/// is sampled, an edit and a transform are run, a tree is committed and the
/// history is moved or listed, each as it was asked for.
pub proof fn requests_are_carried_out(
    state: WriterState,
    edit: EditCommand,
    transform: TransformCommand,
    history: HistoryCommand,
    gate: ExportGenerationGate,
    closing: bool,
)
    requires
        state.exit is None,
    ensures
        ({
            let woken = state.received(WriterWork::PickerPreview, gate, closing).0;
            &&& woken.effects == state.effects.push(WriterEffect::RequestRedraw)
            &&& woken.next_id == state.next_id && woken.exit is None && woken.processed
                == state.processed && woken.preview_tree == state.preview_tree
            &&& state.received(WriterWork::PickerPreview, gate, closing).1 is SamplePicker
            &&& state.received(WriterWork::CommitLayerTree, gate, closing) == (
                woken,
                WriterTask::CommitLayerTree,
            )
            &&& !(edit is FreeTransform) ==> state.received(WriterWork::Edit(edit), gate, closing)
                == (woken, WriterTask::RunEdit(edit))
            &&& state.received(
                WriterWork::Edit(EditCommand::FreeTransform(transform)),
                gate,
                closing,
            ) == (woken, WriterTask::RunTransform(transform))
            &&& !(history is ShowRedoBranches) ==> state.received(
                WriterWork::MoveHistory(history),
                gate,
                closing,
            ) == (woken, WriterTask::MoveHistory(history))
            &&& history matches HistoryCommand::ShowRedoBranches { after } ==> state.received(
                WriterWork::MoveHistory(history),
                gate,
                closing,
            ) == (woken, WriterTask::ShowRedoBranches { after })
        }),
{
}

/// A closed stroke is replayed on a layer that is there, unlocked, and keeps
/// its transparency as the stroke was drawn for; on any other layer the writer
/// says so, releases the stroke and stops.
pub proof fn strokes_need_their_layer(
    state: WriterState,
    layer: LayerId,
    alpha_locked: bool,
    gate: ExportGenerationGate,
    closing: bool,
)
    requires
        state.exit is None,
    ensures
        ({
            let (after, task) = state.received(
                WriterWork::Stroke { layer, alpha_locked },
                gate,
                closing,
            );
            let takes = raster_named(state.preview_tree.rasters(), layer) matches Some(found)
                && !found.locked && found.alpha_locked == alpha_locked;
            &&& takes <==> task == (WriterTask::ReplayStroke { snapshot: state.next_id })
            &&& takes ==> after.exit is None && after.next_id == state.next_id
            &&& !takes ==> task is Stopped && after.exit == Some(WorkerExit::FailStop)
                && after.effects == state.effects.push(WriterEffect::RequestRedraw).push(
                WriterEffect::PublishFailure(WriterFailure::LockedTarget),
            ).push(WriterEffect::ReleasePending)
        }),
{
}

/// Only the latest export runs, and shows itself as running; on the way out the
/// close shows it too.
pub proof fn the_latest_export_runs(
    state: WriterState,
    generation: u64,
    gate: ExportGenerationGate,
    closing: bool,
)
    requires
        state.exit is None,
    ensures
        ({
            let (after, task) = state.received(
                WriterWork::ExportPng { generation },
                gate,
                closing,
            );
            let running = WriterEffect::PublishExportStatus(ExportStatus::Running { generation });
            &&& task is Export <==> gate.latest == generation
            &&& task is SkipExport <==> gate.latest != generation
            &&& task is Export && !closing ==> after.effects == state.effects.push(
                WriterEffect::RequestRedraw,
            ).push(running)
            &&& task is Export && closing ==> after.effects == state.effects.push(
                WriterEffect::RequestRedraw,
            ).push(running).push(WriterEffect::PublishCloseExporting)
            &&& task is SkipExport ==> after.effects == state.effects.push(
                WriterEffect::RequestRedraw,
            )
        }),
{
}

/// The writer publishes changed artwork before it answers: the tree and the
/// page that came with it, the navigator, and newer thumbnails.
pub proof fn changed_artwork_is_published(
    state: WriterState,
    tree: Option<LayerTree>,
    canvas: Option<CanvasSpec>,
)
    ensures
        ({
            let after = state.artwork_finished(ArtworkResult::Changed { tree, canvas });
            &&& tree matches Some(tree) ==> after.preview_tree == tree
            &&& tree is None ==> after.preview_tree == state.preview_tree
            &&& canvas matches Some(canvas) ==> after.preview_canvas == canvas
            &&& canvas is None ==> after.preview_canvas == state.preview_canvas
            &&& state.thumbnail_generation < u64::MAX ==> after.thumbnail_generation
                == state.thumbnail_generation + 1
            &&& after.effects == state.effects.push(WriterEffect::PublishNavigator).push(
                WriterEffect::PublishThumbnails {
                    generation: after.thumbnail_generation,
                    changed_only: false,
                },
            ).push(WriterEffect::Reply).push(WriterEffect::RequestRedraw)
            &&& after.exit == state.exit
            &&& after.next_id == state.next_id
            &&& after.has_selection == state.has_selection
            &&& after.processed == state.processed
        }),
{
}

/// A request that changed nothing is only answered; one that failed is
/// published, answered and stops the writer.
pub proof fn unchanged_artwork_is_answered(state: WriterState, result: ArtworkResult, message: u64)
    ensures
        result is Unchanged || result is Rejected ==> {
            let after = state.artwork_finished(result);
            &&& after.effects == state.effects.push(WriterEffect::Reply).push(
                WriterEffect::RequestRedraw,
            )
            &&& after.exit == state.exit
            &&& after.preview_tree == state.preview_tree
            &&& after.thumbnail_generation == state.thumbnail_generation
            &&& state.history_finished(result) == after
        },
        ({
            let after = state.artwork_finished(ArtworkResult::Fatal(message));
            &&& after.exit == Some(WorkerExit::FailStop)
            &&& after.effects == state.effects.push(
                WriterEffect::PublishFailure(WriterFailure::Edit(message)),
            ).push(WriterEffect::Reply).push(WriterEffect::RequestRedraw)
        }),
        ({
            let after = state.history_finished(ArtworkResult::Fatal(message));
            &&& after.exit == Some(WorkerExit::FailStop)
            &&& after.effects == state.effects.push(
                WriterEffect::PublishFailure(WriterFailure::HistoryNotRestored(message)),
            ).push(WriterEffect::Reply).push(WriterEffect::RequestRedraw)
        }),
{
}

/// A move through the history and a layer commit drop the selection; a layer
/// commit spends its identifier and shows its tree.
pub proof fn moved_artwork_drops_the_selection(
    state: WriterState,
    tree: LayerTree,
    canvas: Option<CanvasSpec>,
    message: u64,
)
    requires
        state.next_id < u128::MAX,
    ensures
        !state.history_finished(
            ArtworkResult::Changed { tree: Some(tree), canvas },
        ).has_selection,
        state.history_finished(ArtworkResult::Changed { tree: Some(tree), canvas }).preview_tree
            == tree,
        state.history_finished(ArtworkResult::Changed { tree: Some(tree), canvas }).next_id
            == state.next_id,
        ({
            let after = state.layer_commit_finished(Ok(tree));
            &&& after.next_id == state.next_id + 1
            &&& !after.has_selection
            &&& after.preview_tree == tree
            &&& after.preview_canvas == state.preview_canvas
            &&& after.exit == state.exit
        }),
        ({
            let after = state.layer_commit_finished(Err(message));
            &&& after.exit == Some(WorkerExit::FailStop)
            &&& after.next_id == state.next_id
            &&& after.preview_tree == state.preview_tree
            &&& after.effects[state.effects.len() as int] == WriterEffect::PublishFailure(
                WriterFailure::LayerNotSaved(message),
            )
        }),
{
}

/// An edit leaves the identifier and the selection that it reports.
pub proof fn edits_leave_what_they_report(
    result: ArtworkResult,
    next_id: u128,
    has_selection: bool,
)
    ensures
        forall|writer: &mut Writer|
            #[trigger] call_ensures(
                Writer::edit_finished,
                (writer, result, next_id, has_selection),
                (),
            ) ==> {
                &&& final(writer)@.next_id == next_id
                &&& final(writer)@.has_selection == has_selection
                &&& final(writer)@.processed == writer@.processed
                &&& result is Fatal ==> final(writer)@.exit == Some(WorkerExit::FailStop)
                &&& !(result is Fatal) ==> final(writer)@.exit == writer@.exit
            },
{
}

/// A saved stroke counts, spends its identifier and shows the layers that it
/// changed; the display is woken where it was told of it.
pub proof fn saved_strokes_are_counted(state: WriterState, ordinal: u64, delivery: Delivery)
    requires
        state.exit is None,
        state.next_id < u128::MAX,
        state.processed < u64::MAX,
        state.thumbnail_generation < u64::MAX,
    ensures
        ({
            let after = state.stroke_finished(StrokeResult::Committed { ordinal, delivery });
            let shown = state.effects.push(WriterEffect::PublishNavigator).push(
                WriterEffect::PublishThumbnails {
                    generation: (state.thumbnail_generation + 1) as u64,
                    changed_only: true,
                },
            );
            &&& after.processed == state.processed + 1
            &&& after.thumbnail_generation == state.thumbnail_generation + 1
            &&& delivery is Sent ==> after.effects == shown.push(WriterEffect::RequestRedraw).push(
                WriterEffect::ReleasePending,
            )
            &&& delivery is Retired ==> after.effects == shown.push(WriterEffect::ReleasePending)
            &&& delivery is Sent || delivery is Retired ==> after.exit is None && after.next_id
                == state.next_id + 1
            &&& delivery is Full ==> after.effects == shown.push(
                WriterEffect::PublishFailure(WriterFailure::CompletionQueueFull { ordinal }),
            ).push(WriterEffect::ReleasePending)
            &&& delivery is Disconnected ==> after.effects == shown.push(
                WriterEffect::PublishFailure(WriterFailure::CompletionReceiverLost { ordinal }),
            ).push(WriterEffect::ReleasePending)
            &&& delivery is Full || delivery is Disconnected ==> after.exit == Some(
                WorkerExit::FailStop,
            )
        }),
{
}

/// A stroke that could not be saved is reported for what failed, and stops the
/// writer without spending its identifier.
pub proof fn unsaved_strokes_stop_the_writer(state: WriterState, message: u64)
    ensures
        ({
            let after = state.stroke_finished(StrokeResult::CommitFailed(message));
            &&& after.exit == Some(WorkerExit::FailStop)
            &&& after.next_id == state.next_id && after.processed == state.processed
            &&& after.effects == state.effects.push(
                WriterEffect::PublishFailure(WriterFailure::StrokeNotSaved(message)),
            ).push(WriterEffect::ReleasePending)
        }),
        ({
            let after = state.stroke_finished(StrokeResult::ReplayFailed(message));
            &&& after.exit == Some(WorkerExit::FailStop)
            &&& after.next_id == state.next_id && after.processed == state.processed
            &&& after.effects == state.effects.push(
                WriterEffect::PublishFailure(WriterFailure::StrokeNotMaterialized(message)),
            ).push(WriterEffect::ReleasePending)
        }),
{
}

/// A saved stroke is sent where the lane takes it; a display that is going away
/// needs none; a live one that could not be reached is told apart by why.
pub proof fn deliveries_are_told_apart(
    retired_before: bool,
    answer: LaneAnswer,
    retired_after: bool,
)
    ensures
        ({
            let delivery = delivery_of(retired_before, answer, retired_after);
            &&& delivery is Sent <==> !retired_before && answer is Accepted
            &&& delivery is Full <==> !retired_before && !retired_after && answer is Full
            &&& delivery is Disconnected <==> !retired_before && !retired_after && answer
                is Disconnected
            &&& delivery is Retired <==> retired_before || retired_after && !(answer is Accepted)
        }),
{
}

/// A layer commit becomes the next snapshot and empties exactly the tiles of
/// the layers that the new tree no longer has.
pub proof fn removed_layers_are_emptied(
    tree: LayerTree,
    keys: Vec<TileKey>,
    plan: LayerCommitPlan,
    key: TileKey,
)
    ensures
        forall|writer: &mut Writer|
            writer@.next_id < u128::MAX && #[trigger] call_ensures(
                Writer::plan_layer_commit,
                (writer, &tree, &keys),
                Some(plan),
            ) ==> {
                &&& plan.snapshot == writer@.next_id
                &&& final(writer)@ == writer@
                &&& plan.emptied@.contains(key) <==> keys@.contains(key)
                    && writer@.preview_tree.has_raster(key.layer) && !tree.has_raster(key.layer)
            },
{
    assert forall|writer: &mut Writer|
        writer@.next_id < u128::MAX && #[trigger] call_ensures(
            Writer::plan_layer_commit,
            (writer, &tree, &keys),
            Some(plan),
        ) implies (plan.snapshot == writer@.next_id && final(writer)@ == writer@ && (
    plan.emptied@.contains(key) <==> keys@.contains(key) && writer@.preview_tree.has_raster(
        key.layer,
    ) && !tree.has_raster(key.layer))) by {
        let removed = |key: TileKey| writer@.removes(tree, key.layer);
        assert(plan.emptied@ == keys@.filter(removed));
        if plan.emptied@.contains(key) {
            let i = choose|i: int| 0 <= i < plan.emptied@.len() && plan.emptied@[i] == key;
            keys@.lemma_filter_pred(removed, i);
            keys@.lemma_filter_contains_rev(removed, key);
        }
        if keys@.contains(key) && removed(key) {
            let i = choose|i: int| 0 <= i < keys@.len() && keys@[i] == key;
            keys@.lemma_filter_contains(removed, i);
        }
    }
}

/// The outcome of an export is shown as it is and leaves the project alone.
pub proof fn finished_exports_are_shown(generation: u64, outcome: ExportPngOutcome)
    ensures
        forall|writer: &mut Writer|
            #[trigger] call_ensures(Writer::export_finished, (writer, generation, outcome), ())
                ==> {
                &&& outcome is Replaced ==> final(writer)@.effects == writer@.effects.push(
                    WriterEffect::PublishExportStatus(ExportStatus::Current { generation }),
                )
                &&& outcome is Failed ==> final(writer)@.effects == writer@.effects.push(
                    WriterEffect::PublishExportStatus(ExportStatus::Failed { generation }),
                )
                &&& outcome is Superseded ==> final(writer)@.effects == writer@.effects
                &&& final(writer)@.exit == writer@.exit
                &&& final(writer)@.next_id == writer@.next_id
                &&& final(writer)@.preview_tree == writer@.preview_tree
            },
{
}

/// A move through the history goes through all six stages: prepared, tiles,
/// tree, page, the durable cursor, and last the session.
pub proof fn history_runs_through_every_stage()
    ensures
        HistoryStage::Prepare.followed_by(true) == HistoryStep::Do(HistoryStage::LoadTiles),
        HistoryStage::LoadTiles.followed_by(true) == HistoryStep::Do(HistoryStage::LoadTree),
        HistoryStage::LoadTree.followed_by(true) == HistoryStep::Do(HistoryStage::LoadCanvas),
        HistoryStage::LoadCanvas.followed_by(true) == HistoryStep::Do(HistoryStage::Persist),
        HistoryStage::Persist.followed_by(true) == HistoryStep::Do(HistoryStage::Accept),
        HistoryStage::Accept.followed_by(true) is Moved,
{
}

/// A stage that fails ends its stroke or layer change as failed at that stage;
/// one that succeeds leads to the next, and only the last one to the end.
pub proof fn stages_end_where_they_fail(
    stroke: StrokeStage,
    layer: LayerStage,
    succeeded: bool,
    changes_pixels: bool,
)
    ensures
        stroke.followed_by(false) == StrokeStep::Failed(stroke),
        layer.followed_by(false, changes_pixels) == LayerStep::Failed(layer),
        stroke.followed_by(succeeded) is Saved <==> succeeded && stroke is Accept,
        layer.followed_by(succeeded, changes_pixels) is Saved <==> succeeded && layer is Accept,
        StrokeStage::Replay.followed_by(true) == StrokeStep::Do(StrokeStage::Commit),
        StrokeStage::Commit.followed_by(true) == StrokeStep::Do(StrokeStage::Accept),
{
}

/// A stroke that failed at its replay was never saved; one that failed later
/// could not be saved.
pub proof fn failed_stages_say_what_was_lost(stage: StrokeStage, message: u64, result: StrokeResult)
    requires
        call_ensures(StrokeStage::failure, (stage, message), result),
    ensures
        stage is Replay <==> result == StrokeResult::ReplayFailed(message),
        !(stage is Replay) <==> result == StrokeResult::CommitFailed(message),
{
}

/// Pages, history moves and layer commits can be held back by a probe, each as
/// its own kind, and nothing else.
pub proof fn probes_hold_back_their_kind(work: WriterWork)
    ensures
        probe_of(work) == Some(ProbeKind::History) <==> work is MoveHistory,
        probe_of(work) == Some(ProbeKind::Layer) <==> work is CommitLayerTree,
        probe_of(work) == Some(ProbeKind::Page) <==> (work matches WriterWork::Edit(command) && (
        command is ResizePage || command is CropPageToSelection)),
{
}

/// Thumbnails are drawn for the topmost rows, from the top, up to the limit.
pub proof fn thumbnails_start_at_the_top(tree: LayerTree, limit: usize, layers: Vec<LayerId>)
    requires
        call_ensures(thumbnail_layers, (&tree, limit), layers),
    ensures
        layers@.len() <= limit,
        tree.rasters().len() <= limit ==> layers@.len() == tree.rasters().len(),
        tree.rasters().len() > limit ==> layers@.len() == limit,
        forall|i: int|
            0 <= i < layers@.len() ==> (#[trigger] layers@[i]) == tree.rasters()[tree.rasters().len()
                - 1 - i].id,
{
}

/// A time is kept as it is while it fits, and never runs backwards.
pub proof fn times_keep_their_order(
    earlier: u128,
    later: u128,
    first: u64,
    second: u64,
    unknown: u64,
)
    requires
        earlier <= later,
        call_ensures(system_timestamp_ns, (Some(earlier),), first),
        call_ensures(system_timestamp_ns, (Some(later),), second),
        call_ensures(system_timestamp_ns, (None::<u128>,), unknown),
    ensures
        first <= second,
        earlier <= u64::MAX ==> first == earlier,
        earlier > u64::MAX ==> first == u64::MAX,
        unknown == 0,
{
}

/// A cursor with a tree restores that tree; one without has the topology of
/// its time, a background below the ink.
pub proof fn restored_trees_are_those_saved(loaded: Option<LayerTree>, tree: LayerTree)
    requires
        call_ensures(restored_tree, (loaded,), tree),
    ensures
        loaded matches Some(saved) ==> tree == saved,
        loaded is None ==> tree.root.children@.len() == 2,
{
}

/// A stroke is pending exactly where an open queue took it; closing reports
/// success only with the queue drained and nothing pending.
pub proof fn pending_strokes_are_counted(answer: LaneAnswer, exit: WorkerExit)
    ensures
        forall|lane: &mut WriterLane, taken: bool|
            lane.pending < usize::MAX && #[trigger] call_ensures(
                WriterLane::stroke_offered,
                (lane, answer),
                taken,
            ) ==> {
                &&& taken <==> lane.open && answer is Accepted
                &&& taken ==> final(lane).pending == lane.pending + 1
                &&& !taken ==> final(lane).pending == lane.pending
                &&& final(lane).open == lane.open
                &&& final(lane).display_retired == lane.display_retired
            },
        forall|lane: &mut WriterLane, saved: bool|
            #[trigger] call_ensures(WriterLane::close, (lane, exit), saved) ==> {
                &&& saved <==> exit is Drained && lane.pending == 0
                &&& !final(lane).open
                &&& final(lane).display_retired
                &&& final(lane).pending == lane.pending
            },
        forall|lane: &mut WriterLane|
            #[trigger] call_ensures(WriterLane::retire_display, (lane,), ()) ==> {
                &&& final(lane).display_retired
                &&& final(lane).open == lane.open
                &&& final(lane).pending == lane.pending
            },
{
}

/// Only a writer that drained its queue leaves no export behind.
pub proof fn left_exports_have_failed(exit: WorkerExit, failed: bool)
    requires
        call_ensures(exit_fails_export, (exit,), failed),
    ensures
        failed <==> exit is FailStop || exit is Panicked,
{
}

/// The thumbnails drawn anew after a stroke are those of the layers it changed,
/// the lowest first, as many as the limit allows.
pub proof fn changed_layers_are_drawn_anew(
    changed: Vec<TileKey>,
    all: Vec<LayerId>,
    limit: usize,
    drawn: Vec<LayerId>,
    at: int,
)
    requires
        call_ensures(crate::commits::changed_layers, (&changed,), all),
        call_ensures(crate::commits::stroke_thumbnail_layers, (&changed, limit), drawn),
        0 <= at < changed@.len(),
    ensures
        all@.contains(changed@[at].layer),
        forall|i: int, j: int|
            0 <= i < j < all@.len() ==> (#[trigger] all@[i]).0 < (#[trigger] all@[j]).0,
        forall|layer: LayerId| #[trigger]
            all@.contains(layer) ==> exists|i: int|
                0 <= i < changed@.len() && (#[trigger] changed@[i]).layer == layer,
        drawn@.len() <= limit,
        drawn@.len() < limit ==> drawn@.contains(changed@[at].layer),
{
    assert(crate::commits::touches(changed@, changed@[at].layer));
}

/// The image is behind after artwork changed, and no longer behind once a save
/// was accepted or a document was opened anew; nothing else changes that.
pub proof fn artwork_leaves_the_image_behind(dirty: bool, event: crate::dirty::DirtyEvent)
    ensures
        ({
            let after = crate::dirty::dirty_after(dirty, event);
            match event {
                crate::dirty::DirtyEvent::StrokeClosed => after,
                crate::dirty::DirtyEvent::SaveAccepted => !after,
                crate::dirty::DirtyEvent::UsagePublished => after == dirty,
                crate::dirty::DirtyEvent::Opened { restored } => after == (restored && dirty),
                crate::dirty::DirtyEvent::ArtworkAdopted { changed } => after == (changed || dirty),
                crate::dirty::DirtyEvent::TransformAdopted { committed } => after == (committed
                    || dirty),
                crate::dirty::DirtyEvent::CommandPublished { artwork_changed } => after == (
                artwork_changed || dirty),
            }
        }),
{
}

} // verus!
