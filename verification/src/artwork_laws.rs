//! What becomes of an edit: how it reaches the worker, what its answer changes
//! on the canvas, and what is left when it is settled or the canvas closes.
use vstd::prelude::*;

use crate::artwork::{
    edit_job, pick_command, pixel_move, ArtworkAnswer, EditProgress, EditStep, NativeEdit,
    NativeEditStep, PollStep, SelectionRefused, WorkerFailure,
};
use crate::canvas::{
    cancellable_transform, ActiveCanvas, ArtworkJob, BridgeFacts, CanvasState, EditError,
    ExportStatus, WorkFacts,
};
use crate::closing::{ClosingEdit, ClosingSave};
use crate::command::CommandRejectReason;
use crate::document::{LayerId, PixelPoint, Rgba};
use crate::edit::EditCommand;
use crate::effect::InkEffect;
use crate::input::PickSequence;
use crate::layer_tree::LayerTree;
use crate::picker::{PickerSource, PickerToken};
use crate::stroke_pipeline::Selection;
use crate::transform::TransformCommand;

verus! {

/// An edit reaches the worker in this order: an idle canvas, room for the page
/// where it is resized, a pause, and then the request for that very command.
pub proof fn edits_reach_the_worker<P, D, A>(
    state: CanvasState<P, D, A>,
    command: EditCommand,
    fits: bool,
    paused: bool,
)
    requires
        !(command is FreeTransform) && !(command is PasteSelection),
    ensures
        state.stroke.transform.projection is None ==> state.edit_stepped(
            command,
            EditProgress::Start,
        ) == (state, EditStep::CheckIdle),
        state.stroke.transform.projection is Some ==> state.edit_stepped(
            command,
            EditProgress::Start,
        ) == (state, EditStep::Return(Err(CommandRejectReason::CommandQueueBusy))),
        match command {
            EditCommand::ResizePage { size } => state.edit_stepped(
                command,
                EditProgress::Idle(Ok(())),
            ).1 == EditStep::CheckPage(size),
            _ => state.edit_stepped(command, EditProgress::Idle(Ok(()))).1 is Pause,
        },
        state.edit_stepped(command, EditProgress::PageChecked(fits)).1 is Pause <==> fits,
        state.edit_stepped(command, EditProgress::PageChecked(false)).1 == EditStep::Return(
            Err(CommandRejectReason::WorkspaceFailed),
        ),
        state.edit_stepped(command, EditProgress::Paused(paused)).1 is Queue <==> paused,
        state.edit_stepped(command, EditProgress::Paused(false)).1 == EditStep::Return(
            Err(CommandRejectReason::CommandQueueBusy),
        ),
        state.edit_stepped(command, EditProgress::Idle(Ok(()))).0 == state,
        state.edit_stepped(command, EditProgress::PageChecked(fits)).0 == state,
        state.edit_stepped(command, EditProgress::Paused(paused)).0 == state,
{
}

/// Transforms and pastes go to the transform, whatever else is in progress; a
/// canvas that is not idle hands its reason on.
pub proof fn transforms_go_their_own_way<P, D, A>(
    state: CanvasState<P, D, A>,
    transform: TransformCommand,
    command: EditCommand,
    reason: CommandRejectReason,
)
    ensures
        state.edit_stepped(
            EditCommand::FreeTransform(transform),
            EditProgress::Start,
        ) == (state, EditStep::Transform(transform)),
        state.edit_stepped(EditCommand::PasteSelection, EditProgress::Start) == (
            state,
            EditStep::Transform(TransformCommand::Paste),
        ),
        state.edit_stepped(command, EditProgress::Idle(Err(reason))) == (
            state,
            EditStep::Return(Err(reason)),
        ),
{
}

/// A request that the worker took makes the canvas busy and forgets the last
/// error; one that it refused only ends the pause.
pub proof fn queued_edits_make_the_canvas_busy<P, D, A>(
    state: CanvasState<P, D, A>,
    command: EditCommand,
)
    ensures
        ({
            let (after, step) = state.edit_stepped(command, EditProgress::Queued(true));
            &&& step == EditStep::Return(Ok(false))
            &&& after.artwork_job is Some
            &&& after.edit.busy
            &&& after.edit.error is None
            &&& after.edit.has_selection == state.edit.has_selection
            &&& after.edit.selected_pixels == state.edit.selected_pixels
            &&& after.edit.transform == state.edit.transform
            &&& after.stroke == state.stroke
            &&& after.drawing == state.drawing
            &&& after.active_layer == state.active_layer
            &&& after.artwork_job->0.temporary_picker is Some <==> command is PickDisplayColor
            &&& after.artwork_job->0.active_layer is None
            &&& after.artwork_job->0.transform is Some <==> command is FreeTransform
        }),
        ({
            let (after, step) = state.edit_stepped(command, EditProgress::Queued(false));
            &&& step == EditStep::Return(Err(CommandRejectReason::CommandQueueBusy))
            &&& after.artwork_job == state.artwork_job
            &&& after.edit == state.edit
            &&& after.stroke.effects == state.stroke.effects.push(InkEffect::ResumeAfterEdit)
            &&& after.stroke.gesture == state.stroke.gesture
            &&& after.drawing == state.drawing
        }),
{
}

/// A job remembers the pick that it answers and the transform that it is.
pub proof fn jobs_remember_what_they_are(command: EditCommand)
    ensures
        edit_job(command).picker_token is None,
        edit_job(command).active_layer is None,
        command matches EditCommand::FreeTransform(transform) ==> edit_job(command).transform
            == Some(transform),
        command matches EditCommand::PickDisplayColor { point, solo, input_sequence } ==> edit_job(
            command,
        ).temporary_picker == Some(input_sequence),
{
}

/// An edit that the worker carried out sets the sampled colour and the new
/// active layer, each only where the answer brings one, and is installed.
pub proof fn answers_are_adopted<P, D, A>(
    state: CanvasState<P, D, A>,
    job: ArtworkJob,
    layer: Option<LayerId>,
    color: Option<Rgba>,
    changed: bool,
    bridge: BridgeFacts,
)
    requires
        state.artwork_job == Some(job),
        job.picker_token is None,
    ensures
        ({
            let (after, step) = state.answered(
                ArtworkAnswer::Edit { active_layer: layer, sampled_color: color, changed },
                bridge,
            );
            &&& step == PollStep::InstallEdit { changed }
            &&& color matches Some(color) ==> after.drawing.color == color
            &&& color is None ==> after.drawing.color == state.drawing.color
            &&& after.drawing.background_color == state.drawing.background_color
            &&& after.drawing.tool == state.drawing.tool
            &&& after.drawing.current_brush() == state.drawing.current_brush()
            &&& after.drawing.edit_settings == state.drawing.edit_settings
            &&& after.drawing.remembered == state.drawing.remembered
            &&& layer matches Some(layer) ==> after.active_layer == layer
            &&& layer is None ==> after.active_layer == state.active_layer
            &&& after.stroke == state.stroke
            &&& after.artwork_job == state.artwork_job
            &&& after.edit == state.edit
        }),
        ({
            let (after, step) = state.answered(ArtworkAnswer::History { changed }, bridge);
            &&& step == PollStep::InstallHistory { changed }
            &&& job.active_layer matches Some(layer) ==> after.active_layer == layer
            &&& job.active_layer is None ==> after.active_layer == state.active_layer
            &&& after.drawing == state.drawing
            &&& after.stroke == state.stroke
        }),
{
}

/// An answer whose pick lost its contact changes neither the colour nor the
/// layer and is no error; one whose pick still holds is adopted.
pub proof fn lost_picks_set_no_color<P, D, A>(
    state: CanvasState<P, D, A>,
    job: ArtworkJob,
    token: PickerToken,
    layer: Option<LayerId>,
    color: Rgba,
    message: u64,
    bridge: BridgeFacts,
)
    requires
        state.artwork_job == Some(job),
        job.picker_token == Some(token),
    ensures
        ({
            let holds = bridge.picker_epoch == token.epoch && !bridge.closing
                && !bridge.workspace_failed && (state.stroke.gesture.picker matches Some(picker)
                && picker.token == token);
            let answer = ArtworkAnswer::Edit {
                active_layer: layer,
                sampled_color: Some(color),
                changed: false,
            };
            &&& holds ==> state.answered(answer, bridge).0.drawing.color == color
                && state.answered(answer, bridge).1 is InstallEdit
            &&& !holds ==> state.answered(answer, bridge) == (
                state,
                PollStep::Settle { error: None },
            )
            &&& holds ==> state.answered(ArtworkAnswer::Rejected(message), bridge).1 == (
            PollStep::Settle { error: Some(EditError::Worker(message)) })
            &&& !holds ==> state.answered(ArtworkAnswer::Rejected(message), bridge) == (
                state,
                PollStep::Settle { error: None },
            )
        }),
{
}

/// Without a job, and while the worker is still busy, nothing happens; a lost
/// or failed worker fails the workspace with its own words.
pub proof fn workers_are_waited_for<P, D, A>(
    state: CanvasState<P, D, A>,
    answer: ArtworkAnswer,
    message: u64,
    bridge: BridgeFacts,
)
    ensures
        state.artwork_job is None ==> state.answered(answer, bridge) == (state, PollStep::Idle),
        state.answered(ArtworkAnswer::Empty, bridge) == (state, PollStep::Idle),
        state.artwork_job is Some ==> state.answered(ArtworkAnswer::Disconnected, bridge) == (
            state,
            PollStep::Fail(WorkerFailure::Disconnected),
        ),
        state.artwork_job is Some ==> state.answered(ArtworkAnswer::Fatal(message), bridge) == (
            state,
            PollStep::Fail(WorkerFailure::Reported(message)),
        ),
        state.artwork_job is Some ==> state.answered(ArtworkAnswer::Transform, bridge) == (
            state,
            PollStep::InstallTransform,
        ),
{
}

/// A settled job leaves the canvas free, shows the selection and the transform
/// as they are, reports the given error and resumes input last.
pub proof fn settled_canvases_rest<P, D, A>(
    state: CanvasState<P, D, A>,
    error: Option<EditError>,
    revision: u64,
)
    ensures
        ({
            let after = state.artwork_settled(error, revision);
            &&& after.artwork_job is None
            &&& !after.edit.busy
            &&& after.edit.error == error
            &&& after.edit.has_selection <==> after.stroke.selection is Some
            &&& after.stroke.selection matches Some(selection) ==> after.edit.selected_pixels
                == selection.selected_pixels
            &&& after.stroke.selection is None ==> after.edit.selected_pixels == 0
            &&& after.edit.transform == after.stroke.transform.projection
            &&& after.edit.can_cancel <==> after.stroke.transform.projection is Some
            &&& after.stroke.effects.last() is ResumeAfterEdit
            &&& after.stroke.selection == state.stroke.selection
            &&& after.stroke.transform == state.stroke.transform
            &&& after.stroke.backlog == state.stroke.backlog
            &&& after.stroke.active == state.stroke.active
            &&& after.drawing == state.drawing
            &&& after.active_layer == state.active_layer
            &&& after.pending_save == state.pending_save
            &&& state.publication_base is None ==> after.publication_base == Some(revision)
            &&& state.publication_base is Some ==> after.publication_base
                == state.publication_base
            &&& (state.artwork_job matches Some(job) && job.picker_token is Some)
                ==> after.stroke.gesture.picker is None
            &&& (state.artwork_job matches Some(job) && job.picker_token is None)
                ==> after.stroke.gesture == state.stroke.gesture
        }),
{
}

/// A selection whose mask the painters refused is not shown; every other one is
/// shown as it is.
pub proof fn refused_selections_are_not_shown<P: Copy, D, A>(
    selection: Option<Selection>,
    adopted: bool,
)
    ensures
        forall|canvas: &mut ActiveCanvas<P, D, A>, result: Result<(), SelectionRefused>|
            #[trigger] call_ensures(
                ActiveCanvas::<P, D, A>::install_selection,
                (canvas, selection, adopted),
                result,
            ) ==> {
                &&& adopted ==> result is Ok
                &&& result is Ok ==> final(canvas)@.stroke.selection == selection
                &&& result is Err ==> final(canvas)@ == canvas@
                &&& final(canvas)@.drawing == canvas@.drawing
                &&& final(canvas)@.stroke.gesture == canvas@.stroke.gesture
                &&& final(canvas)@.artwork_job == canvas@.artwork_job
            },
{
}

/// The painters need a mask exactly where another one is shown, or none.
pub proof fn masks_change_by_identity<P, D, A>(
    state: CanvasState<P, D, A>,
    selection: Option<Selection>,
)
    ensures
        !state.mask_changes(state.stroke.selection),
        !state.mask_changes(selection) ==> (selection is Some <==> state.stroke.selection is Some),
        selection matches Some(next) ==> state.stroke.selection matches Some(current) ==> (
        state.mask_changes(selection) <==> current.mask != next.mask),
{
}

/// A finished gesture is taken once; a read under a temporary pick looks at the
/// display that the pick was opened on, and every other command goes to the
/// worker as the gesture made it.
pub proof fn finished_gestures_reach_the_worker<P, D, A>(
    state: CanvasState<P, D, A>,
    command: EditCommand,
    bridge: BridgeFacts,
    revision: u64,
)
    requires
        state.stroke.gesture.completed_edit == Some(
            Ok::<_, crate::edit::GestureError>(command),
        ),
        !(command is PickColor) && !(command is PickDisplayColor),
    ensures
        ({
            let (after, step) = state.native_edit_taken(bridge, revision);
            let moves = command is Transform && state.drawing.tool is MoveSelection;
            &&& after.stroke.gesture.completed_edit is None
            &&& after.stroke.gesture.completed_temporary_picker is None
            &&& moves <==> step is BeginTransform
            &&& !moves <==> step is Enqueue
            &&& step matches NativeEditStep::Enqueue(edit) ==> edit.command == command
                && edit.temporary_picker == state.stroke.gesture.completed_temporary_picker
            &&& step matches NativeEditStep::BeginTransform(edit) ==> edit.command == command
            &&& after.drawing == state.drawing
            &&& after.stroke.backlog == state.stroke.backlog
        }),
{
}

/// A failed gesture is shown as an error, and a pick that waits for it is
/// answered; without a finished gesture nothing happens.
pub proof fn failed_gestures_are_shown<P, D, A>(
    state: CanvasState<P, D, A>,
    bridge: BridgeFacts,
    revision: u64,
)
    ensures
        state.stroke.gesture.completed_edit is None ==> state.native_edit_taken(
            bridge,
            revision,
        ) == (state, NativeEditStep::Nothing),
        state.stroke.gesture.completed_edit matches Some(Err(error)) ==> {
            let (after, step) = state.native_edit_taken(bridge, revision);
            &&& step is Publish
            &&& after.edit.error == Some(EditError::Gesture(error))
            &&& after.stroke.gesture.completed_edit is None
            &&& after.publication_base is Some
            &&& after.drawing == state.drawing
            &&& after.stroke.selection == state.stroke.selection
        },
{
}

/// A temporary read looks at the display at the same place, for the contact it
/// belongs to; anything else is read as it was asked for.
pub proof fn temporary_reads_look_at_the_display(
    command: EditCommand,
    temporary: Option<PickSequence>,
    gesture: crate::stroke_pipeline::GestureState,
)
    ensures
        temporary is None ==> pick_command(command, temporary, gesture) == command,
        !(command is PickColor) ==> pick_command(command, temporary, gesture) == command,
        command matches EditCommand::PickColor { point, source } ==> temporary matches Some(
            sequence,
        ) ==> (pick_command(
            command,
            temporary,
            gesture,
        ) matches EditCommand::PickDisplayColor { point: read, solo, input_sequence } && read
            == point && input_sequence == sequence && (gesture.picker matches Some(picker) ==> (
        picker.source matches PickerSource::Display(shown) ==> solo == shown))),
{
}

/// A move by whole pixels moves by exactly that and does nothing else.
pub proof fn whole_pixels_move_whole(offset: PixelPoint)
    ensures
        pixel_move(offset).offset_milli.x == offset.x * 1000,
        pixel_move(offset).offset_milli.y == offset.y * 1000,
        pixel_move(offset).scale_ppm.x == 1_000_000,
        pixel_move(offset).scale_ppm.y == 1_000_000,
        pixel_move(offset).rotation_millidegrees == 0,
        !pixel_move(offset).flip_x,
        !pixel_move(offset).flip_y,
{
}

/// A move whose transform started keeps its offset as the first draft; one that
/// did not says why.
pub proof fn started_moves_keep_their_offset<P, D, A>(
    state: CanvasState<P, D, A>,
    edit: NativeEdit,
    reason: CommandRejectReason,
    published: bool,
    revision: u64,
)
    ensures
        edit.command matches EditCommand::Transform { offset, edit: _ }
            ==> state.native_transform_begun(edit, Ok(published), revision).stroke.transform.pending
            == Some(pixel_move(offset)),
        state.native_transform_begun(edit, Err(reason), revision).edit.error == Some(
            EditError::TransformNotStarted(reason),
        ),
        state.native_transform_begun(edit, Err(reason), revision).stroke.transform
            == state.stroke.transform,
        state.native_transform_begun(edit, Ok(published), revision).edit == state.edit,
        state.native_transform_begun(edit, Ok(published), revision).publication_base is Some,
{
}

/// A pick that met a busy canvas is kept for the next try; any other refusal is
/// shown; an accepted one is bound to its contact.
pub proof fn refused_picks_are_tried_again<P, D, A>(
    state: CanvasState<P, D, A>,
    edit: NativeEdit,
    reason: CommandRejectReason,
    bridge: BridgeFacts,
    revision: u64,
)
    ensures
        ({
            let after = state.native_edit_enqueued(edit, Err(reason), bridge, revision);
            let again = (edit.temporary_picker is Some || edit.picker_token is Some) && (reason
                is CommandQueueBusy || reason is StaleProjection);
            &&& again ==> after.stroke.gesture.completed_edit == Some(
                Ok::<_, crate::edit::GestureError>(edit.command),
            ) && after.stroke.gesture.completed_temporary_picker == edit.temporary_picker
                && after.edit == state.edit
            &&& !again ==> after.edit.error == Some(EditError::NotApplied(reason))
            &&& after.drawing == state.drawing
        }),
        state.artwork_job is Some ==> {
            let after = state.native_edit_enqueued(edit, Ok(false), bridge, revision);
            &&& after.artwork_job matches Some(job) && job.picker_token == edit.picker_token
                && job.transform == state.artwork_job->0.transform && job.temporary_picker
                == state.artwork_job->0.temporary_picker && job.active_layer
                == state.artwork_job->0.active_layer
            &&& after.stroke == state.stroke
        },
{
}

/// The canvas is idle exactly where no job, gesture, stroke, waiting stroke,
/// unwritten artwork or running export is left.
pub proof fn idle_means_nothing_is_left<P, D, A>(state: CanvasState<P, D, A>, work: WorkFacts)
    ensures
        state.artwork_busy(work) <==> !(state.artwork_job is None
            && !state.stroke.gesture.edit_gesture && !work.scene_live_stroke
            && state.stroke.active is None && state.stroke.backlog.len() == 0
            && work.writer_pending == 0 && !(work.export is Queued) && !(work.export is Running)),
{
}

/// Only transforms that still make a draft can be stopped.
pub proof fn only_drafts_can_be_stopped(command: TransformCommand)
    ensures
        !cancellable_transform(None),
        cancellable_transform(Some(command)) <==> command is Begin || command is Paste || command
            is Preview,
{
}

/// Escape is offered exactly where it stops something.
pub proof fn escape_is_offered_where_it_helps<P, D, A>(
    state: CanvasState<P, D, A>,
    bridge: BridgeFacts,
)
    ensures
        state.staging_cancel(bridge).edit.can_cancel == state.can_cancel(bridge),
        state.staging_cancel(bridge).edit.busy == state.edit.busy,
        state.staging_cancel(bridge).edit.error == state.edit.error,
        state.staging_cancel(bridge).stroke == state.stroke,
        state.artwork_job is None && !state.stroke.transform.pending_cancel && (
        state.stroke.active is Some || state.stroke.gesture.edit_gesture
            || state.stroke.gesture.picker is Some || state.stroke.transform.projection is Some
            || state.stroke.transform.starting) ==> state.can_cancel(bridge),
        state.artwork_job is None && state.stroke.transform.pending_cancel ==> !state.can_cancel(
            bridge,
        ),
        state.artwork_job matches Some(job) ==> job.picker_token is None && job.transform is None
            ==> !state.can_cancel(bridge),
        state.artwork_job matches Some(job) ==> (job.transform matches Some(command) && (command
            is Begin || command is Paste || command is Preview))
            && !state.stroke.transform.pending_cancel ==> state.can_cancel(bridge),
{
}

/// The base of the publications is set once and then kept.
pub proof fn the_first_base_is_kept<P, D, A>(
    state: CanvasState<P, D, A>,
    first: u64,
    second: u64,
)
    ensures
        state.publication_base is None ==> state.based_on(first).publication_base == Some(first),
        state.based_on(first).based_on(second) == state.based_on(first),
        state.based_on(first).stroke == state.stroke,
        state.based_on(first).edit == state.edit,
{
}

/// What is in flight is queued or running.
pub proof fn exports_in_flight(status: ExportStatus)
    ensures
        status.in_flight() <==> status is Queued || status is Running,
{
}

/// Samples that are still queued when the canvas closes go to the active layer
/// with the accepted controls.
pub proof fn closing_uses_what_was_accepted<P, D, A>(
    state: CanvasState<P, D, A>,
    tree: LayerTree,
)
    ensures
        state.shutdown_begun(tree).stroke.drawing == state.drawing,
        state.shutdown_begun(tree).stroke.focus == tree.focus_on(state.active_layer),
        state.shutdown_begun(tree).stroke.active == state.stroke.active,
        state.shutdown_begun(tree).stroke.gesture == state.stroke.gesture,
        state.shutdown_begun(tree).stroke.backlog == state.stroke.backlog,
        state.shutdown_begun(tree).pending_save == state.pending_save,
{
}

/// An edit that a gesture finished before the close is sent; a temporary read
/// is answered without being read; an error is reported.
pub proof fn closing_sends_finished_edits<P, D, A>(state: CanvasState<P, D, A>)
    ensures
        ({
            let (after, edit) = state.closing_edit();
            let gesture = state.stroke.gesture;
            &&& gesture.completed_temporary_picker is Some ==> edit is Nothing
            &&& gesture.completed_temporary_picker is None ==> match gesture.completed_edit {
                Some(Ok(command)) => edit == ClosingEdit::Send(command),
                Some(Err(error)) => edit == ClosingEdit::Failed(error),
                None => edit is Nothing,
            }
            &&& after.stroke.backlog == state.stroke.backlog
            &&& after.pending_save == state.pending_save
            &&& after.drawing == state.drawing
        }),
{
}

/// A waiting save is exported on the way out under its number; a failed
/// workspace fails it instead.
pub proof fn closing_exports_the_waiting_save<P, D, A>(
    state: CanvasState<P, D, A>,
    workspace_failed: bool,
)
    ensures
        ({
            let (after, save) = state.closing_save(workspace_failed);
            &&& after.pending_save is None
            &&& save is FailExport <==> state.pending_save is Some && workspace_failed
            &&& save is Export <==> state.pending_save is Some && !workspace_failed
                && state.has_export_path
            &&& save matches ClosingSave::Export { generation } ==> state.pending_save == Some(
                generation,
            )
            &&& after.stroke == state.stroke
        }),
{
}

} // verus!
