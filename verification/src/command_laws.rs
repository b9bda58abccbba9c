//! What an editor command comes to once it is let through: which step it asks
//! for, what it changes on the way, and what it leaves alone.
use vstd::prelude::*;

use crate::canvas::{ActiveCanvas, CanvasState};
use crate::command::CommandRejectReason;
use crate::document::{LayerId, LayerTreeNodeId};
use crate::drawing::DrawingTool;
use crate::edit::EditCommand;
use crate::editor_command::{
    pause_step, projection_rejection, CommandFacts, EditorCommand, EditorStep, PauseProgress,
    PauseStep, ProjectionError, ViewportCommand,
};
use crate::effect::{InkEffect, Notice};
use crate::layer_command::LayerCommand;
use crate::tool_command::ToolCommand;
use crate::transform::TransformCommand;

verus! {

/// Nothing holds commands back: no finished pick waits, no transform is active
/// and the worker is free.
pub open spec fn unhindered<P, D, A>(state: CanvasState<P, D, A>) -> bool {
    &&& !(state.stroke.gesture.picker matches Some(picker) && picker.released)
    &&& !state.stroke.transform.starting
    &&& state.stroke.transform.projection is None
    &&& state.artwork_job is None
}

/// Unhindered commands reach the part they are meant for, and only a chosen
/// layer or a cancelled gesture changes anything yet.
pub proof fn unhindered_commands_go_ahead<P, D, A>(
    state: CanvasState<P, D, A>,
    edit: EditCommand,
    facts: CommandFacts,
)
    requires
        unhindered(state),
    ensures
        state.command_begun(EditorCommand::Edit(edit), facts) == (state, EditorStep::Edit(edit)),
        state.command_begun(EditorCommand::Dock, facts) == (state, EditorStep::ChangeDock),
        state.command_begun(EditorCommand::Save, facts).0 == state,
        state.command_begun(EditorCommand::Save, facts).1 is ReserveExport
            <==> state.has_export_path,
        !state.has_export_path ==> state.command_begun(EditorCommand::Save, facts).1
            == EditorStep::Return(Err(CommandRejectReason::UnsupportedCommand)),
        forall|history: crate::editor_command::HistoryCommand|
            (#[trigger] state.command_begun(EditorCommand::History(history), facts)) == (
                state,
                EditorStep::History,
            ),
{
}

/// The viewport moves for every command but a centre outside the page, and the
/// artwork, the tool and any gesture stay as they are.
pub proof fn viewports_move_within_the_page<P, D, A>(
    state: CanvasState<P, D, A>,
    viewport: ViewportCommand,
    facts: CommandFacts,
)
    ensures
        state.command_begun(EditorCommand::Viewport(viewport), facts).0 == state,
        state.command_begun(EditorCommand::Viewport(viewport), facts).1 is MoveViewport <==> !(
        viewport matches ViewportCommand::CenterPageAt { page_x_10k, page_y_10k } && (page_x_10k < 0
            || page_x_10k > 10_000 || page_y_10k < 0 || page_y_10k > 10_000)),
        !(state.command_begun(EditorCommand::Viewport(viewport), facts).1 is MoveViewport)
            ==> state.command_begun(EditorCommand::Viewport(viewport), facts).1
            == EditorStep::Return(Err(CommandRejectReason::InvalidViewport)),
{
}

/// Choosing a known layer makes it the active one, for the canvas and for new
/// contacts alike; an unknown one changes nothing.
pub proof fn chosen_layers_become_active<P, D, A>(
    state: CanvasState<P, D, A>,
    layer: LayerId,
    facts: CommandFacts,
)
    requires
        unhindered(state),
        !state.stroke.gesture.edit_gesture,
    ensures
        ({
            let (after, step) = state.command_begun(
                EditorCommand::Layer(LayerCommand::SetActive(layer)),
                facts,
            );
            &&& facts.layer_known ==> {
                &&& step == EditorStep::Return(Ok(false))
                &&& after.active_layer == layer
                &&& after.stroke.effects == state.stroke.effects.push(
                    InkEffect::SetAdmissionLayer(layer),
                )
                &&& after.drawing == state.drawing
                &&& after.edit == state.edit
                &&& after.pending_save == state.pending_save
                &&& after.stroke.active == state.stroke.active
                &&& after.stroke.backlog == state.stroke.backlog
            }
            &&& !facts.layer_known ==> step == EditorStep::Return(
                Err(CommandRejectReason::UnknownLayer),
            ) && after == state
        }),
{
}

/// The layer stays where it is while a gesture or a job depends on it.
pub proof fn layers_stay_while_they_are_used<P, D, A>(
    state: CanvasState<P, D, A>,
    layer: LayerId,
    facts: CommandFacts,
)
    requires
        state.stroke.gesture.edit_gesture || state.artwork_job is Some,
    ensures
        ({
            let (after, step) = state.command_begun(
                EditorCommand::Layer(LayerCommand::SetActive(layer)),
                facts,
            );
            &&& step == EditorStep::Return(Err(CommandRejectReason::CommandQueueBusy))
            &&& after.active_layer == state.active_layer
        }),
{
}

/// Showing one layer alone and asking again shows all of them; asking for
/// another one shows that one.
pub proof fn solo_is_a_switch<P, D, A>(
    state: CanvasState<P, D, A>,
    node: LayerTreeNodeId,
    facts: CommandFacts,
)
    requires
        unhindered(state),
    ensures
        ({
            let (after, step) = state.command_begun(
                EditorCommand::Layer(LayerCommand::ToggleSolo(node)),
                facts,
            );
            &&& after == state
            &&& step is SetSolo
            &&& facts.solo_node == Some(node) <==> step == EditorStep::SetSolo(None)
            &&& facts.solo_node != Some(node) <==> step == EditorStep::SetSolo(Some(node))
        }),
{
}

/// Every other layer command goes on to the idle check and changes nothing yet.
pub proof fn other_layer_commands_wait_for_idle<P, D, A>(
    state: CanvasState<P, D, A>,
    command: LayerCommand,
    facts: CommandFacts,
)
    requires
        unhindered(state),
        !(command is SetActive) && !(command is ToggleSolo),
    ensures
        state.command_begun(EditorCommand::Layer(command), facts) == (state, EditorStep::Layer),
{
}

/// A tool command goes on to its pause exactly while no stroke and no gesture
/// is in progress.
pub proof fn tool_commands_wait_for_the_pen<P, D, A>(
    state: CanvasState<P, D, A>,
    command: ToolCommand,
    facts: CommandFacts,
)
    requires
        unhindered(state),
        !(command is CancelGesture),
        !facts.bridge.temporary_pick_pending,
    ensures
        state.command_begun(EditorCommand::Tool(command), facts).0 == state,
        state.command_begun(EditorCommand::Tool(command), facts).1 is PauseForTool
            <==> !facts.work.scene_live_stroke && !state.stroke.gesture.edit_gesture,
        !(state.command_begun(EditorCommand::Tool(command), facts).1 is PauseForTool)
            ==> state.command_begun(EditorCommand::Tool(command), facts).1 == EditorStep::Return(
            Err(CommandRejectReason::CommandQueueBusy),
        ),
{
}

/// Escape stops what is in progress; with nothing in progress it takes the
/// selection away, and with no selection it does nothing.
pub proof fn escape_stops_the_innermost<P, D, A>(state: CanvasState<P, D, A>, facts: CommandFacts)
    requires
        !state.transform_is_active(),
    ensures
        ({
            let gesture = state.stroke.gesture;
            let busy = gesture.edit_gesture || gesture.completed_edit is Some || gesture.picker
                is Some || state.stroke.active is Some;
            let (after, step) = state.command_begun(
                EditorCommand::Tool(ToolCommand::CancelGesture),
                facts,
            );
            &&& busy ==> step is ExecuteGpuOps && after.stroke.active is None
                && after.stroke.gesture.picker is None && after.stroke.gesture.completed_edit
                is None && !after.stroke.gesture.edit_gesture
            &&& !busy && state.stroke.selection is Some ==> step == EditorStep::Edit(
                EditCommand::ClearSelection,
            )
            &&& !busy && state.stroke.selection is None ==> step == EditorStep::Return(Ok(false))
            &&& after.drawing == state.drawing
            &&& after.active_layer == state.active_layer
            &&& after.artwork_job == state.artwork_job
            &&& after.stroke.backlog == state.stroke.backlog
        }),
{
}

/// While a transform is active, Escape cancels it, a chosen tool is handed to
/// it, and its own commands and the viewport go through.
pub proof fn transforms_decide_for_themselves<P, D, A>(
    state: CanvasState<P, D, A>,
    tool: DrawingTool,
    transform: TransformCommand,
    facts: CommandFacts,
)
    requires
        state.transform_is_active(),
        !(state.stroke.gesture.picker matches Some(picker) && picker.released),
    ensures
        state.command_begun(EditorCommand::Tool(ToolCommand::CancelGesture), facts) == (
            state,
            EditorStep::Transform(TransformCommand::Cancel),
        ),
        state.command_begun(EditorCommand::Tool(ToolCommand::Select(tool)), facts) == (
            state,
            EditorStep::SwitchTransformTool { tool, template: None },
        ),
        state.command_begun(
            EditorCommand::Edit(EditCommand::FreeTransform(transform)),
            facts,
        ) == (state, EditorStep::Edit(EditCommand::FreeTransform(transform))),
        state.command_begun(EditorCommand::Dock, facts) == (state, EditorStep::ChangeDock),
{
}

/// What a transform refuses is said aloud and changes nothing else.
pub proof fn refusals_by_a_transform_are_noticed<P, D, A>(
    state: CanvasState<P, D, A>,
    command: EditorCommand,
    facts: CommandFacts,
)
    requires
        state.transform_is_active(),
        !(state.stroke.gesture.picker matches Some(picker) && picker.released),
        command is Layer || command is History || command is Save,
    ensures
        state.command_begun(command, facts).0.stroke.effects == state.stroke.effects.push(
            InkEffect::PublishNotice(Notice::TransformPending),
        ),
        state.command_begun(command, facts).0.active_layer == state.active_layer,
        state.command_begun(command, facts).0.pending_save == state.pending_save,
{
}

/// A tool command under its pause changes the drawing controls as commanded,
/// tells the navigation which tool is chosen, and resumes input unless a job
/// keeps it paused. A refused one only resumes.
pub proof fn tool_commands_take_effect<P, D, A>(
    state: CanvasState<P, D, A>,
    command: ToolCommand,
)
    ensures
        ({
            let (after, result) = state.tool_applied(command);
            &&& result is Ok <==> state.drawing.commanded(command) is Some
            &&& result matches Ok(changed) ==> !changed
            &&& result is Err ==> result == Err::<bool, _>(CommandRejectReason::UnsupportedCommand)
                && after.drawing == state.drawing
            &&& state.drawing.commanded(command) matches Some(next) ==> after.drawing.tool
                == next.tool && after.drawing.color == next.color && after.drawing.background_color
                == next.background_color && after.drawing.edit_settings == next.edit_settings
                && after.drawing.current_brush() == next.current_brush()
            &&& state.artwork_job is None ==> after.stroke.effects.len() > 0
                && after.stroke.effects.last() is ResumeAfterEdit
            &&& state.artwork_job is Some && result is Err ==> after == state
            &&& after.active_layer == state.active_layer
            &&& after.artwork_job == state.artwork_job
            &&& after.edit == state.edit
            &&& after.stroke.backlog == state.stroke.backlog
            &&& after.stroke.active == state.stroke.active
        }),
{
}

/// The navigation learns of every chosen tool: it takes over for the hand and
/// lets go for any other.
pub proof fn navigation_follows_the_tool<P, D, A>(state: CanvasState<P, D, A>, tool: DrawingTool)
    requires
        state.artwork_job is None,
        state.drawing.wf(),
    ensures
        state.tool_applied(ToolCommand::Select(tool)).0.stroke.effects == state.stroke.effects.push(
            InkEffect::SetNavigationTool(tool is Move),
        ).push(InkEffect::ResumeAfterEdit),
        state.tool_applied(ToolCommand::Select(tool)).0.drawing.tool == tool,
{
}

/// Without a pause a tool command changes nothing.
pub proof fn tool_commands_need_their_pause<P: Copy, D, A>(command: ToolCommand)
    ensures
        forall|canvas: &mut ActiveCanvas<P, D, A>, result: Result<bool, CommandRejectReason>|
            #[trigger] call_ensures(
                ActiveCanvas::<P, D, A>::tool_command_paused,
                (canvas, command, false),
                result,
            ) ==> final(canvas)@ == canvas@ && result == Err::<bool, _>(
                CommandRejectReason::CommandQueueBusy,
            ),
{
}

/// A failed workspace takes no command; a valid revision is let through while
/// revisions are left; a stale one only where the command says how it still
/// applies.
pub proof fn revisions_are_held_to<P: Copy, D, A>(
    canvas: ActiveCanvas<P, D, A>,
    command: EditorCommand,
    based_on: u64,
    current: u64,
    workspace_failed: bool,
    validation: Result<(), CommandRejectReason>,
    result: Result<(), CommandRejectReason>,
)
    requires
        call_ensures(
            ActiveCanvas::<P, D, A>::check_command_revision,
            (&canvas, &command, based_on, current, workspace_failed, validation),
            result,
        ),
    ensures
        workspace_failed ==> result == Err::<(), _>(CommandRejectReason::WorkspaceFailed),
        result is Ok ==> !workspace_failed && current < u64::MAX,
        !workspace_failed && validation is Ok && current < u64::MAX ==> result is Ok,
        !workspace_failed && validation is Ok && current == u64::MAX ==> result == Err::<(), _>(
            CommandRejectReason::RevisionExhausted,
        ),
        !workspace_failed && validation is Err && !(command is Save) && !(command is Tool)
            ==> result == validation,
        !workspace_failed && validation is Err && command is Save && current < u64::MAX ==> (result
            is Ok <==> canvas@.publication_base == Some(based_on)),
{
}

/// Steps of the size keep applying to the tool that is drawn with, over any
/// number of publications in between, and to no other tool.
pub proof fn size_steps_outlive_publications<P, D, A>(
    state: CanvasState<P, D, A>,
    tool: DrawingTool,
    steps: i8,
    based_on: u64,
    current: u64,
)
    ensures
        state.tolerates_revision(
            EditorCommand::Tool(ToolCommand::AdjustSizeSteps { tool, steps }),
            based_on,
            current,
        ) <==> {
            &&& tool == state.drawing.tool
            &&& tool is Pencil || tool is Pen || tool is Brush || tool is Eraser
            &&& based_on <= current
        },
{
}

/// A reserved save waits under its number and replaces an older one; nothing
/// else changes.
pub proof fn reserved_saves_wait<P: Copy, D, A>(reserved: Result<u64, ()>)
    ensures
        forall|canvas: &mut ActiveCanvas<P, D, A>, result: Result<bool, CommandRejectReason>|
            #[trigger] call_ensures(
                ActiveCanvas::<P, D, A>::save_reserved,
                (canvas, reserved),
                result,
            ) ==> {
                &&& reserved matches Ok(generation) ==> final(canvas)@.pending_save == Some(
                    generation,
                ) && result is Ok
                &&& reserved is Err ==> final(canvas)@.pending_save == canvas@.pending_save
                    && result == Err::<bool, _>(CommandRejectReason::CommandQueueBusy)
                &&& final(canvas)@.stroke == canvas@.stroke
                &&& final(canvas)@.drawing == canvas@.drawing
                &&& final(canvas)@.active_layer == canvas@.active_layer
                &&& final(canvas)@.artwork_job == canvas@.artwork_job
            },
{
}

/// A finished layer command hands its result on, and resumes input unless a
/// job keeps it paused.
pub proof fn layer_commands_resume_input<P: Copy, D, A>(given: Result<bool, CommandRejectReason>)
    ensures
        forall|canvas: &mut ActiveCanvas<P, D, A>, result: Result<bool, CommandRejectReason>|
            #[trigger] call_ensures(
                ActiveCanvas::<P, D, A>::layer_command_done,
                (canvas, given),
                result,
            ) ==> {
                &&& result == given
                &&& canvas@.artwork_job is None ==> final(canvas)@.stroke.effects
                    == canvas@.stroke.effects.push(InkEffect::ResumeAfterEdit)
                &&& canvas@.artwork_job is Some ==> final(canvas)@ == canvas@
                &&& final(canvas)@.drawing == canvas@.drawing
            },
{
}

/// A pause is asked for only on an idle canvas, and a command goes ahead only
/// under its pause; each refusal is handed on.
pub proof fn artwork_waits_for_its_pause(progress: PauseProgress, step: PauseStep)
    requires
        call_ensures(pause_step, (progress,), step),
    ensures
        step is Proceed <==> progress == PauseProgress::Paused(true),
        step is Pause <==> (progress matches PauseProgress::Idle(idle) && idle is Ok),
        progress matches PauseProgress::Idle(Err(reason)) ==> step == PauseStep::Return(reason),
        progress == PauseProgress::Paused(false) ==> step == PauseStep::Return(
            CommandRejectReason::CommandQueueBusy,
        ),
{
}

/// The projection's failures keep their meaning as refusals.
pub proof fn projection_errors_keep_their_meaning(
    error: ProjectionError,
    reason: CommandRejectReason,
)
    requires
        call_ensures(projection_rejection, (error,), reason),
    ensures
        reason is RevisionExhausted <==> error is RevisionExhausted,
        reason is UnknownLayer <==> error is UnknownActiveLayer,
{
}

} // verus!
