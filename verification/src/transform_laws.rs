//! What a transform draft goes through: drags, typed values, its settlement
//! and the tool that is selected after it.
use vstd::prelude::*;

use crate::canvas::{ActiveCanvas, BridgeFacts, CanvasState};
use crate::command::CommandRejectReason;
use crate::document::LayerId;
use crate::drawing::DrawingTool;
use crate::effect::InkEffect;
use crate::input::StylusSample;
use crate::stroke_pipeline::{PipelineState, Selection, StrokePipeline, TransformState};
use crate::tile_map::TileKey;
use crate::transform::{
    AffineTransform, SelectionBounds, TransformCommand, TransformProjection, TransformRefusal,
};
use crate::transform_display::{cache_after, display_after, Tiles};
use crate::transform_panel::{InputError, PanelChange, TransformInputs, TransformPanel};
use crate::transform_runtime::{starts_draft, DragGeometry, TransformProgress, TransformStep};
use crate::transform_settle::TransformFlush;

verus! {

/// A drag that starts on the selection waits for its draft, from the untouched
/// position; one that misses it starts nothing.
pub proof fn drags_start_on_the_selection<P, D, A>(
    state: PipelineState<P, D, A>,
    sample: StylusSample<P>,
    hit: bool,
)
    ensures
        ({
            let after = state.native_transform_begun(sample, hit);
            let starts = sample.phase is Begin && hit && (state.selection matches Some(selection)
                && selection.bounds is Some);
            &&& !starts ==> after == state
            &&& starts ==> {
                &&& after.transform.starting
                &&& after.transform.drag matches Some(drag) && drag.viewport_revision
                    == sample.viewport_revision && drag.original == crate::transform::identity()
                &&& after.transform.projection == state.transform.projection
                &&& after.transform.pending == state.transform.pending
                &&& after.selection == state.selection
                &&& after.active == state.active
            }
        }),
{
}

/// A drag begins on a handle of a confirmed draft, from where the draft stands;
/// off its handles nothing is held.
pub proof fn drags_start_where_the_draft_stands<P, D, A>(
    state: PipelineState<P, D, A>,
    sample: StylusSample<P>,
    geometry: DragGeometry,
)
    requires
        sample.phase is Begin,
        state.transform.projection is Some,
        state.transform.pending is None,
        state.transform.pending_tool is None,
        !state.transform.pending_cancel,
    ensures
        ({
            let after = state.transform_observed(sample, false, geometry);
            &&& after.transform.drag is Some <==> geometry.hit
            &&& after.transform.drag matches Some(drag) ==> drag.original
                == state.transform.projection->0.transform && drag.viewport_revision
                == sample.viewport_revision
            &&& after.transform.projection == state.transform.projection
            &&& after.transform.pending is None
            &&& state.transform_observed(sample, true, geometry) == state
        }),
{
}

/// While it is held, a draft follows the pen: what the handles make of the
/// position waits for the worker. Letting go keeps the last one.
pub proof fn drafts_follow_the_pen<P, D, A>(
    state: PipelineState<P, D, A>,
    sample: StylusSample<P>,
    busy: bool,
    geometry: DragGeometry,
)
    requires
        sample.phase is Move || sample.phase is End,
        state.transform.drag is Some,
        state.transform.drag->0.viewport_revision == sample.viewport_revision,
        state.transform.pending_tool is None,
        !state.transform.pending_cancel,
    ensures
        ({
            let after = state.transform_observed(sample, busy, geometry);
            &&& geometry.update matches Ok(next) ==> {
                &&& after.transform.pending == Some(next)
                &&& after.transform.drag is Some <==> sample.phase is Move
                &&& after.transform.drag matches Some(drag) ==> Some(drag) == state.transform.drag
                &&& after.effects == state.effects
            }
            &&& geometry.update matches Err(reason) ==> {
                &&& after.transform.drag is None
                &&& after.transform.pending == Some(state.transform.drag->0.original)
                &&& after.effects.last() == InkEffect::PublishTransformRefusal(reason)
            }
            &&& after.transform.projection == state.transform.projection
            &&& after.selection == state.selection
        }),
{
}

/// A drag across a changed viewport, or a cancelled one, falls back to where it
/// started; without a drag nothing moves.
pub proof fn broken_drags_fall_back<P, D, A>(
    state: PipelineState<P, D, A>,
    sample: StylusSample<P>,
    busy: bool,
    geometry: DragGeometry,
)
    requires
        state.transform.pending_tool is None,
        !state.transform.pending_cancel,
        !(sample.phase is Begin),
    ensures
        ({
            let after = state.transform_observed(sample, busy, geometry);
            &&& state.transform.drag is None ==> after.transform == state.transform
            &&& (state.transform.drag matches Some(drag) && (sample.phase is Cancel
                || drag.viewport_revision != sample.viewport_revision)) ==> after.transform.drag
                is None && after.transform.pending == Some(state.transform.drag->0.original)
        }),
{
}

/// A draft that is to be cancelled or left for another tool takes no more
/// drags.
pub proof fn settled_intents_stop_drags<P, D, A>(
    state: PipelineState<P, D, A>,
    sample: StylusSample<P>,
    busy: bool,
    geometry: DragGeometry,
)
    requires
        state.transform.pending_tool is Some || state.transform.pending_cancel,
    ensures
        state.transform_observed(sample, busy, geometry) == state,
{
}

/// A command on a draft goes to the worker after its checks: a draft is started
/// only where there is none, previewed only where there is one, and committed
/// only as it was confirmed.
pub proof fn drafts_are_commanded_in_order<P, D, A>(
    state: CanvasState<P, D, A>,
    transform: AffineTransform,
    generation: u64,
    bridge: BridgeFacts,
)
    ensures
        ({
            let current = state.stroke.transform;
            let idle = TransformProgress::Idle(Ok(()));
            let begin = state.transform_stepped(TransformCommand::Begin, idle, bridge).1;
            let paste = state.transform_stepped(TransformCommand::Paste, idle, bridge).1;
            let preview = state.transform_stepped(
                TransformCommand::Preview(transform),
                idle,
                bridge,
            ).1;
            let commit = state.transform_stepped(
                TransformCommand::Commit { generation },
                idle,
                bridge,
            ).1;
            &&& current.projection is Some ==> begin == TransformStep::Return(
                Err(CommandRejectReason::CommandQueueBusy),
            ) && paste == TransformStep::Return(Err(CommandRejectReason::CommandQueueBusy))
            &&& current.projection is None && !current.starting ==> begin is Pause && paste
                is CheckPasteTree
            &&& current.projection is None ==> preview == TransformStep::Return(
                Err(CommandRejectReason::UnsupportedCommand),
            ) && commit == TransformStep::Return(Err(CommandRejectReason::UnsupportedCommand))
            &&& current.projection is Some ==> commit is Pause && (
            preview matches TransformStep::Queue(job) && job.transform == Some(
                TransformCommand::Preview(transform),
            ))
        }),
        state.transform_stepped(
            TransformCommand::Commit { generation },
            TransformProgress::Start,
            bridge,
        ).1 is CheckIdle <==> state.stroke.transform.drag is None
            && state.stroke.transform.pending is None && !state.stroke.transform.pending_cancel && (
        state.stroke.transform.projection matches Some(projection) && projection.can_commit),
{
}

/// Under its pause a command is queued as the job it is; a refused one hands
/// its reason back and leaves the canvas as it was.
pub proof fn transform_commands_are_queued<P, D, A>(
    state: CanvasState<P, D, A>,
    command: TransformCommand,
    reason: CommandRejectReason,
    bridge: BridgeFacts,
)
    ensures
        state.transform_stepped(command, TransformProgress::Paused(true), bridge).0 == state,
        state.transform_stepped(
            command,
            TransformProgress::Paused(true),
            bridge,
        ).1 matches TransformStep::Queue(job) && job.transform == Some(command)
            && job.temporary_picker is None && job.picker_token is None && job.active_layer is None,
        state.transform_stepped(command, TransformProgress::Paused(false), bridge) == (
            state,
            TransformStep::Return(Err(CommandRejectReason::CommandQueueBusy)),
        ),
        state.transform_stepped(command, TransformProgress::Idle(Err(reason)), bridge) == (
            state,
            TransformStep::Return(Err(reason)),
        ),
        state.transform_stepped(command, TransformProgress::PasteTree(Err(reason)), bridge) == (
            state,
            TransformStep::Return(Err(reason)),
        ),
{
}

/// A draft that the worker takes up selects the tool that moves it, marks a
/// paste as one, and is not yet shown; any other command only makes it busy.
pub proof fn started_drafts_select_their_tool<P, D, A>(
    state: CanvasState<P, D, A>,
    command: TransformCommand,
    bridge: BridgeFacts,
)
    ensures
        ({
            let (after, step) = state.transform_stepped(
                command,
                TransformProgress::Queued(true),
                bridge,
            );
            let starts = command is Begin || command is Paste;
            &&& step == TransformStep::Return(Ok(false))
            &&& after.artwork_job matches Some(job) && job.transform == Some(command)
            &&& after.edit.busy
            &&& after.edit.error is None
            &&& starts ==> after.drawing.tool is MoveSelection && after.stroke.transform.starting
                && (after.stroke.transform.paste <==> command is Paste)
                && after.stroke.effects.last() == InkEffect::SetNavigationTool(false)
            &&& !starts ==> after.drawing == state.drawing && after.stroke == state.stroke
            &&& after.stroke.transform.projection == state.stroke.transform.projection
            &&& after.stroke.transform.pending == state.stroke.transform.pending
            &&& after.stroke.transform.drag == state.stroke.transform.drag
            &&& after.stroke.selection == state.stroke.selection
        }),
        ({
            let (after, step) = state.transform_stepped(
                command,
                TransformProgress::Queued(false),
                bridge,
            );
            &&& step == TransformStep::Return(Err(CommandRejectReason::CommandQueueBusy))
            &&& after.stroke.effects.last() is ResumeAfterEdit
            &&& after.artwork_job == state.artwork_job
            &&& after.drawing == state.drawing
            &&& after.stroke.transform == state.stroke.transform
        }),
{
}

/// Escape drops what was only intended. A draft that nobody took up yet ends at
/// once, one in the worker's hands is cancelled after it, and a confirmed one
/// is cancelled through the worker.
pub proof fn escape_ends_a_draft<P, D, A>(state: CanvasState<P, D, A>, bridge: BridgeFacts)
    requires
        state.transform_is_active(),
        !(state.artwork_job matches Some(job) && (job.transform matches Some(command) && (command
            is Commit || command is Cancel))),
    ensures
        ({
            let (after, step) = state.transform_stepped(
                TransformCommand::Cancel,
                TransformProgress::Start,
                bridge,
            );
            &&& after.stroke.transform.drag is None
            &&& after.stroke.transform.pending is None
            &&& after.stroke.transform.pending_tool is None
            &&& after.stroke.transform.pending_pencil_template is None
            &&& after.stroke.transform.projection == state.stroke.transform.projection
            &&& state.artwork_job is Some ==> after.stroke.transform.pending_cancel && step
                == TransformStep::Return(Ok(false)) && after.artwork_job == state.artwork_job
            &&& state.artwork_job is None && state.stroke.transform.projection is Some ==> step
                is CheckIdle
            &&& state.artwork_job is None && state.stroke.transform.projection is None
                ==> !after.stroke.transform.starting && !after.stroke.transform.pending_cancel
                && step == TransformStep::Return(Ok(false))
            &&& after.drawing == state.drawing
            &&& after.stroke.selection == state.stroke.selection
        }),
{
}

/// A confirmed draft is shown as the worker gives it, with its layer and its
/// selection, and the tool that moves it is selected.
pub proof fn confirmed_drafts_are_shown<P, D, A>(
    state: CanvasState<P, D, A>,
    layer: LayerId,
    selection: Option<Selection>,
    projection: TransformProjection,
)
    ensures
        ({
            let after = state.transform_installed(layer, selection, Some(projection));
            &&& after.stroke.transform.projection == Some(projection)
            &&& !after.stroke.transform.starting
            &&& !after.stroke.transform.revalidating
            &&& after.stroke.transform.pending == state.stroke.transform.pending
            &&& after.stroke.transform.drag == state.stroke.transform.drag
            &&& after.stroke.transform.pending_cancel == state.stroke.transform.pending_cancel
            &&& after.stroke.transform.pending_tool == state.stroke.transform.pending_tool
            &&& after.stroke.selection == selection
            &&& after.active_layer == layer
            &&& after.drawing.tool is MoveSelection
            &&& after.stroke.effects == state.stroke.effects.push(
                InkEffect::SetAdmissionLayer(layer),
            ).push(InkEffect::SetNavigationTool(false))
        }),
{
}

/// When a draft has ended, the tool that was asked for meanwhile is selected,
/// or else the lasso, and the layer and the selection are those of its end.
pub proof fn ended_drafts_select_the_next_tool<P, D, A>(
    state: CanvasState<P, D, A>,
    layer: LayerId,
    selection: Option<Selection>,
)
    requires
        state.drawing.wf(),
    ensures
        ({
            let after = state.transform_installed(layer, selection, None);
            let transform = state.stroke.transform;
            &&& transform.pending_tool matches Some(tool) ==> after.drawing.tool == tool
            &&& transform.pending_tool is None ==> after.drawing.tool is Lasso
            &&& (transform.pending_tool is Some && transform.pending_tool->0 is Pencil
                && transform.pending_pencil_template is Some) ==> after.drawing.pencil_template
                == transform.pending_pencil_template->0
            &&& after.drawing.color == state.drawing.color
            &&& after.drawing.edit_settings == state.drawing.edit_settings
            &&& after.stroke.transform.projection is None
            &&& after.stroke.selection == selection
            &&& after.active_layer == layer
            &&& after.stroke.effects.len() == state.stroke.effects.len() + 2
            &&& after.stroke.effects.last() == InkEffect::SetNavigationTool(
                after.drawing.tool is Move,
            )
        }),
{
}

/// Another tool waits until the draft is settled; the tool that is selected
/// already asks for nothing.
pub proof fn chosen_tools_wait_for_the_draft<P: Copy, D, A>(
    tool: DrawingTool,
    template: Option<crate::drawing::PencilTemplate>,
)
    ensures
        forall|canvas: &mut ActiveCanvas<P, D, A>, flush: bool|
            #[trigger] call_ensures(
                ActiveCanvas::<P, D, A>::switch_transform_tool,
                (canvas, tool, template),
                flush,
            ) ==> {
                &&& tool != canvas@.drawing.tool ==> flush
                &&& canvas@.stroke.transform.pending_tool is Some ==> flush
                &&& flush ==> {
                    &&& final(canvas)@.stroke.transform.pending_tool == Some(tool)
                    &&& final(canvas)@.stroke.transform.pending_pencil_template == template
                    &&& final(canvas)@.stroke.transform.drag is None
                    &&& final(canvas)@.stroke.transform.projection
                        == canvas@.stroke.transform.projection
                    &&& final(canvas)@.stroke.transform.pending == canvas@.stroke.transform.pending
                }
                &&& !flush ==> final(canvas)@ == canvas@
                &&& final(canvas)@.drawing == canvas@.drawing
            },
{
}

/// What waits is brought to the worker in this order: a cancel, the start, the
/// newest draft, and last the settlement that a chosen tool needs. An untouched
/// draft is cancelled, a confirmed one is committed, any other is confirmed
/// again.
pub proof fn flushes_settle_the_draft(transform: TransformState)
    requires
        !transform.pending_cancel,
    ensures
        transform.starting ==> transform.next_flush() == Some(TransformCommand::Begin),
        transform.pending matches Some(next) ==> !transform.starting ==> transform.next_flush()
            == Some(TransformCommand::Preview(next)),
        !transform.starting && transform.pending is None && transform.pending_tool is None
            ==> transform.next_flush() is None,
        !transform.starting && transform.pending is None && transform.projection is None
            ==> transform.next_flush() is None,
        !transform.starting && transform.pending is None && transform.pending_tool is Some
            && transform.projection is Some ==> {
            let projection = transform.projection->0;
            let untouched = projection.transform == crate::transform::identity()
                && !transform.paste;
            &&& untouched <==> transform.next_flush() == Some(TransformCommand::Cancel)
            &&& !untouched && projection.can_commit ==> transform.next_flush() == Some(
                TransformCommand::Commit { generation: projection.generation },
            )
            &&& !untouched && !projection.can_commit ==> transform.next_flush() == Some(
                TransformCommand::Preview(projection.transform),
            ) && transform.revalidates()
        },
        transform.revalidates() ==> (transform.next_flush() matches Some(command) && command
            is Preview),
{
}

/// While the worker is busy nothing is flushed; a chosen tool without a draft
/// is selected at once.
pub proof fn flushes_wait_for_the_worker<P, D, A>(state: CanvasState<P, D, A>)
    ensures
        state.artwork_job is Some ==> state.flush_prepared() == state,
        state.artwork_job is None && state.stroke.transform.pending_tool is Some
            && state.stroke.transform.projection is None && !state.stroke.transform.starting
            && !state.stroke.transform.pending_cancel && state.stroke.transform.pending is None ==> {
            let after = state.flush_prepared();
            &&& state.drawing.wf() ==> after.drawing.tool
                == state.stroke.transform.pending_tool->0
            &&& after.stroke.transform.pending_tool is None
            &&& after.stroke.transform.pending_pencil_template is None
        },
        state.flush_prepared().stroke.transform.projection == state.stroke.transform.projection,
        state.flush_prepared().stroke.transform.pending == state.stroke.transform.pending,
        state.flush_prepared().stroke.transform.starting == state.stroke.transform.starting,
{
}

/// A draft that asks for its confirmation again is marked so, and no other; the
/// tool that waits is selected only where nothing else of the draft is left.
pub proof fn flushes_mark_confirmations<P, D, A>(state: CanvasState<P, D, A>)
    requires
        state.artwork_job is None,
    ensures
        ({
            let transform = state.stroke.transform;
            let after = state.flush_prepared();
            let busy = transform.pending_cancel || transform.starting || transform.pending is Some;
            let again = !busy && transform.pending_tool is Some && (
            transform.projection matches Some(projection) && !projection.can_commit && (
            transform.paste || projection.transform != crate::transform::identity()));
            &&& again ==> after.stroke.transform.revalidating && after.drawing == state.drawing
            &&& busy || transform.pending_tool is None || transform.projection is Some && !again
                ==> after == state
            &&& !again ==> after.stroke.transform.revalidating == transform.revalidating
        }),
{
}

/// A flushed command that the worker took no longer waits; one that met a busy
/// worker is tried again with the next frame and loses no intent; any other
/// refusal gives the transform's intents up and is shown.
pub proof fn flushed_commands_are_settled<P, D, A>(
    state: CanvasState<P, D, A>,
    flush: TransformFlush,
    reason: CommandRejectReason,
    revision: u64,
)
    ensures
        ({
            let taken = state.flush_settled(flush, Ok(false), revision);
            let starts = flush.command is Begin || flush.command is Paste;
            &&& !starts ==> taken.stroke.transform.pending is None
                && !taken.stroke.transform.pending_cancel
            &&& starts ==> taken.stroke.transform.pending == state.stroke.transform.pending
                && taken.stroke.transform.pending_cancel == state.stroke.transform.pending_cancel
            &&& taken.stroke.transform.pending_tool == flush.pending_tool
            &&& taken.stroke.transform.pending_pencil_template == flush.pending_pencil_template
            &&& taken.publication_base is Some
            &&& taken.stroke.transform.projection == state.stroke.transform.projection
        }),
        ({
            let after = state.flush_settled(flush, Err(reason), revision);
            let again = reason is CommandQueueBusy || reason is StaleProjection;
            &&& again ==> after.stroke.transform.pending == state.stroke.transform.pending
                && after.stroke.transform.starting == state.stroke.transform.starting
                && after.stroke.transform.pending_tool == flush.pending_tool && (flush.command
                is Cancel ==> after.stroke.transform.pending_cancel)
                && after.stroke.effects.last() is RequestRedraw
            &&& !again ==> after.stroke.transform.pending is None
                && !after.stroke.transform.pending_cancel && !after.stroke.transform.starting
                && after.stroke.transform.pending_tool is None && after.stroke.effects.last()
                == InkEffect::PublishTransformFailure(reason)
            &&& after.stroke.transform.projection == state.stroke.transform.projection
            &&& after.publication_base == state.publication_base
        }),
{
}

/// A refused draft leaves no draft in the making; a tool that waited for it is
/// selected. A refused settlement leaves the draft and forgets the tool.
pub proof fn refused_drafts_leave_nothing<P, D, A>(
    state: CanvasState<P, D, A>,
    command: TransformCommand,
)
    ensures
        ({
            let after = state.transform_rejected(Some(command));
            &&& command is Begin || command is Paste ==> {
                &&& !after.stroke.transform.starting
                &&& after.stroke.transform.drag is None
                &&& after.stroke.transform.pending is None
                &&& !after.stroke.transform.pending_cancel
                &&& !after.stroke.transform.paste
                &&& after.stroke.transform.pending_tool is None
                &&& state.stroke.transform.pending_tool matches Some(tool) ==> state.drawing.wf()
                    ==> after.drawing.tool == tool
                &&& state.stroke.transform.pending_tool is None ==> after.drawing == state.drawing
            }
            &&& command is Commit || command is Cancel ==> after.stroke.transform.pending_tool
                is None && after.drawing == state.drawing
            &&& command is Preview && state.stroke.transform.revalidating
                ==> after.stroke.transform.pending_tool is None
            &&& command is Preview && !state.stroke.transform.revalidating
                ==> after.stroke.transform.pending_tool == state.stroke.transform.pending_tool
            &&& !after.stroke.transform.revalidating
            &&& after.stroke.transform.projection == state.stroke.transform.projection
        }),
{
}

/// A move shifts the offset by exactly what was asked, in either axis, and
/// nothing else of the transform.
pub proof fn moves_add_up(
    transform: AffineTransform,
    x: i64,
    y: i64,
    moved: Result<AffineTransform, TransformRefusal>,
)
    requires
        call_ensures(AffineTransform::moved, (transform, x, y), moved),
    ensures
        moved matches Ok(next) ==> {
            &&& next.offset_milli.x - transform.offset_milli.x == x
            &&& next.offset_milli.y - transform.offset_milli.y == y
            &&& next.scale_ppm == transform.scale_ppm
            &&& next.rotation_millidegrees == transform.rotation_millidegrees
            &&& next.flip_x == transform.flip_x
            &&& next.flip_y == transform.flip_y
        },
        moved matches Err(refusal) ==> refusal is MoveOutOfRange,
        moved is Ok <==> {
            &&& -4_294_967_295_000 <= x <= 4_294_967_295_000
            &&& -4_294_967_295_000 <= y <= 4_294_967_295_000
            &&& i64::MIN <= transform.offset_milli.x + x <= i64::MAX
            &&& i64::MIN <= transform.offset_milli.y + y <= i64::MAX
        },
        x == 0 && y == 0 ==> moved == Ok::<_, TransformRefusal>(transform),
{
}

/// A draft has handles where it has an area, a scale and a place on the plane.
pub proof fn handles_need_an_area(projection: TransformProjection)
    ensures
        projection.has_handles() ==> projection.size.width > 0 && projection.size.height > 0
            && projection.transform.scale_ppm.x > 0 && projection.transform.scale_ppm.y > 0
            && -4_294_967_296_000 <= projection.transform.offset_milli.x <= 4_294_967_296_000
            && -4_294_967_296_000 <= projection.transform.offset_milli.y <= 4_294_967_296_000,
        forall|bounds: SelectionBounds|
            bounds.size.width > 0 && bounds.size.height > 0 && bounds.size.width <= 1_000_000
                && bounds.size.height <= 1_000_000 ==> (#[trigger] TransformProjection::untouched(
                bounds,
            )).has_handles(),
{
}

/// New factors are taken as they are while they are positive, and a new angle
/// comes down to one turn; both leave the rest of the transform.
pub proof fn factors_and_angles_are_taken(
    transform: AffineTransform,
    x_ppm: i64,
    y_ppm: i64,
    scaled: Result<AffineTransform, TransformRefusal>,
    millidegrees: i64,
    rotated: AffineTransform,
)
    requires
        call_ensures(AffineTransform::scaled, (transform, x_ppm, y_ppm), scaled),
        call_ensures(AffineTransform::rotated, (transform, millidegrees), rotated),
    ensures
        scaled is Ok <==> 0 < x_ppm <= u32::MAX && 0 < y_ppm <= u32::MAX,
        scaled matches Err(refusal) ==> refusal is ScaleThroughPivot,
        scaled matches Ok(next) ==> next.scale_ppm.x == x_ppm && next.scale_ppm.y == y_ppm
            && next.offset_milli == transform.offset_milli && next.rotation_millidegrees
            == transform.rotation_millidegrees && next.flip_x == transform.flip_x && next.flip_y
            == transform.flip_y,
        (millidegrees - rotated.rotation_millidegrees) % 360_000 == 0,
        0 <= millidegrees < 360_000 ==> rotated.rotation_millidegrees == millidegrees,
        rotated.offset_milli == transform.offset_milli,
        rotated.scale_ppm == transform.scale_ppm,
        rotated.flip_x == transform.flip_x,
        rotated.flip_y == transform.flip_y,
{
}

/// The draft of an untouched selection spans exactly its rectangle, clockwise
/// from the corner at its origin, moves nothing and cannot be committed.
pub proof fn untouched_drafts_span_the_selection(bounds: SelectionBounds)
    ensures
        ({
            let draft = TransformProjection::untouched(bounds);
            let corners = draft.corners_milli;
            &&& corners.first.x == bounds.origin.x * 1000
            &&& corners.first.y == bounds.origin.y * 1000
            &&& corners.second.x - corners.first.x == bounds.size.width * 1000
            &&& corners.second.y == corners.first.y
            &&& corners.third.x == corners.second.x
            &&& corners.third.y - corners.second.y == bounds.size.height * 1000
            &&& corners.fourth.x == corners.first.x
            &&& corners.fourth.y == corners.third.y
            &&& draft.transform == crate::transform::identity()
            &&& draft.origin == bounds.origin
            &&& draft.size == bounds.size
            &&& !draft.can_commit
            &&& draft.transform.scale_ppm.x == 1_000_000 && draft.transform.scale_ppm.y
                == 1_000_000
            &&& draft.transform.offset_milli.x == 0 && draft.transform.offset_milli.y == 0
            &&& draft.transform.rotation_millidegrees == 0
            &&& !draft.transform.flip_x && !draft.transform.flip_y
        }),
{
}

/// A first drag is tested against the selection's own rectangle.
pub proof fn first_drags_meet_the_selection<P: Copy, D, A>(
    pipeline: StrokePipeline<P, D, A>,
    draft: Option<TransformProjection>,
)
    requires
        call_ensures(
            StrokePipeline::<P, D, A>::native_transform_projection,
            (&pipeline,),
            draft,
        ),
    ensures
        draft is Some <==> (pipeline@.selection matches Some(selection) && selection.bounds is Some),
        draft matches Some(shown) ==> shown.origin == pipeline@.selection->0.bounds->0.origin
            && shown.size == pipeline@.selection->0.bounds->0.size && !shown.can_commit,
{
}

/// Typed values become the transform field by field; the first one that is no
/// number, or out of its range, is named.
pub proof fn typed_values_become_the_transform(inputs: TransformInputs)
    ensures
        inputs.denotes() matches Ok(transform) ==> {
            &&& inputs.x == Ok::<_, InputError>(transform.offset_milli.x)
            &&& inputs.y == Ok::<_, InputError>(transform.offset_milli.y)
            &&& inputs.width matches Ok(width) && transform.scale_ppm.x == width && width > 0
            &&& inputs.height matches Ok(height) && transform.scale_ppm.y == height && height > 0
            &&& inputs.angle matches Ok(angle) && transform.rotation_millidegrees == angle
            &&& transform.flip_x == inputs.flip_x
            &&& transform.flip_y == inputs.flip_y
        },
        inputs.x matches Err(error) ==> inputs.denotes() == Err::<AffineTransform, _>(error),
        inputs.denotes() is Err ==> {
            ||| !(inputs.x matches Ok(x) && -2_147_483_648_000 <= x <= 2_147_483_647_000)
            ||| !(inputs.y matches Ok(y) && -2_147_483_648_000 <= y <= 2_147_483_647_000)
            ||| !(inputs.width matches Ok(width) && 1 <= width <= u32::MAX)
            ||| !(inputs.height matches Ok(height) && 1 <= height <= u32::MAX)
            ||| !(inputs.angle matches Ok(angle) && i32::MIN <= angle <= i32::MAX)
        },
        (inputs.width matches Ok(width) && (width < 1 || width > u32::MAX)) && inputs.x is Ok
            && inputs.y is Ok ==> inputs.denotes() == Err::<AffineTransform, _>(
            InputError::OutOfRange,
        ),
        (inputs.height matches Ok(height) && (height < 1 || height > u32::MAX))
            ==> inputs.denotes() is Err,
        (inputs.angle matches Ok(angle) && (angle < i32::MIN || angle > i32::MAX))
            ==> inputs.denotes() is Err,
        (inputs.x matches Ok(x) && (x < -2_147_483_648_000 || x > 2_147_483_647_000))
            ==> inputs.denotes() == Err::<AffineTransform, _>(InputError::OutOfRange),
        (inputs.y matches Ok(y) && (y < -2_147_483_648_000 || y > 2_147_483_647_000))
            ==> inputs.denotes() is Err,
        inputs.x == Err::<i64, _>(InputError::NotANumber) ==> inputs.denotes() == Err::<
            AffineTransform,
            _,
        >(InputError::NotANumber),
{
}

/// The panel comes forward with the first draft, shows every other one anew,
/// closes when the last is gone, and asks for a draft once.
pub proof fn panels_follow_the_draft()
    ensures
        forall|panel: &mut TransformPanel, current: Option<TransformProjection>, change: PanelChange|
            #[trigger] call_ensures(TransformPanel::observe, (panel, current), change) ==> {
                &&& change is Show <==> current is Some
                &&& change is Close <==> current is None && panel.previous is Some
                &&& change is Begin <==> current is None && panel.previous is None
                    && !panel.started
                &&& change matches PanelChange::Show { activate, refresh } ==> {
                    &&& activate <==> panel.previous is None
                    &&& !refresh ==> panel.previous is Some
                    &&& panel.previous matches Some(last) ==> (refresh <==> last.generation
                        != current->0.generation || last.transform != current->0.transform)
                    &&& final(panel).previous == current
                    &&& final(panel).dirty <==> panel.dirty && !refresh
                }
                &&& current is Some || change is Begin ==> final(panel).started
                &&& change is Nothing ==> *final(panel) == *panel
            },
{
}

/// Only a confirmed draft with nothing typed since can be committed, and not
/// while the canvas is busy.
pub proof fn panels_commit_what_is_confirmed(
    panel: TransformPanel,
    current: Option<TransformProjection>,
    busy: bool,
    allowed: bool,
    closes: bool,
)
    requires
        call_ensures(TransformPanel::can_commit, (&panel, current, busy), allowed),
        call_ensures(TransformPanel::closes_on_cancel, (current,), closes),
    ensures
        allowed <==> current is Some && current->0.can_commit && !busy && !panel.dirty,
        closes <==> current is None,
{
}

/// A committed outcome becomes the artwork; a draft stays only on the display.
pub proof fn only_commits_become_artwork(
    cache: Map<TileKey, Seq<u8>>,
    outcome: Map<TileKey, Seq<u8>>,
    tiles: Tiles,
    active: bool,
    shown: Option<Tiles>,
)
    requires
        call_ensures(display_after, (tiles, active), shown),
    ensures
        cache_after(cache, outcome, true) == outcome,
        cache_after(cache, outcome, false) == cache,
        shown is Some <==> active,
        shown matches Some(held) ==> held == tiles,
{
}

/// Beginning and pasting start a draft, and nothing else does.
pub proof fn drafts_have_two_beginnings(command: TransformCommand)
    ensures
        starts_draft(command) <==> command is Begin || command is Paste,
{
}

/// An outcome uploads each tile that is cached, shown or part of it, on the
/// rasters of the tree, once and in order; its commit alone becomes the cache.
pub proof fn outcomes_upload_what_they_touch(
    cache: Tiles,
    shown: Tiles,
    outcome: Tiles,
    tree: crate::layer_tree::LayerTree,
    keys: Vec<TileKey>,
    key: TileKey,
)
    requires
        call_ensures(
            crate::transform_display::transform_upload_keys,
            (&cache, Some(&shown), &outcome, &tree),
            keys,
        ),
    ensures
        keys@.contains(key) <==> (cache@.dom().contains(key) || shown@.dom().contains(key)
            || outcome@.dom().contains(key)) && crate::layer_tree::raster_named(
            tree.rasters(),
            key.layer,
        ) is Some,
        forall|i: int, j: int|
            0 <= i < j < keys@.len() ==> #[trigger] keys@[i] != #[trigger] keys@[j],
        forall|held: &mut Tiles|
            #[trigger] call_ensures(
                crate::transform_display::adopt_transform,
                (held, &outcome, false),
                (),
            ) ==> final(held)@ == held@,
        forall|held: &mut Tiles|
            #[trigger] call_ensures(
                crate::transform_display::adopt_transform,
                (held, &outcome, true),
                (),
            ) ==> crate::tiles::pixel_map(final(held)@) == crate::tiles::pixel_map(outcome@),
{
    assert forall|i: int, j: int| 0 <= i < j < keys@.len() implies #[trigger] keys@[i]
        != #[trigger] keys@[j] by {
        assert(crate::tile_map::key_before(keys@[i], keys@[j]));
    }
}

} // verus!
