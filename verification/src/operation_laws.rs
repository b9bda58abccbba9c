//! What the operations do to the values that their callers hold: each law
//! speaks of the value before a call, the value after it and the answer.

use vstd::prelude::*;

use crate::artwork::{ArtworkAnswer, PollStep};
use crate::brush_step::StrokeStart;
use crate::canvas::{
    ActiveCanvas, ArtworkJob, BridgeFacts, EditError, ExportStatus, WorkFacts,
};
use crate::closed_queue::WriterReply;
use crate::closing::{ClosingEdit, ClosingSave};
use crate::command::CommandRejectReason;
use crate::document::{CanvasSpec, LayerId, PixelPoint, PixelSize, Rgba};
use crate::drawing::{BrushPreset, DrawingConfig, DrawingTool};
use crate::edit::{EditCommand, GestureError};
use crate::editor_command::{CommandFacts, EditorCommand, EditorStep};
use crate::effect::InkEffect;
use crate::export::{
    close_result, export_current_png, CloseResult, ExportFailure, ExportGenerationGate,
    ExportPngOutcome, ExportProgress, ExportStep,
};
use crate::gpu_ops::GpuState;
use crate::input::{AdmittedSample, StylusSample};
use crate::layer_command::LayerCommand;
use crate::layer_tree::{valid_active_layer, LayerTree};
use crate::page_panel::{CanvasDraft, CanvasSizeInput, SizeError};
use crate::recent_projects::{last_existing, record_opened};
use crate::save_as::copied_tree;
use crate::session_open::{next_project_id, HistoryCursor, TreeChoice};
use crate::stroke::{append_gpu_dabs, ClosedStrokeRequest, GpuStrokeOp};
use crate::stroke_pipeline::{Selection, StrokePipeline};
use crate::tile_map::{TileKey, TileMap};
use crate::tool_command::ToolCommand;
use crate::transform::{TransformCommand, TransformProjection};
use crate::transform_settle::TransformFlush;
use crate::usage::StrokeDrain;

verus! {

/// A configuration draws with the size, the opacity, the pressure switches and
/// the minimums that it holds.
pub proof fn presets_hold_the_configuration(config: DrawingConfig, preset: BrushPreset)
    requires
        call_ensures(DrawingConfig::preset, (config,), preset),
    ensures
        preset.size_tenths == config.size_tenths,
        preset.opacity_u16 == config.opacity_u16,
        preset.size_pressure == config.brush_settings.size_pressure,
        preset.opacity_pressure == config.brush_settings.opacity_pressure,
        preset.size_minimum_u16 == config.brush_settings.size_minimum_u16,
        preset.opacity_minimum_u16 == config.brush_settings.opacity_minimum_u16,
{
}

/// A stroke with the pen's own tip is drawn as the configuration is; with the
/// flipped pen it is drawn with the remembered eraser.
pub proof fn strokes_use_their_tip(
    config: DrawingConfig,
    preset: BrushPreset,
    stroke: BrushPreset,
    flipped: BrushPreset,
    smoothing: u8,
)
    requires
        config@.wf(),
        call_ensures(DrawingConfig::preset, (config,), preset),
        call_ensures(DrawingConfig::preset_for_stroke, (config, false), stroke),
        call_ensures(DrawingConfig::preset_for_stroke, (config, true), flipped),
        call_ensures(DrawingConfig::smoothing_for_stroke, (config, false), smoothing),
    ensures
        stroke == preset,
        config.tool is Eraser ==> flipped == preset,
        smoothing == config.brush_settings.smoothing,
        !(config.tool is Eraser) && config.last_painting_slot != 3 ==> flipped.size_tenths
            == config.remembered@[3].size_tenths && flipped.opacity_u16
            == config.remembered@[3].opacity_u16,
{
}

/// An accepted colour is the colour, and everything else of the configuration
/// stays as it was; one that cannot be seen is refused.
pub proof fn colors_are_set(color: Rgba)
    ensures
        forall|config: &mut DrawingConfig, result: Result<(), CommandRejectReason>|
            #[trigger] call_ensures(
                DrawingConfig::apply_tool_command,
                (config, ToolCommand::SetColor(color)),
                result,
            ) ==> {
                &&& result is Ok <==> color.alpha > 0
                &&& result is Ok ==> final(config).color == color
                &&& result is Err ==> final(config)@ == config@
                &&& final(config).background_color == config.background_color
                &&& final(config).tool == config.tool
                &&& final(config).pencil_template == config.pencil_template
                &&& final(config).size_tenths == config.size_tenths
                &&& final(config).opacity_u16 == config.opacity_u16
                &&& final(config).brush_settings == config.brush_settings
                &&& final(config).edit_settings == config.edit_settings
            },
{
}

/// An accepted opacity or size is held, and then drawn with.
pub proof fn controls_are_set(opacity: u16, size: u16)
    ensures
        forall|config: &mut DrawingConfig, result: Result<(), CommandRejectReason>|
            #[trigger] call_ensures(
                DrawingConfig::apply_tool_command,
                (config, ToolCommand::SetOpacityU16(opacity)),
                result,
            ) ==> {
                &&& opacity > 0 ==> result is Ok && final(config).opacity_u16 == opacity
                &&& final(config).size_tenths == config.size_tenths
                &&& final(config).brush_settings == config.brush_settings
                &&& final(config).color == config.color
                &&& final(config).background_color == config.background_color
                &&& final(config).tool == config.tool
            },
        forall|config: &mut DrawingConfig, result: Result<(), CommandRejectReason>|
            #[trigger] call_ensures(
                DrawingConfig::apply_tool_command,
                (config, ToolCommand::SetSizeTenths(size)),
                result,
            ) ==> {
                &&& result is Ok ==> final(config).size_tenths == size
                &&& final(config).opacity_u16 == config.opacity_u16
                &&& final(config).brush_settings == config.brush_settings
                &&& final(config).color == config.color
                &&& final(config).tool == config.tool
            },
{
}

/// The two colours change places, and nothing else does.
pub proof fn colors_are_exchanged()
    ensures
        forall|config: &mut DrawingConfig, result: Result<(), CommandRejectReason>|
            #[trigger] call_ensures(
                DrawingConfig::apply_tool_command,
                (config, ToolCommand::SwapColors),
                result,
            ) ==> {
                &&& result is Ok
                &&& final(config).color == config.background_color
                &&& final(config).background_color == config.color
                &&& final(config).tool == config.tool
                &&& final(config).size_tenths == config.size_tenths
                &&& final(config).opacity_u16 == config.opacity_u16
                &&& final(config).edit_settings == config.edit_settings
            },
{
}

/// A selected tool is the tool; the colours and the edit settings stay.
pub proof fn tools_are_selected(tool: DrawingTool)
    ensures
        forall|config: &mut DrawingConfig|
            #[trigger] call_ensures(DrawingConfig::select_tool, (config, tool), ()) ==> {
                &&& final(config).tool == tool
                &&& final(config).color == config.color
                &&& final(config).background_color == config.background_color
                &&& final(config).edit_settings == config.edit_settings
                &&& final(config).pencil_template == config.pencil_template
            },
{
}

/// With an edit tool at work on an unlocked layer, and nothing that holds the
/// contact back, every move is handed to the gesture and the end finishes it.
pub proof fn edit_moves_are_handed_on<P: Copy, D, A>(admitted: AdmittedSample<P>)
    requires
        admitted.sample.phase is Move || admitted.sample.phase is End,
    ensures
        forall|
            pipeline: &mut StrokePipeline<P, D, A>,
            route: crate::stroke_pipeline::SampleRoute,
        |
            pipeline.gesture.edit_gesture && !pipeline.gesture.temporary_picker_active
                && !pipeline.recovery.awaiting_clean_begin && pipeline.transform.projection is None
                && !pipeline.transform.starting && !pipeline.focus.locked
                && crate::gesture_laws::follows(pipeline.drawing.tool) && #[trigger] call_ensures(
                StrokePipeline::<P, D, A>::route,
                (pipeline, &admitted),
                route,
            ) ==> {
                &&& admitted.sample.phase is Move ==> route is MoveEdit
                    && final(pipeline).gesture.edit_gesture
                &&& admitted.sample.phase is End ==> route is FinishEdit
                    && !final(pipeline).gesture.edit_gesture
            },
{
}

/// A finished gesture and the reads of a pick are kept for the canvas.
pub proof fn gestures_are_kept_for_the_canvas<P: Copy, D, A>(
    result: Result<EditCommand, GestureError>,
    point: PixelPoint,
)
    ensures
        forall|pipeline: &mut StrokePipeline<P, D, A>|
            pipeline.gesture.completed_edit is None && #[trigger] call_ensures(
                StrokePipeline::<P, D, A>::finish_edit,
                (pipeline, result),
                (),
            ) ==> final(pipeline).gesture.completed_edit == Some(result),
        forall|pipeline: &mut StrokePipeline<P, D, A>|
            pipeline.gesture.picker is Some && #[trigger] call_ensures(
                StrokePipeline::<P, D, A>::move_picker,
                (pipeline, Some(point)),
                (),
            ) ==> (final(pipeline).gesture.picker matches Some(picker) && picker.latest.point
                == point && picker.token == pipeline.gesture.picker->0.token),
{
}

/// An accepted stroke starts at its sample, in the colour and on the layer that
/// hold, under the next number, and its size is the newest used.
pub proof fn strokes_start_as_they_are_set<P: Copy, D, A>(
    sample: StylusSample<P>,
    layer: Option<LayerId>,
    started: Option<StrokeStart<P>>,
)
    requires
        !sample.eraser,
    ensures
        forall|pipeline: &mut StrokePipeline<P, D, A>, report: &mut StrokeDrain|
            pipeline.drawing.tool is Brush && !pipeline.focus.alpha_locked
                && pipeline@.backlog.len() < pipeline.limits.backlog && #[trigger] call_ensures(
                StrokePipeline::<P, D, A>::brush_begin,
                (pipeline, sample, layer, report),
                started,
            ) ==> {
                &&& started matches Some(start) && {
                    &&& start.color == pipeline.drawing.color
                    &&& start.brush.opacity_u16 == pipeline.drawing.opacity_u16
                    &&& start.brush.size_tenths == pipeline.drawing.size_tenths
                    &&& start.generation == pipeline.count.next_generation
                    &&& start.sample == sample
                    &&& layer matches Some(given) ==> start.layer == given
                    &&& layer is None ==> start.layer == pipeline.focus.layer
                }
                &&& final(pipeline).active is Some
                &&& final(report).started_brush_sizes@[0] == Some(pipeline.drawing.size_tenths)
                &&& final(report).started_brush_colors@[0] == Some(pipeline.drawing.color)
            },
{
}

/// A stroke that is extended records the sample and hands it to the engine;
/// what the engine drew is shown; a gap cancels it.
pub proof fn strokes_are_extended<P: Copy, D, A>(
    sample: StylusSample<P>,
    recorded: Option<StylusSample<P>>,
    gap: bool,
    dabs: Vec<D>,
)
    ensures
        forall|pipeline: &mut StrokePipeline<P, D, A>|
            #[trigger] call_ensures(
                StrokePipeline::<P, D, A>::brush_extend,
                (pipeline, sample),
                recorded,
            ) ==> {
                &&& recorded is Some <==> pipeline.active is Some
                &&& recorded matches Some(kept) ==> kept.reading == sample.reading
                    && kept.sequence == sample.sequence && kept.phase == sample.phase
                    && kept.eraser == pipeline.active->0.eraser
                &&& (pipeline.active matches Some(active) && active.samples@.len()
                    < active.sample_limit) ==> final(pipeline).active->0.samples@
                    == pipeline.active->0.samples@.push(recorded->0)
            },
        forall|pipeline: &mut StrokePipeline<P, D, A>|
            pipeline.active is Some && #[trigger] call_ensures(
                StrokePipeline::<P, D, A>::brush_extended,
                (pipeline, gap, dabs),
                (),
            ) ==> {
                &&& gap ==> final(pipeline).active is None
                    && final(pipeline).recovery.awaiting_clean_begin
                &&& !gap ==> final(pipeline).active is Some
            },
        forall|pipeline: &mut StrokePipeline<P, D, A>|
            #[trigger] call_ensures(StrokePipeline::<P, D, A>::brush_cancel, (pipeline,), ())
                ==> final(pipeline).active is None,
{
}

/// A closed stroke becomes a request with its samples, its brush, its colour,
/// its layer and its end; one that outgrew its recording becomes none.
pub proof fn strokes_are_closed<P: Copy, D, A>(
    end_ns: u64,
    dabs: Vec<D>,
    record: A,
    request: Option<ClosedStrokeRequest<P, A>>,
)
    ensures
        forall|pipeline: &mut StrokePipeline<P, D, A>|
            #[trigger] call_ensures(
                StrokePipeline::<P, D, A>::brush_close,
                (pipeline, end_ns, dabs, record),
                request,
            ) ==> {
                &&& final(pipeline).active is None
                &&& request is Some <==> pipeline.active is Some
                    && !pipeline.active->0.sample_limit_exceeded
                &&& request matches Some(closed) ==> {
                    let active = pipeline.active->0;
                    &&& closed.samples@ == active.samples@
                    &&& closed.brush == active.brush
                    &&& closed.color == active.color
                    &&& closed.layer == active.layer
                    &&& closed.alpha_locked == active.alpha_locked
                    &&& closed.selection == active.selection
                    &&& closed.stroke_generation == active.generation
                    &&& closed.end_timestamp_ns == end_ns
                    &&& closed.record == record
                    &&& pipeline.count.closed < u64::MAX ==> closed.ordinal
                        == pipeline.count.closed + 1
                }
            },
{
}

/// Strokes reach the writer in the order in which they closed, whether it takes
/// them or not.
pub proof fn closed_strokes_wait_in_line<P: Copy, D, A>(
    request: ClosedStrokeRequest<P, A>,
    offered: Option<ClosedStrokeRequest<P, A>>,
)
    ensures
        forall|pipeline: &mut StrokePipeline<P, D, A>|
            #[trigger] call_ensures(
                StrokePipeline::<P, D, A>::queue_closed_stroke,
                (pipeline, request),
                offered,
            ) ==> {
                &&& offered is Some <==> pipeline@.backlog.len() == 0
                &&& offered matches Some(now) ==> now@ == request@ && final(pipeline)@.backlog
                    == pipeline@.backlog
                &&& offered is None ==> final(pipeline)@.backlog == pipeline@.backlog.push(request@)
            },
        forall|pipeline: &mut StrokePipeline<P, D, A>|
            #[trigger] call_ensures(
                StrokePipeline::<P, D, A>::flush_pending_materializations,
                (pipeline,),
                offered,
            ) ==> {
                &&& offered is Some <==> pipeline@.backlog.len() > 0
                &&& offered matches Some(now) ==> now@ == pipeline@.backlog[0]
                    && final(pipeline)@.backlog == pipeline@.backlog.drop_first()
                &&& final(pipeline)@.active == pipeline@.active
            },
        forall|pipeline: &mut StrokePipeline<P, D, A>|
            #[trigger] call_ensures(
                StrokePipeline::<P, D, A>::flush_reply,
                (pipeline, WriterReply::Full(request)),
                offered,
            ) ==> offered is None && final(pipeline)@.backlog == seq![request@]
                + pipeline@.backlog,
        forall|pipeline: &mut StrokePipeline<P, D, A>|
            #[trigger] call_ensures(
                StrokePipeline::<P, D, A>::flush_reply,
                (pipeline, WriterReply::Enqueued),
                offered,
            ) ==> (offered is Some <==> pipeline@.backlog.len() > 0) && (offered matches Some(now)
                ==> now@ == pipeline@.backlog[0]),
        forall|pipeline: &mut StrokePipeline<P, D, A>|
            #[trigger] call_ensures(
                StrokePipeline::<P, D, A>::defer_materialization,
                (pipeline, request),
                (),
            ) ==> final(pipeline)@.backlog == pipeline@.backlog.push(request@),
{
}

/// A healthy stroke is sealed with a synthetic end behind its last sample; any
/// other stroke in progress is dropped on close.
pub proof fn healthy_strokes_are_sealed<P: Copy, D, A>(end: Option<StylusSample<P>>)
    ensures
        forall|pipeline: &mut StrokePipeline<P, D, A>|
            #[trigger] call_ensures(
                StrokePipeline::<P, D, A>::seal_active_for_shutdown,
                (pipeline,),
                end,
            ) ==> {
                &&& end is Some <==> !pipeline.recovery.fatal
                    && !pipeline.recovery.awaiting_clean_begin && (
                pipeline.active matches Some(active) && !active.sample_limit_exceeded
                    && active.samples@.len() < active.sample_limit && active.samples@.last().sequence
                    < u64::MAX)
                &&& end is None ==> final(pipeline).active is None
                &&& end matches Some(sealed) ==> {
                    let last = pipeline.active->0.samples@.last();
                    &&& sealed.phase is End
                    &&& sealed.sequence == last.sequence + 1
                    &&& sealed.timestamp_ns == last.timestamp_ns
                    &&& sealed.reading == last.reading
                    &&& final(pipeline).active->0.samples@ == pipeline.active->0.samples@.push(
                        sealed,
                    )
                }
                &&& final(pipeline)@.backlog == pipeline@.backlog
            },
{
}

/// Dabs that are appended leave the scratch empty and keep every operation that
/// waited.
pub proof fn appended_dabs_leave_the_scratch<D>(generation: u64)
    ensures
        forall|ops: &mut Vec<GpuStrokeOp<D>>, scratch: &mut Vec<D>|
            #[trigger] call_ensures(append_gpu_dabs::<D>, (ops, generation, scratch), ()) ==> {
                &&& final(scratch)@.len() == 0
                &&& scratch@.len() == 0 ==> crate::stroke::gpu_view(final(ops)@)
                    == crate::stroke::gpu_view(ops@)
                &&& crate::stroke_laws::dabs_of(crate::stroke::gpu_view(final(ops)@), generation)
                    == crate::stroke_laws::dabs_of(crate::stroke::gpu_view(ops@), generation)
                    + scratch@
            },
{
    assert forall|ops: &mut Vec<GpuStrokeOp<D>>, scratch: &mut Vec<D>|
        #[trigger] call_ensures(append_gpu_dabs::<D>, (ops, generation, scratch), ()) implies ({
        &&& final(scratch)@.len() == 0
        &&& scratch@.len() == 0 ==> crate::stroke::gpu_view(final(ops)@) == crate::stroke::gpu_view(
            ops@,
        )
        &&& crate::stroke_laws::dabs_of(crate::stroke::gpu_view(final(ops)@), generation)
            == crate::stroke_laws::dabs_of(crate::stroke::gpu_view(ops@), generation) + scratch@
    }) by {
        let other: u64 = if generation == 0 { 1 } else { 0 };
        crate::stroke_laws::dabs_are_drawn_once(
            crate::stroke::gpu_view(ops@),
            generation,
            scratch@,
            other,
        );
    }
}

/// An export reports the image as replaced exactly where the replacement
/// succeeded, and removes the unfinished file where it failed.
pub proof fn exports_report_what_happened(
    generation: u64,
    progress: ExportProgress,
    step: ExportStep,
)
    requires
        call_ensures(export_current_png, (generation, progress), step),
    ensures
        step == ExportStep::Finish(ExportPngOutcome::Replaced) <==> progress
            == ExportProgress::Replaced(true),
        progress == ExportProgress::Replaced(false) ==> step == ExportStep::RemoveAndFinish(
            ExportPngOutcome::Failed(ExportFailure::Replace),
        ),
        step != ExportStep::RemoveAndFinish(ExportPngOutcome::Replaced),
        step is Replace <==> progress == (ExportProgress::GateHeld { latest: generation }),
{
}

/// A submission that was accepted is the latest, and closing tells what failed.
pub proof fn accepted_submissions_are_latest(
    generation: u64,
    failed: bool,
    export: ExportStatus,
    result: CloseResult,
)
    requires
        call_ensures(close_result, (failed, export), result),
    ensures
        result is Ready <==> !failed && !(export is Failed),
        result matches CloseResult::Failed { project_saved } ==> project_saved == !failed,
        forall|gate: &mut ExportGenerationGate|
            #[trigger] call_ensures(ExportGenerationGate::accept_submission, (gate, generation), ())
                ==> final(gate).latest == generation && final(gate).next == generation,
{
}

/// What is typed into one number stands there, and the other number is as it
/// was.
pub proof fn typed_numbers_stand(text: String)
    ensures
        forall|draft: &mut CanvasDraft|
            #[trigger] call_ensures(CanvasDraft::type_dimension, (draft, true, text), ()) ==> {
                &&& final(draft).current.width@ == text@
                &&& final(draft).current.height@ == draft.current.height@
                &&& final(draft).current.source is None
            },
        forall|draft: &mut CanvasDraft|
            #[trigger] call_ensures(CanvasDraft::type_dimension, (draft, false, text), ()) ==> {
                &&& final(draft).current.height@ == text@
                &&& final(draft).current.width@ == draft.current.width@
                &&& final(draft).current.source is None
            },
{
}

/// A size is read from the two numbers, or refused; a new draft shows the page
/// and has nothing to take back.
pub proof fn sizes_are_read_from_the_numbers(
    input: CanvasSizeInput,
    size: PixelSize,
    limit: u64,
    read: Result<PixelSize, SizeError>,
    canvas: CanvasSpec,
    draft: CanvasDraft,
)
    requires
        call_ensures(CanvasSizeInput::size, (&input, limit), read),
        call_ensures(CanvasDraft::new, (canvas,), draft),
        size.width > 0 && size.height > 0 && size.width * size.height <= limit,
    ensures
        input.width@ == crate::decimal::decimal(size.width as nat) && input.height@
            == crate::decimal::decimal(size.height as nat) ==> read == Ok::<_, SizeError>(size),
        draft.undo@.len() == 0,
        draft.typing_start is None,
        draft.current.width@ == crate::decimal::decimal(canvas.width_px as nat),
        draft.current.height@ == crate::decimal::decimal(canvas.height_px as nat),
{
    crate::decimal::decimal_round_trip(size.width as nat);
    crate::decimal::decimal_round_trip(size.height as nat);
    assert(draft@.undo.len() == draft.undo@.len());
}

/// A chosen layer is active where it is known, and a tool command is begun only
/// while nothing is drawn.
pub proof fn commands_begin_on_the_canvas<P: Copy, D, A>(
    layer: LayerId,
    facts: CommandFacts,
    step: EditorStep,
)
    ensures
        forall|canvas: &mut ActiveCanvas<P, D, A>|
            crate::command_laws::unhindered(canvas@) && !canvas.stroke.gesture.edit_gesture
                && #[trigger] call_ensures(
                ActiveCanvas::<P, D, A>::apply_editor_command,
                (canvas, &EditorCommand::Layer(LayerCommand::SetActive(layer)), facts),
                step,
            ) ==> {
                &&& facts.layer_known ==> final(canvas).active_layer == layer
                &&& !facts.layer_known ==> final(canvas).active_layer == canvas.active_layer
                &&& final(canvas).drawing@ == canvas.drawing@
            },
{
}

/// Under its pause a tool command sets the canvas's own controls, and input
/// resumes where no job holds it.
pub proof fn paused_commands_set_the_controls<P: Copy, D, A>(
    color: Rgba,
    tool: DrawingTool,
    result: Result<bool, CommandRejectReason>,
)
    requires
        color.alpha > 0,
    ensures
        forall|canvas: &mut ActiveCanvas<P, D, A>|
            #[trigger] call_ensures(
                ActiveCanvas::<P, D, A>::tool_command_paused,
                (canvas, ToolCommand::SetColor(color), true),
                result,
            ) ==> {
                &&& result is Ok
                &&& final(canvas).drawing.color == color
                &&& final(canvas).drawing.background_color == canvas.drawing.background_color
                &&& final(canvas).drawing.tool == canvas.drawing.tool
                &&& canvas.artwork_job is None ==> final(canvas).stroke.effects@
                    == canvas.stroke.effects@.push(InkEffect::ResumeAfterEdit)
                &&& final(canvas).active_layer == canvas.active_layer
            },
        forall|canvas: &mut ActiveCanvas<P, D, A>|
            #[trigger] call_ensures(
                ActiveCanvas::<P, D, A>::tool_command_paused,
                (canvas, ToolCommand::Select(tool), true),
                result,
            ) ==> final(canvas).drawing.tool == tool && final(canvas).drawing.color
                == canvas.drawing.color,
{
}

/// The answer to a pick sets the colour, and that of an edit the layer; a
/// settled job leaves the canvas free.
pub proof fn answers_reach_the_canvas<P: Copy, D, A>(
    layer: Option<LayerId>,
    color: Rgba,
    changed: bool,
    bridge: BridgeFacts,
    step: PollStep,
    error: Option<EditError>,
    revision: u64,
)
    ensures
        forall|canvas: &mut ActiveCanvas<P, D, A>|
            (canvas.artwork_job matches Some(job) && job.picker_token is None)
                && #[trigger] call_ensures(
                ActiveCanvas::<P, D, A>::poll_artwork,
                (
                    canvas,
                    ArtworkAnswer::Edit { active_layer: layer, sampled_color: Some(color), changed },
                    bridge,
                ),
                step,
            ) ==> {
                &&& final(canvas).drawing.color == color
                &&& final(canvas).drawing.background_color == canvas.drawing.background_color
                &&& final(canvas).drawing.tool == canvas.drawing.tool
                &&& layer matches Some(given) ==> final(canvas).active_layer == given
                &&& layer is None ==> final(canvas).active_layer == canvas.active_layer
                &&& step == (PollStep::InstallEdit { changed })
            },
        forall|canvas: &mut ActiveCanvas<P, D, A>|
            #[trigger] call_ensures(
                ActiveCanvas::<P, D, A>::settle_artwork,
                (canvas, error, revision),
                (),
            ) ==> {
                &&& final(canvas).artwork_job is None
                &&& !final(canvas).edit.busy
                &&& final(canvas).edit.error == error
            },
{
}

/// An idle canvas lets artwork commands in; a publication in between makes them
/// stale; a request that was taken is the job.
pub proof fn idle_canvases_take_commands<P: Copy, D, A>(
    canvas: ActiveCanvas<P, D, A>,
    work: WorkFacts,
    idle: Result<(), CommandRejectReason>,
    based_on: u64,
    current: u64,
    fresh: Result<(), CommandRejectReason>,
    job: ArtworkJob,
)
    requires
        call_ensures(
            ActiveCanvas::<P, D, A>::ensure_artwork_command_idle,
            (&canvas, work),
            idle,
        ),
        call_ensures(ActiveCanvas::<P, D, A>::idle_after_adoption, (based_on, current), fresh),
    ensures
        idle is Ok <==> canvas.artwork_job is None && !canvas.stroke.gesture.edit_gesture
            && !work.scene_live_stroke && canvas.stroke.active is None
            && canvas.stroke.pending_materializations@.len() == 0 && work.writer_pending == 0 && !(
        work.export is Queued) && !(work.export is Running),
        fresh is Ok <==> based_on == current,
        fresh is Err ==> fresh == Err::<(), _>(
            CommandRejectReason::StaleProjection { based_on, current },
        ),
        forall|held: &mut ActiveCanvas<P, D, A>, result: Result<bool, CommandRejectReason>|
            #[trigger] call_ensures(
                ActiveCanvas::<P, D, A>::enqueue_artwork,
                (held, job, true),
                result,
            ) ==> result is Ok && final(held).artwork_job == Some(job) && final(held).edit.busy
                && final(held).edit.error is None,
        forall|held: &mut ActiveCanvas<P, D, A>, result: Result<bool, CommandRejectReason>|
            #[trigger] call_ensures(
                ActiveCanvas::<P, D, A>::enqueue_artwork,
                (held, job, false),
                result,
            ) ==> result is Err && final(held).artwork_job == held.artwork_job
                && final(held).stroke.effects@ == held.stroke.effects@.push(
                InkEffect::ResumeAfterEdit,
            ),
{
    assert(canvas@.stroke.backlog.len() == canvas.stroke.pending_materializations@.len());
}

/// On the way out a finished edit is sent once, and a waiting save is exported
/// under its number.
pub proof fn closing_takes_what_waits<P: Copy, D, A>(
    edit: ClosingEdit,
    save: ClosingSave,
    failed: bool,
)
    ensures
        forall|canvas: &mut ActiveCanvas<P, D, A>|
            canvas.stroke.gesture.completed_temporary_picker is None && #[trigger] call_ensures(
                ActiveCanvas::<P, D, A>::take_closing_edit,
                (canvas,),
                edit,
            ) ==> {
                &&& final(canvas).stroke.gesture.completed_edit is None
                &&& edit is Nothing <==> canvas.stroke.gesture.completed_edit is None
                &&& edit matches ClosingEdit::Send(command)
                    ==> canvas.stroke.gesture.completed_edit == Some(
                    Ok::<_, GestureError>(command),
                )
            },
        forall|canvas: &mut ActiveCanvas<P, D, A>|
            #[trigger] call_ensures(
                ActiveCanvas::<P, D, A>::take_closing_save,
                (canvas, failed),
                save,
            ) ==> {
                &&& final(canvas).pending_save is None
                &&& save matches ClosingSave::Export { generation } ==> canvas.pending_save == Some(
                    generation,
                ) && !failed
                &&& canvas.pending_save is None ==> save is Nothing
                &&& canvas.pending_save is Some && failed ==> save is FailExport
            },
        forall|canvas: &mut ActiveCanvas<P, D, A>, generation: Option<u64>|
            #[trigger] call_ensures(
                ActiveCanvas::<P, D, A>::flush_pending_save,
                (&*canvas,),
                generation,
            ) ==> (generation is Some ==> generation == canvas.pending_save && canvas.artwork_job
                is None && canvas.stroke.active is None),
{
}

/// A draft's flush names what waits, with the tool to select after it, and only
/// while the worker is free.
pub proof fn flushes_name_what_waits<P: Copy, D, A>(flush: Option<TransformFlush>)
    ensures
        forall|canvas: &mut ActiveCanvas<P, D, A>|
            #[trigger] call_ensures(
                ActiveCanvas::<P, D, A>::flush_transform_preview,
                (canvas,),
                flush,
            ) ==> {
                &&& canvas.artwork_job is Some ==> flush is None
                &&& flush matches Some(given) ==> given.pending_tool
                    == canvas.stroke.transform.pending_tool && given.pending_pencil_template
                    == canvas.stroke.transform.pending_pencil_template
                &&& canvas.artwork_job is None && canvas.stroke.transform.pending_cancel ==> (
                flush matches Some(given) && given.command is Cancel)
                &&& canvas.artwork_job is None && !canvas.stroke.transform.pending_cancel
                    && !canvas.stroke.transform.starting && canvas.stroke.transform.pending is Some
                    ==> (flush matches Some(given) && given.command == TransformCommand::Preview(
                    canvas.stroke.transform.pending->0,
                ))
            },
{
}

/// A shown draft or its end replaces what was shown, and older previews are
/// forgotten with it and with every move through the history.
pub proof fn shown_outcomes_forget_previews<P: Copy, D, A>(
    layer: LayerId,
    selection: Option<Selection>,
    projection: Option<TransformProjection>,
    key: TileKey,
)
    ensures
        forall|canvas: &mut ActiveCanvas<P, D, A>, previews: &mut GpuState|
            #[trigger] call_ensures(
                ActiveCanvas::<P, D, A>::install_transform_outcome,
                (canvas, layer, selection, projection, previews),
                (),
            ) ==> {
                &&& !final(previews)@.latest.dom().contains(key)
                &&& final(canvas).active_layer == layer
                &&& final(canvas).stroke.selection == selection
                &&& final(canvas).stroke.transform.projection == projection
            },
        forall|canvas: &mut ActiveCanvas<P, D, A>, previews: &mut GpuState|
            #[trigger] call_ensures(
                ActiveCanvas::<P, D, A>::history_installed,
                (canvas, previews),
                (),
            ) ==> {
                &&& !final(previews)@.latest.dom().contains(key)
                &&& canvas.artwork_job is None ==> final(canvas).stroke.effects@
                    == canvas.stroke.effects@.push(InkEffect::ResumeAfterEdit)
                &&& canvas.artwork_job is Some ==> final(canvas).stroke.effects@
                    == canvas.stroke.effects@
            },
{
}

/// The list changes where another project is opened than the one that stands
/// first.
pub proof fn opened_projects_change_the_list(
    paths: Vec<Vec<u16>>,
    path: Vec<u16>,
    list: Option<Vec<Vec<u16>>>,
)
    requires
        call_ensures(record_opened, (&paths, path), list),
    ensures
        list is None <==> paths@.len() > 0 && crate::windows_path::same_path(paths@[0]@, path@),
        list matches Some(next) ==> next@.len() > 0 && next@[0]@ == path@ && next@.len() <= 20,
{
    if let Some(next) = list {
        let views = crate::recent_projects::paths_view(next@);
        crate::project_laws::opened_projects_push_the_last_out(
            crate::recent_projects::paths_view(paths@),
            path@,
            path@,
        );
        assert(views.len() == next@.len());
        assert(views[0] == next@[0]@);
    }
}

/// The project to return to is the first whose file is there.
pub proof fn the_first_existing_project_is_found(files: Vec<bool>, last: Option<usize>, at: int)
    requires
        call_ensures(last_existing, (&files,), last),
        0 <= at < files@.len(),
        files@[at],
    ensures
        last matches Some(index) && files@[index as int] && index <= at,
{
    assert(crate::recent_projects::first_place(files@, last));
}

/// A copy shows the stored tree where there is one; the next identifier of a
/// project lies above all that it used; the active layer is one that the tree
/// has.
pub proof fn opened_projects_are_sound(
    has_tree: bool,
    has_history: bool,
    choice: TreeChoice,
    current: u128,
    cursors: Vec<HistoryCursor>,
    next: Result<u128, ()>,
    tree: LayerTree,
    preferred: LayerId,
    layer: LayerId,
)
    requires
        call_ensures(copied_tree, (has_tree, has_history), choice),
        call_ensures(next_project_id, (current, &cursors), next),
        call_ensures(valid_active_layer, (&tree, preferred), layer),
    ensures
        choice is Stored <==> has_tree,
        choice is Legacy <==> !has_tree && has_history,
        next matches Ok(id) ==> id > current && forall|i: int|
            0 <= i < cursors@.len() ==> id > (#[trigger] cursors@[i]).snapshot,
        tree.has_raster(preferred) ==> layer == preferred,
{
    crate::session_open::next_id_is_unused(current, cursors@);
}

/// A tile that was put into a map is found there, one that was removed is not,
/// and the others are as they were.
pub proof fn tiles_are_found_again<V>(key: TileKey, other: TileKey, value: V)
    requires
        key != other,
    ensures
        forall|map: &mut TileMap<V>|
            #[trigger] call_ensures(TileMap::<V>::insert, (map, key, value), ()) ==> {
                &&& final(map)@.dom().contains(key) && final(map)@[key] == value
                &&& final(map)@.dom().contains(other) <==> map@.dom().contains(other)
                &&& map@.dom().contains(other) ==> final(map)@[other] == map@[other]
            },
        forall|map: &mut TileMap<V>|
            #[trigger] call_ensures(TileMap::<V>::remove, (map, key), ()) ==> {
                &&& !final(map)@.dom().contains(key)
                &&& final(map)@.dom().contains(other) <==> map@.dom().contains(other)
                &&& map@.dom().contains(other) ==> final(map)@[other] == map@[other]
            },
        forall|map: TileMap<V>, found: Option<&V>|
            #[trigger] call_ensures(TileMap::<V>::get, (&map, key), found) ==> {
                &&& found is Some <==> map@.dom().contains(key)
                &&& found matches Some(held) ==> *held == map@[key]
            },
{
}

} // verus!
