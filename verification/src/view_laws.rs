//! What a value shows of itself: each part that a contract speaks of is the
//! part that the value holds.
use vstd::prelude::*;

use crate::canvas::ActiveCanvas;
use crate::drawing::DrawingConfig;
use crate::file_path::FilePath;
use crate::frame_trace::FrameTrace;
use crate::gpu_ops::GpuState;
use crate::histogram::Histogram;
use crate::page_panel::{CanvasDraft, CanvasSizeInput};
use crate::performance::Recorder;
use crate::project_location::{Location, ProjectLocation};
use crate::project_switch::SharedGpuCanvas;
use crate::render_host::Pending;
use crate::single_instance::ActivationInbox;
use crate::stroke::{ClosedStrokeRequest, GpuOp, GpuStrokeOp, LiveStroke};
use crate::stroke_pipeline::StrokePipeline;
use crate::uploads::UploadPass;
use crate::writer::Writer;

verus! {

/// A configuration shows its controls.
pub proof fn configurations_show_their_controls(config: DrawingConfig)
    ensures
        config@.tool == config.tool,
        config@.pencil_template == config.pencil_template,
        config@.size_tenths == config.size_tenths,
        config@.opacity_u16 == config.opacity_u16,
        config@.brush_settings == config.brush_settings,
        config@.color == config.color,
        config@.background_color == config.background_color,
        config@.edit_settings == config.edit_settings,
        config@.remembered == config.remembered@,
        config@.last_painting_slot == config.last_painting_slot,
{
}

/// A stroke in progress and a closed one show what they recorded.
pub proof fn strokes_show_their_record<P, A>(
    stroke: LiveStroke<P>,
    request: ClosedStrokeRequest<P, A>,
)
    ensures
        stroke@.samples == stroke.samples@,
        stroke@.generation == stroke.generation,
        stroke@.layer == stroke.layer,
        stroke@.gpu_op_start == stroke.gpu_op_start,
        stroke@.sample_limit == stroke.sample_limit,
        stroke@.sample_limit_exceeded == stroke.sample_limit_exceeded,
        stroke@.brush == stroke.brush,
        stroke@.color == stroke.color,
        stroke@.eraser == stroke.eraser,
        stroke@.alpha_locked == stroke.alpha_locked,
        stroke@.selection == stroke.selection,
        request@.samples == request.samples@,
        request@.ordinal == request.ordinal,
        request@.stroke_generation == request.stroke_generation,
        request@.layer == request.layer,
        request@.brush == request.brush,
        request@.color == request.color,
        request@.alpha_locked == request.alpha_locked,
        request@.selection == request.selection,
        request@.end_timestamp_ns == request.end_timestamp_ns,
        request@.record == request.record,
{
}

/// The operations of the display show what they draw.
pub proof fn operations_show_what_they_draw<D>(ops: Seq<GpuStrokeOp<D>>, at: int)
    requires
        0 <= at < ops.len(),
    ensures
        crate::stroke::gpu_view(ops).len() == ops.len(),
        match ops[at] {
            GpuStrokeOp::Replace { generation, layer, color, eraser, alpha_locked } =>
                crate::stroke::gpu_view(ops)[at] == (GpuOp::<D>::Replace {
                    generation,
                    layer,
                    color,
                    eraser,
                    alpha_locked,
                }),
            GpuStrokeOp::Dabs { generation, dabs } => crate::stroke::gpu_view(ops)[at] == (GpuOp::<
                D,
            >::Dabs { generation, dabs: dabs@ }),
            GpuStrokeOp::Finish { generation, disposition } => crate::stroke::gpu_view(ops)[at] == (
            GpuOp::<D>::Finish { generation, disposition }),
        },
{
}

/// The pipeline shows its parts, and its backlog stroke by stroke.
pub proof fn pipelines_show_their_parts<P, D, A>(pipeline: StrokePipeline<P, D, A>, at: int)
    requires
        0 <= at < pipeline.pending_materializations@.len(),
    ensures
        pipeline@.gesture == pipeline.gesture,
        pipeline@.transform == pipeline.transform,
        pipeline@.focus == pipeline.focus,
        pipeline@.recovery == pipeline.recovery,
        pipeline@.count == pipeline.count,
        pipeline@.picker_solo == pipeline.picker_solo,
        pipeline@.selection == pipeline.selection,
        pipeline@.limits == pipeline.limits,
        pipeline@.shutdown_prepared == pipeline.shutdown_prepared,
        pipeline@.drawing == pipeline.drawing@,
        pipeline@.active is Some <==> pipeline.active is Some,
        pipeline.active matches Some(active) ==> pipeline@.active == Some(active@),
        pipeline@.backlog.len() == pipeline.pending_materializations@.len(),
        pipeline@.backlog[at] == pipeline.pending_materializations@[at]@,
        pipeline@.gpu_ops == crate::stroke::gpu_view(pipeline.gpu_ops@),
        pipeline@.effects == pipeline.effects@,
{
}

/// The canvas and the window show their parts.
pub proof fn canvases_show_their_parts<P, D, A>(
    canvas: ActiveCanvas<P, D, A>,
    window: SharedGpuCanvas,
)
    ensures
        canvas@.stroke == canvas.stroke@,
        canvas@.drawing == canvas.drawing@,
        canvas@.active_layer == canvas.active_layer,
        canvas@.artwork_job == canvas.artwork_job,
        canvas@.edit == canvas.edit,
        canvas@.pending_save == canvas.pending_save,
        canvas@.has_export_path == canvas.has_export_path,
        canvas@.publication_base == canvas.publication_base,
        window@.location == window.location@,
        window@.candidate is Some <==> window.candidate is Some,
        window.candidate matches Some(candidate) ==> window@.candidate == Some(candidate@),
        window@.slot == window.slot,
        window@.work == window.work,
        window@.save_failure == window.save_failure,
        window@.rendered_frames == window.rendered_frames,
        window@.geometry_epoch == window.geometry_epoch,
{
}

/// A document and its path show where it is stored.
pub proof fn documents_show_their_place(location: ProjectLocation, path: FilePath)
    ensures
        location matches ProjectLocation::UntitledRecovery(stored) ==> location@
            == Location::UntitledRecovery(stored@),
        location matches ProjectLocation::Explicit { path: stored, bootstrap_png } ==> location@
            is Explicit && location@.storage() == stored@ && (location@->bootstrap_png is Some
            <==> bootstrap_png is Some) && (bootstrap_png matches Some(image)
            ==> location@->bootstrap_png == Some(image@)),
        path@.directory == path.directory@,
        path@.name is Some <==> path.name is Some,
        path.name matches Some(name) ==> path@.name->0.stem == name.stem@,
        path.name matches Some(name) ==> (path@.extension() is Some <==> name.extension is Some),
        path.name matches Some(name) ==> (name.extension matches Some(extension)
            ==> path@.extension() == Some(extension@)),
{
}

/// The page dialog shows its texts.
pub proof fn drafts_show_their_texts(draft: CanvasDraft, input: CanvasSizeInput, at: int)
    requires
        0 <= at < draft.undo@.len(),
    ensures
        input@.width == input.width@,
        input@.height == input.height@,
        input@.source == input.source,
        draft@.current == draft.current@,
        draft@.undo.len() == draft.undo@.len(),
        draft@.undo[at] == draft.undo@[at]@,
        draft@.typing_start is Some <==> draft.typing_start is Some,
        draft.typing_start matches Some(start) ==> draft@.typing_start == Some(start@),
{
}

/// The writer shows what it keeps.
pub proof fn writers_show_what_they_keep(writer: Writer)
    ensures
        writer@.next_id == writer.next_id,
        writer@.thumbnail_generation == writer.thumbnail_generation,
        writer@.processed == writer.processed,
        writer@.preview_tree == writer.preview_tree,
        writer@.preview_canvas == writer.preview_canvas,
        writer@.has_selection == writer.has_selection,
        writer@.exit == writer.exit,
        writer@.effects == writer.effects@,
{
}

/// Mailboxes, inboxes, passes and previews show what waits in them.
pub proof fn queues_show_what_waits<G, T>(
    pending: Pending<G, T>,
    inbox: ActivationInbox<T>,
    pass: UploadPass,
    previews: GpuState,
)
    ensures
        pending@.wake == pending.wake,
        pending@.geometry == pending.geometry,
        pending@.controls == pending.controls,
        pending@.retire == pending.retire,
        pending@.activations == pending.activations@,
        inbox@.pending == inbox.pending@,
        inbox@.parent == inbox.parent,
        inbox@.child == inbox.child,
        pass@.ordinal == pass.ordinal,
        pass@.stroke_generation == pass.stroke_generation,
        pass@.tiles == pass.tiles@,
        pass@.remaining == pass.remaining@,
        previews@.live == previews.live,
        previews@.latest == previews.latest_preview@,
        previews@.batches == previews.batches,
{
}

/// Measurements show what was counted.
pub proof fn measurements_show_what_was_counted(
    histogram: Histogram,
    recorder: Recorder,
    trace: FrameTrace,
    at: int,
)
    requires
        0 <= at < recorder.histograms@.len(),
    ensures
        histogram@.bins == histogram.bins@,
        histogram@.count == histogram.count,
        histogram@.min == histogram.min,
        histogram@.max == histogram.max,
        recorder@.histograms[at] == recorder.histograms@[at]@,
        recorder@.pending_input == recorder.pending_input,
        recorder@.history_queued == recorder.history_queued,
        recorder@.history_adopted == recorder.history_adopted,
        recorder@.history_presented == recorder.history_presented,
        recorder@.history_samples == recorder.history_samples@,
        recorder@.history_samples_omitted == recorder.history_samples_omitted,
        trace@.materialized_totals == trace.materialized_totals,
        trace@.sequence == trace.sequence,
        trace@.current == trace.current,
        trace@.pending == trace.pending,
        trace@.samples == trace.samples@,
        trace@.totals == trace.totals,
{
}

} // verus!
