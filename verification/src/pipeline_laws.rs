//! What holds of the stroke pipeline across its steps.
use vstd::prelude::*;

use crate::document::LayerId;
use crate::effect::{InkEffect, Notice};
use crate::input::{AdmittedSample, StylusSample};
use crate::stroke::{GpuOp, LiveStrokeDisposition, OpenStroke};
use crate::stroke_pipeline::{PipelineState, Selection};

verus! {

/// Nothing that leads to durable or visible ink differs.
pub open spec fn same_artwork<P, D, A>(
    before: PipelineState<P, D, A>,
    after: PipelineState<P, D, A>,
) -> bool {
    &&& after.active == before.active
    &&& after.gpu_ops == before.gpu_ops
    &&& after.backlog == before.backlog
    &&& after.count == before.count
}

/// The stroke in progress, if there was one, is gone and left nothing to save.
pub open spec fn dropped_without_saving<P, D, A>(
    before: PipelineState<P, D, A>,
    after: PipelineState<P, D, A>,
) -> bool {
    &&& after.active is None
    &&& after.backlog == before.backlog
    &&& after.count == before.count
    &&& before.active matches Some(active) ==> after.gpu_ops.len() > 0 && after.gpu_ops.last() == (
    GpuOp::Finish::<D> {
        generation: active.generation,
        disposition: LiveStrokeDisposition::Cancel,
    })
}

/// A locked layer takes no ink: no preview, no stroke, nothing to save.
pub proof fn locked_layers_take_no_ink<P, D, A>(
    state: PipelineState<P, D, A>,
    admitted: AdmittedSample<P>,
)
    requires
        state.focus.locked,
        !state.drawing.tool.reads_only(),
        !state.picks_temporarily(admitted),
    ensures
        state.routed(admitted).1 is Consumed,
        same_artwork(state, state.routed(admitted).0),
        !(admitted.sample.phase is Begin) ==> state.routed(admitted).0.gesture.completed_edit
            == state.gesture.completed_edit,
{
}

/// After an interruption everything up to the next `Begin` is ignored: it
/// neither paints, nor closes a stroke, nor completes an edit.
pub proof fn interrupted_contacts_stay_quiet<P, D, A>(
    state: PipelineState<P, D, A>,
    admitted: AdmittedSample<P>,
)
    requires
        state.recovery.awaiting_clean_begin,
        !(admitted.sample.phase is Begin),
    ensures
        state.routed(admitted).1 is Consumed,
        same_artwork(state, state.routed(admitted).0),
        state.routed(admitted).0.recovery.awaiting_clean_begin,
        state.routed(admitted).0.gesture.completed_edit == state.gesture.completed_edit,
        state.routed(admitted).0.gesture.picker == state.gesture.picker,
{
}

/// Every way to interrupt a contact ends in that quiet state.
pub proof fn interruptions_wait_for_a_clean_begin<P, D, A>(
    state: PipelineState<P, D, A>,
    notice: Notice,
)
    ensures
        state.interrupted().recovery.awaiting_clean_begin,
        state.discontinued(notice).recovery.awaiting_clean_begin,
        state.has_native_gesture() ==> state.gesture_cancelled().recovery.awaiting_clean_begin,
        !state.recovery.fatal ==> state.failed_closed().recovery.awaiting_clean_begin
            && state.failed_closed().recovery.fatal,
{
}

/// A cancelled, interrupted or failed stroke is never saved.
pub proof fn cancelled_strokes_are_never_saved<P, D, A>(
    state: PipelineState<P, D, A>,
    notice: Notice,
)
    ensures
        dropped_without_saving(state, state.interrupted()),
        dropped_without_saving(state, state.discontinued(notice)),
        dropped_without_saving(state, state.dropping_active(false)),
        state.has_native_gesture() ==> dropped_without_saving(state, state.gesture_cancelled()),
        !state.recovery.fatal ==> dropped_without_saving(state, state.failed_closed()),
{
}

/// An interrupted stroke takes back the operations it had added; older
/// operations stay.
pub proof fn interruption_withdraws_only_its_own_operations<P, D, A>(
    state: PipelineState<P, D, A>,
)
    requires
        state.active matches Some(active) && 0 <= active.gpu_op_start <= state.gpu_ops.len(),
    ensures
        state.interrupted().gpu_ops == state.gpu_ops.take(state.active->0.gpu_op_start).push(
            GpuOp::Finish {
                generation: state.active->0.generation,
                disposition: LiveStrokeDisposition::Cancel,
            },
        ),
{
}

/// Routing alone saves nothing, whatever the sample; only a closed brush
/// stroke does.
pub proof fn routing_saves_nothing<P, D, A>(
    state: PipelineState<P, D, A>,
    admitted: AdmittedSample<P>,
)
    ensures
        state.routed(admitted).0.backlog == state.backlog,
        state.routed(admitted).0.count == state.count,
        state.routed(admitted).0.active == state.active || state.routed(admitted).0.active is None,
{
}

/// A contact that picks a colour never paints and never moves artwork.
pub proof fn temporary_picks_never_paint<P, D, A>(
    state: PipelineState<P, D, A>,
    admitted: AdmittedSample<P>,
)
    requires
        state.picks_temporarily(admitted),
    ensures
        !(state.routed(admitted).1 is Brush),
        !(state.routed(admitted).1 is BeginTransform),
        !(state.routed(admitted).1 is ObserveTransform),
{
}

/// The end of a temporary pick is answered at once or kept until its read is.
pub proof fn temporary_picks_are_answered_or_kept<P, D, A>(
    state: PipelineState<P, D, A>,
    admitted: AdmittedSample<P>,
)
    requires
        state.picks_temporarily(admitted),
        admitted.sample.phase is End,
    ensures
        ({
            let next = state.routed(admitted).0;
            ||| next.effects == state.effects.push(
                InkEffect::CompleteTemporaryPick(admitted.sample.pick()),
            )
            ||| next.gesture.completed_temporary_picker == Some(admitted.sample.pick())
        }),
{
}

/// Tools that read the artwork never lead to the brush.
pub proof fn reading_tools_never_paint<P, D, A>(
    state: PipelineState<P, D, A>,
    admitted: AdmittedSample<P>,
)
    requires
        state.drawing.tool.edits(),
    ensures
        !(state.routed(admitted).1 is Brush),
{
}

/// A stroke is confined to the selection that held at its `Begin`: what is
/// selected later does not move it.
pub proof fn strokes_keep_their_selection<P, D, A>(
    state: PipelineState<P, D, A>,
    sample: StylusSample<P>,
    begin_layer: Option<LayerId>,
    later: Option<Selection>,
    ordinal: u64,
    end_timestamp_ns: u64,
    record: A,
)
    requires
        state.brush_begun(sample, begin_layer).1 is Some,
    ensures
        ({
            let begun = state.brush_begun(sample, begin_layer).0;
            let reselected = PipelineState { selection: later, ..begun };
            &&& reselected.active matches Some(active)
            &&& active.closed(ordinal, end_timestamp_ns, record).selection == state.selection
            &&& active.retaining(sample).selection == state.selection
        }),
{
}

/// Stroke generations rise, until the counter is exhausted.
pub proof fn generations_rise<P, D, A>(
    state: PipelineState<P, D, A>,
    sample: StylusSample<P>,
    begin_layer: Option<LayerId>,
)
    requires
        state.count.next_generation < u64::MAX,
    ensures
        match state.brush_begun(sample, begin_layer).1 {
            Some(start) => {
                &&& start.generation == state.count.next_generation
                &&& state.brush_begun(sample, begin_layer).0.count.next_generation
                    == start.generation + 1
            },
            None => state.brush_begun(sample, begin_layer).0.count == state.count,
        },
{
}

/// A failed workspace with a full backlog takes no new stroke.
pub proof fn full_backlog_takes_no_stroke<P, D, A>(
    state: PipelineState<P, D, A>,
    sample: StylusSample<P>,
    begin_layer: Option<LayerId>,
)
    requires
        state.backlog_full(),
        state.wf(),
    ensures
        state.brush_begun(sample, begin_layer).1 is None,
        state.brush_begun(sample, begin_layer).0.active is None,
        state.brush_begun(sample, begin_layer).0.recovery.fatal,
        state.brush_begun(sample, begin_layer).0.backlog == state.backlog,
{
}

/// Closing the owner keeps every received sample of a healthy stroke, and
/// brings none back that was interrupted.
pub proof fn sealing_keeps_received_samples<P, D, A>(state: PipelineState<P, D, A>)
    requires
        state.wf(),
    ensures
        state.seals() ==> {
            &&& state.sealing().active matches Some(sealed)
            &&& sealed.samples.drop_last() == state.active->0.samples
            &&& sealed.samples.last().phase is End
            &&& sealed.samples.last().reading == state.active->0.samples.last().reading
        },
        !state.seals() ==> state.sealing().active is None,
        state.sealing().backlog == state.backlog,
{
    if state.seals() {
        let active = state.active->0;
        assert(active.samples.push(active.sealing_end()).drop_last() =~= active.samples);
    }
}

/// Recording a sample keeps the samples before it, up to the limit.
pub proof fn recording_keeps_earlier_samples<P>(stroke: OpenStroke<P>, sample: StylusSample<P>)
    requires
        stroke.wf(),
    ensures
        stroke.retaining(sample).wf(),
        stroke.samples.is_prefix_of(stroke.retaining(sample).samples),
        stroke.retaining(sample).sample_limit_exceeded <==> stroke.sample_limit_exceeded
            || stroke.samples.len() == stroke.sample_limit,
{
}

/// Steps that only cancel or route keep the pipeline well formed.
pub proof fn steps_keep_the_pipeline_well_formed<P, D, A>(
    state: PipelineState<P, D, A>,
    admitted: AdmittedSample<P>,
    notice: Notice,
)
    requires
        state.wf(),
    ensures
        state.routed(admitted).0.wf(),
        state.interrupted().wf(),
        state.discontinued(notice).wf(),
        state.gesture_cancelled().wf(),
        state.failed_closed().wf(),
        state.cancelling_picker().wf(),
        state.dropping_active(false).wf(),
{
}

} // verus!
