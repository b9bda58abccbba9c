//! What a stroke is from its first sample to the request that saves it.
use vstd::prelude::*;

use crate::drain::{drains, DrainAction, DrainCursor, DrainEvent, SampleInHand};
use crate::input::StylusSample;
use crate::stroke::{GpuOp, LiveStrokeDisposition, OpenStroke};
use crate::stroke_pipeline::PipelineState;
use crate::usage::StrokeDrain;

verus! {

/// The stroke after a row of further samples, each recorded as the stroke
/// records it.
pub open spec fn extended_all<P, D, A>(
    state: PipelineState<P, D, A>,
    samples: Seq<StylusSample<P>>,
) -> PipelineState<P, D, A>
    decreases samples.len(),
{
    if samples.len() == 0 {
        state
    } else {
        extended_all(state, samples.drop_last()).extending(samples.last())
    }
}

/// A stroke within its limit holds its first sample and every later one, in
/// order, and what it closes as carries them all with the brush, the colour,
/// the layer and the selection of its beginning.
pub proof fn closed_strokes_hold_every_sample<P, D, A>(
    state: PipelineState<P, D, A>,
    samples: Seq<StylusSample<P>>,
    ordinal: u64,
    end_timestamp_ns: u64,
    record: A,
)
    requires
        state.active is Some,
        state.active->0.samples.len() + samples.len() <= state.active->0.sample_limit,
    ensures
        extended_all(state, samples).active matches Some(active) && {
            let first = state.active->0;
            let closed = active.closed(ordinal, end_timestamp_ns, record);
            &&& active.samples.len() == first.samples.len() + samples.len()
            &&& active.sample_limit_exceeded == first.sample_limit_exceeded
            &&& forall|i: int|
                0 <= i < first.samples.len() ==> #[trigger] closed.samples[i] == first.samples[i]
            &&& forall|i: int|
                0 <= i < samples.len() ==> (#[trigger] closed.samples[first.samples.len() + i]) == (
                StylusSample { eraser: first.eraser, ..samples[i] })
            &&& closed.brush == first.brush
            &&& closed.color == first.color
            &&& closed.layer == first.layer
            &&& closed.alpha_locked == first.alpha_locked
            &&& closed.selection == first.selection
            &&& closed.stroke_generation == first.generation
            &&& closed.ordinal == ordinal
            &&& closed.end_timestamp_ns == end_timestamp_ns
            &&& closed.record == record
        },
    decreases samples.len(),
{
    if samples.len() > 0 {
        let before = samples.drop_last();
        closed_strokes_hold_every_sample(state, before, ordinal, end_timestamp_ns, record);
        let first = state.active->0;
        let earlier = extended_all(state, before).active->0;
        lemma_extension_keeps(state, before);
        let now = extended_all(state, samples).active->0;
        assert(now.samples == earlier.samples.push(earlier.recorded(samples.last())));
        let closed = now.closed(ordinal, end_timestamp_ns, record);
        let closed_before = earlier.closed(ordinal, end_timestamp_ns, record);
        assert forall|i: int| 0 <= i < first.samples.len() implies #[trigger] closed.samples[i]
            == first.samples[i] by {
            assert(closed.samples[i] == closed_before.samples[i]);
        }
        assert forall|i: int| 0 <= i < samples.len() implies (
        #[trigger] closed.samples[first.samples.len() + i]) == (StylusSample {
            eraser: first.eraser,
            ..samples[i]
        }) by {
            if i < before.len() {
                assert(before[i] == samples[i]);
                assert(closed.samples[first.samples.len() + i]
                    == closed_before.samples[first.samples.len() + i]);
            }
        }
    }
}

proof fn lemma_extension_keeps<P, D, A>(
    state: PipelineState<P, D, A>,
    samples: Seq<StylusSample<P>>,
)
    requires
        state.active is Some,
    ensures
        extended_all(state, samples).active matches Some(active) && active.eraser
            == state.active->0.eraser && active.sample_limit == state.active->0.sample_limit,
    decreases samples.len(),
{
    if samples.len() > 0 {
        lemma_extension_keeps(state, samples.drop_last());
    }
}

/// Extending a stroke changes nothing but its samples; without a stroke it
/// changes nothing.
pub proof fn extending_only_records<P, D, A>(
    state: PipelineState<P, D, A>,
    sample: StylusSample<P>,
)
    ensures
        state.active is None ==> state.extending(sample) == state,
        state.extending(sample).gpu_ops == state.gpu_ops,
        state.extending(sample).backlog == state.backlog,
        state.extending(sample).count == state.count,
        state.extending(sample).gesture == state.gesture,
        state.extending(sample).effects == state.effects,
        state.extending(sample).drawing == state.drawing,
{
}

/// A stroke that outgrows its recording says so and stays that way.
pub proof fn outgrown_strokes_stay_outgrown<P>(stroke: OpenStroke<P>, sample: StylusSample<P>)
    ensures
        stroke.samples.len() >= stroke.sample_limit ==> stroke.retaining(
            sample,
        ).sample_limit_exceeded && stroke.retaining(sample).samples == stroke.samples,
        stroke.sample_limit_exceeded ==> stroke.retaining(sample).sample_limit_exceeded,
{
}

/// The dabs that the operations draw for a stroke, in order.
pub open spec fn dabs_of<D>(ops: Seq<GpuOp<D>>, generation: u64) -> Seq<D>
    decreases ops.len(),
{
    if ops.len() == 0 {
        Seq::empty()
    } else {
        let before = dabs_of(ops.drop_last(), generation);
        match ops.last() {
            GpuOp::Dabs { generation: drawn, dabs } => if drawn == generation {
                before + dabs
            } else {
                before
            },
            _ => before,
        }
    }
}

/// Dabs are drawn once, behind those of the same stroke that wait already, and
/// no other stroke is touched.
pub proof fn dabs_are_drawn_once<D>(
    ops: Seq<GpuOp<D>>,
    generation: u64,
    dabs: Seq<D>,
    other: u64,
)
    requires
        other != generation,
    ensures
        dabs_of(crate::stroke::with_dabs(ops, generation, dabs), generation) == dabs_of(
            ops,
            generation,
        ) + dabs,
        dabs_of(crate::stroke::with_dabs(ops, generation, dabs), other) == dabs_of(ops, other),
        crate::stroke::with_dabs(ops, generation, dabs).len() >= ops.len(),
{
    let after = crate::stroke::with_dabs(ops, generation, dabs);
    if dabs.len() == 0 {
        assert(dabs_of(ops, generation) + dabs =~= dabs_of(ops, generation));
    } else {
        let merged = ops.len() > 0 && (ops.last() matches GpuOp::Dabs { generation: last, dabs: d }
            && last == generation);
        if merged {
            assert(after.drop_last() =~= ops.drop_last());
            let before = dabs_of(ops.drop_last(), generation);
            let held = ops.last()->Dabs_dabs;
            assert(before + (held + dabs) =~= (before + held) + dabs);
        } else {
            assert(after.drop_last() =~= ops);
        }
    }
}

/// What the brush engine draws for the stroke in progress reaches the display
/// under its number.
pub proof fn drawn_dabs_reach_the_display<P, D, A>(
    state: PipelineState<P, D, A>,
    dabs: Seq<D>,
)
    requires
        state.active is Some,
    ensures
        dabs_of(state.drawing_dabs(dabs).gpu_ops, state.active->0.generation) == dabs_of(
            state.gpu_ops,
            state.active->0.generation,
        ) + dabs,
        state.drawing_dabs(dabs).active == state.active,
        state.drawing_dabs(dabs).backlog == state.backlog,
        state.drawing_dabs(dabs).count == state.count,
{
    let generation = state.active->0.generation;
    let other: u64 = if generation == 0 { 1 } else { 0 };
    dabs_are_drawn_once(state.gpu_ops, generation, dabs, other);
}

/// A stroke that closes is finished on the display: kept, unless it outgrew its
/// recording. It counts as closed, and its last dabs are drawn before.
pub proof fn closing_finishes_the_stroke<P, D, A>(
    state: PipelineState<P, D, A>,
    dabs: Seq<D>,
)
    requires
        state.active is Some,
    ensures
        ({
            let after = state.closing(dabs);
            let active = state.active->0;
            &&& after.active is None
            &&& after.gpu_ops.len() > 0
            &&& after.gpu_ops.last() matches GpuOp::Finish { generation, disposition } && {
                &&& generation == active.generation
                &&& disposition is Commit <==> !active.sample_limit_exceeded
            }
            &&& after.gpu_ops.drop_last() == state.drawing_dabs(dabs).gpu_ops
            &&& state.count.closed < u64::MAX ==> after.count.closed == state.count.closed + 1
            &&& after.count.last_closed_layer == Some(active.layer)
            &&& after.count.next_generation == state.count.next_generation
            &&& after.backlog == state.backlog
            &&& after.gesture == state.gesture
            &&& after.drawing == state.drawing
        }),
{
    let after = state.closing(dabs);
    assert(after.gpu_ops.drop_last() =~= state.drawing_dabs(dabs).gpu_ops);
}

/// Dropping a stroke cancels it on the display and with the brush engine.
pub proof fn dropped_strokes_are_cancelled<P, D, A>(
    state: PipelineState<P, D, A>,
    withdraw: bool,
)
    ensures
        state.active matches Some(active) ==> {
            let after = state.dropping_active(withdraw);
            &&& after.active is None
            &&& after.gpu_ops.last() == (GpuOp::Finish::<D> {
                generation: active.generation,
                disposition: LiveStrokeDisposition::Cancel,
            })
            &&& after.effects.last() == crate::effect::InkEffect::DiscardStroke(active.generation)
            &&& after.effects.len() == state.effects.len() + 1
            &&& after.backlog == state.backlog
        },
        state.active is None ==> state.dropping_active(withdraw) == state,
        !withdraw ==> state.gpu_ops.is_prefix_of(state.dropping_active(withdraw).gpu_ops),
{
}

/// The end of a stroke that may be kept goes to the writer at once or behind
/// those that wait, exactly once, with its samples, its end time and its
/// record; the drain reports that artwork closed.
pub proof fn ended_strokes_go_to_the_writer<P, D, A>(
    before: PipelineState<P, D, A>,
    hand: SampleInHand<P>,
    dabs: Vec<D>,
    record: A,
    report: StrokeDrain,
    after: PipelineState<P, D, A>,
    next: DrainCursor<P>,
    reported: StrokeDrain,
    action: DrainAction<P, A>,
)
    requires
        drains(
            before,
            DrainCursor { awaited: crate::drain::Awaited::Record, hand: Some(hand) },
            DrainEvent::Recorded { dabs, record },
            report,
            after,
            next,
            reported,
            action,
        ),
        before.active is Some,
    ensures
        ({
            let active = before.active->0;
            let kept = !active.sample_limit_exceeded;
            &&& reported.artwork_closed == (kept || report.artwork_closed)
            &&& after.active is None
            &&& kept && before.backlog.len() == 0 ==> {
                &&& action matches DrainAction::Offer(request) && {
                    &&& request@.samples == active.samples
                    &&& request@.brush == active.brush
                    &&& request@.color == active.color
                    &&& request@.layer == active.layer
                    &&& request@.selection == active.selection
                    &&& request@.stroke_generation == active.generation
                    &&& request@.end_timestamp_ns == hand.corrected.timestamp_ns
                    &&& request@.record == record
                    &&& request@.ordinal == after.count.closed
                }
                &&& after.backlog == before.backlog
            }
            &&& kept && before.backlog.len() > 0 ==> {
                &&& action is TakeSample
                &&& after.backlog.len() == before.backlog.len() + 1
                &&& after.backlog.drop_last() == before.backlog
                &&& after.backlog.last().samples == active.samples
                &&& after.backlog.last().layer == active.layer
                &&& after.backlog.last().record == record
                &&& after.backlog.last().end_timestamp_ns == hand.corrected.timestamp_ns
            }
            &&& !kept ==> action is TakeSample && after.backlog == before.backlog
        }),
{
    if before.active matches Some(active) && !active.sample_limit_exceeded
        && before.backlog.len() > 0 {
        assert(after.backlog.drop_last() =~= before.backlog);
    }
}

/// A corrected brush sample starts, extends or ends the stroke by its phase: a
/// move asks the engine for that sample, an end for that sample and then for
/// the end.
pub proof fn brush_samples_drive_the_engine<P, D, A>(
    before: PipelineState<P, D, A>,
    hand: SampleInHand<P>,
    corrected: StylusSample<P>,
    report: StrokeDrain,
    after: PipelineState<P, D, A>,
    next: DrainCursor<P>,
    reported: StrokeDrain,
    action: DrainAction<P, A>,
)
    requires
        drains(
            before,
            DrainCursor { awaited: crate::drain::Awaited::Smoothing, hand: Some(hand) },
            DrainEvent::Smoothed(Some(corrected)),
            report,
            after,
            next,
            reported,
            action,
        ),
    ensures
        corrected.phase is Begin && before.backlog.len() < before.limits.backlog && !(
        before.focus.alpha_locked && (corrected.eraser || before.drawing.tool is Eraser)) ==> (
        action matches DrainAction::StartStroke(start) && start.sample.reading == corrected.reading
            && next.awaited is FirstDabs),
        (corrected.phase is Move || corrected.phase is End) && before.active is Some ==> {
            &&& action matches DrainAction::ExtendStroke(sample) && sample == (StylusSample {
                eraser: before.active->0.eraser,
                ..corrected
            })
            &&& corrected.phase is Move ==> next.awaited is MoveDabs
            &&& corrected.phase is End ==> next.awaited is EndDabs
            &&& next.hand matches Some(held) && held.corrected == corrected && held.admitted
                == hand.admitted
            &&& after.active matches Some(active) && (before.active->0.samples.len()
                < before.active->0.sample_limit ==> active.samples
                == before.active->0.samples.push(
                StylusSample { eraser: before.active->0.eraser, ..corrected },
            ))
        },
        (corrected.phase is Move || corrected.phase is End) && before.active is None ==> action
            is TakeSample && after == before,
        corrected.phase is Cancel ==> action is TakeSample && after.active is None,
        !(corrected.phase is Begin) ==> reported == report,
{
}

/// After the engine drew the last sample, a stroke without a gap is ended;
/// one whose input had a gap is cancelled, never cut short.
pub proof fn last_dabs_end_the_stroke<P, D, A>(
    before: PipelineState<P, D, A>,
    hand: SampleInHand<P>,
    discontinuous: bool,
    dabs: Vec<D>,
    report: StrokeDrain,
    after: PipelineState<P, D, A>,
    next: DrainCursor<P>,
    reported: StrokeDrain,
    action: DrainAction<P, A>,
)
    requires
        drains(
            before,
            DrainCursor { awaited: crate::drain::Awaited::EndDabs, hand: Some(hand) },
            DrainEvent::Dabs { discontinuous, dabs },
            report,
            after,
            next,
            reported,
            action,
        ),
        before.active is Some,
    ensures
        !discontinuous ==> action is EndStroke && next.awaited is Record && next.hand == Some(hand)
            && after.active == before.active && dabs_of(
            after.gpu_ops,
            before.active->0.generation,
        ) == dabs_of(before.gpu_ops, before.active->0.generation) + dabs@,
        discontinuous ==> action is TakeSample && after.active is None
            && after.recovery.awaiting_clean_begin && after.backlog == before.backlog,
{
    drawn_dabs_reach_the_display(before, dabs@);
}

/// The drain counts the samples it took from the queue, goes on to the next
/// sample, and at the end deals with what the queue had lost.
pub proof fn drains_start_and_end<P, D, A>(
    before: PipelineState<P, D, A>,
    cursor: DrainCursor<P>,
    event: DrainEvent<P, D, A>,
    report: StrokeDrain,
    after: PipelineState<P, D, A>,
    next: DrainCursor<P>,
    reported: StrokeDrain,
    action: DrainAction<P, A>,
)
    requires
        drains(before, cursor, event, report, after, next, reported, action),
    ensures
        cursor.awaited is Start && event is Drained ==> reported.samples == event->Drained_0
            && after == before && (action is TakeSample <==> !before.recovery.fatal),
        cursor.awaited is Sample && event is NoMoreSamples ==> action is Done && reported == report
            && (if event->NoMoreSamples_discontinuity {
            after.active is None && after.recovery.awaiting_clean_begin
        } else {
            after == before
        }),
        cursor.awaited is FirstDabs && event is Dabs && before.active is Some ==> dabs_of(
            after.gpu_ops,
            before.active->0.generation,
        ) == dabs_of(before.gpu_ops, before.active->0.generation) + event->Dabs_dabs@
            && after.active == before.active,
        cursor.awaited is GestureEnd && event is GestureFinished
            && before.gesture.completed_edit is None ==> after.gesture.completed_edit == Some(
            event->GestureFinished_0,
        ),
{
    if cursor.awaited is FirstDabs && event is Dabs && before.active is Some {
        drawn_dabs_reach_the_display(before, event->Dabs_dabs@);
    }
}

/// A refused stroke waits behind those that waited before it.
pub proof fn refused_strokes_wait_last<P, D, A>(
    state: PipelineState<P, D, A>,
    reply: crate::closed_queue::WriterReply<P, A>,
)
    ensures
        reply is Enqueued ==> state.replied(reply) == state,
        reply matches crate::closed_queue::WriterReply::Full(request) ==> state.replied(
            reply,
        ).backlog == state.backlog.push(request@),
        reply matches crate::closed_queue::WriterReply::Disconnected(request) ==> state.replied(
            reply,
        ).backlog == state.backlog.push(request@),
        state.replied(reply).active == state.active,
        state.replied(reply).gpu_ops == state.gpu_ops,
{
}

/// The synthetic end of a sealed stroke repeats its last sample, one number
/// later, and keeps its time and reading.
pub proof fn sealed_ends_repeat_the_last_sample<P>(stroke: OpenStroke<P>)
    requires
        stroke.samples.len() > 0,
        stroke.samples.last().sequence < u64::MAX,
    ensures
        stroke.sealing_end().phase is End,
        stroke.sealing_end().sequence == stroke.samples.last().sequence + 1,
        stroke.sealing_end().timestamp_ns == stroke.samples.last().timestamp_ns,
        stroke.sealing_end().device_id == stroke.samples.last().device_id,
        stroke.sealing_end().eraser == stroke.samples.last().eraser,
        stroke.sealing_end().reading == stroke.samples.last().reading,
        stroke.sealing_end().viewport_revision == stroke.samples.last().viewport_revision,
{
}

/// A failed workspace stops everything in progress and stays failed.
pub proof fn failures_stop_everything<P, D, A>(state: PipelineState<P, D, A>)
    ensures
        ({
            let after = state.failed_closed();
            &&& after.recovery.fatal
            &&& !after.gesture.edit_gesture
            &&& !after.gesture.temporary_picker_active
            &&& after.gesture.completed_edit is None
            &&& after.gesture.picker is None
            &&& !state.recovery.fatal ==> after.active is None
            &&& after.backlog == state.backlog
            &&& after.drawing == state.drawing
        }),
{
}

} // verus!
