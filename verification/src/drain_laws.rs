//! What a drain brings about: over a whole contact, and for each answer that
//! the host gives.
use vstd::prelude::*;

use crate::brush_step::SmoothingPlan;
use crate::closed_queue::WriterReply;
use crate::drain::{drains, Awaited, DrainAction, DrainCursor, DrainEvent, SampleInHand};
use crate::gesture_laws::{follows, layer_allows, whole_contact};
use crate::input::{AdmittedSample, StylusSample};
use crate::stroke_pipeline::{PipelineState, SampleRoute};
use crate::usage::StrokeDrain;

verus! {

/// One step of a drain: what was known before, what happened, and what came of
/// it.
pub struct DrainStep<P, D, A> {
    pub before: PipelineState<P, D, A>,
    pub cursor: DrainCursor<P>,
    pub event: DrainEvent<P, D, A>,
    pub report: StrokeDrain,
    pub after: PipelineState<P, D, A>,
    pub next: DrainCursor<P>,
    pub reported: StrokeDrain,
    pub action: DrainAction<P, A>,
}

impl<P, D, A> DrainStep<P, D, A> {
    #[verifier::opaque]
    pub open spec fn holds(self) -> bool {
        drains(
            self.before,
            self.cursor,
            self.event,
            self.report,
            self.after,
            self.next,
            self.reported,
            self.action,
        )
    }

    /// `later` goes on where this step ended.
    pub open spec fn leads_to(self, later: DrainStep<P, D, A>) -> bool {
        &&& later.before == self.after
        &&& later.cursor == self.next
        &&& later.report == self.reported
    }
}

/// A row of steps, each going on from the one before.
pub open spec fn drain_run<P, D, A>(steps: Seq<DrainStep<P, D, A>>) -> bool {
    &&& forall|i: int| 0 <= i < steps.len() ==> (#[trigger] steps[i]).holds()
    &&& forall|i: int|
        0 < i < steps.len() ==> steps[i - 1].leads_to(#[trigger] steps[i])
}

/// The steps of one contact with a gesture: each sample is taken and answered.
/// While a pick is open, every answer names a pixel.
pub open spec fn contact_run<P, D, A>(
    samples: Seq<AdmittedSample<P>>,
    steps: Seq<DrainStep<P, D, A>>,
) -> bool {
    &&& drain_run(steps)
    &&& steps.len() == 2 * samples.len()
    &&& samples.len() > 0
    &&& steps[0].cursor == (DrainCursor { awaited: Awaited::Sample, hand: None::<SampleInHand<P>> })
    &&& forall|k: int|
        0 <= k < samples.len() ==> steps[2 * k].event == DrainEvent::<P, D, A>::Sample(
            #[trigger] samples[k],
        )
    &&& forall|k: int|
        0 <= k < samples.len() - 1 ==> {
            let _ = #[trigger] samples[k];
            steps[2 * k + 1].event is GestureAt
        }
    &&& forall|k: int|
        0 < k < samples.len() - 1 ==> {
            let _ = #[trigger] samples[k];
            steps[1].event->GestureAt_0 is Some ==> steps[2 * k + 1].event->GestureAt_0 is Some
        }
    &&& steps[2 * samples.len() - 1].event is GestureFinished
}

/// The contact is under way: its gesture is open and the next sample is awaited.
spec fn under_way<P, D, A>(
    start: PipelineState<P, D, A>,
    state: PipelineState<P, D, A>,
    cursor: DrainCursor<P>,
    picks: bool,
) -> bool {
    &&& state.gesture.edit_gesture
    &&& !state.gesture.temporary_picker_active
    &&& !state.recovery.awaiting_clean_begin
    &&& state.transform == start.transform
    &&& state.focus == start.focus
    &&& state.drawing == start.drawing
    &&& start.gesture.completed_edit is None ==> state.gesture.completed_edit is None
    &&& !picks ==> state.gesture.picker is None
    &&& cursor == (DrainCursor { awaited: Awaited::Sample, hand: None::<SampleInHand<P>> })
}

/// The first sample and its answer open the gesture.
proof fn lemma_contact_begins<P, D, A>(
    taken: DrainStep<P, D, A>,
    answered: DrainStep<P, D, A>,
    admitted: AdmittedSample<P>,
)
    requires
        taken.holds(),
        answered.holds(),
        taken.leads_to(answered),
        taken.event == DrainEvent::<P, D, A>::Sample(admitted),
        taken.cursor.awaited is Sample,
        answered.event is GestureAt,
        admitted.sample.phase is Begin,
        admitted.begin_layer == Some(taken.before.focus.layer),
        !admitted.temporary_picker,
        follows(taken.before.drawing.tool),
        layer_allows(taken.before.drawing.tool, taken.before.focus.locked),
        taken.before.transform.projection is None,
        !taken.before.transform.starting,
    ensures
        under_way(
            taken.before,
            answered.after,
            answered.next,
            answered.event->GestureAt_0 is Some,
        ),
        taken.action == (DrainAction::<P, A>::BeginGesture {
            tool: taken.before.drawing.tool,
            settings: taken.before.drawing.edit_settings,
            sample: admitted.sample,
        }),
{
    reveal(DrainStep::holds);
}

/// A move is handed to the gesture and changes nothing by itself.
proof fn lemma_move_taken<P, D, A>(
    start: PipelineState<P, D, A>,
    taken: DrainStep<P, D, A>,
    admitted: AdmittedSample<P>,
    picks: bool,
)
    requires
        taken.holds(),
        taken.event == DrainEvent::<P, D, A>::Sample(admitted),
        admitted.sample.phase is Move,
        under_way(start, taken.before, taken.cursor, picks),
        follows(start.drawing.tool),
        layer_allows(start.drawing.tool, start.focus.locked),
        start.transform.projection is None,
        !start.transform.starting,
    ensures
        taken.action == DrainAction::<P, A>::MoveGesture(admitted.sample),
        taken.next.awaited is GestureMove,
        under_way(
            start,
            taken.after,
            DrainCursor { awaited: Awaited::Sample, hand: None::<SampleInHand<P>> },
            picks,
        ),
{
    reveal(DrainStep::holds);
}

/// The answer to a move leaves the gesture open.
proof fn lemma_move_answered<P, D, A>(
    start: PipelineState<P, D, A>,
    answered: DrainStep<P, D, A>,
    picks: bool,
)
    requires
        answered.holds(),
        answered.event is GestureAt,
        picks ==> answered.event->GestureAt_0 is Some,
        answered.cursor.awaited is GestureMove,
        under_way(
            start,
            answered.before,
            DrainCursor { awaited: Awaited::Sample, hand: None::<SampleInHand<P>> },
            picks,
        ),
    ensures
        under_way(start, answered.after, answered.next, picks),
{
    reveal(DrainStep::holds);
}

/// The end is handed to the gesture, which is open no longer.
proof fn lemma_end_taken<P, D, A>(
    start: PipelineState<P, D, A>,
    taken: DrainStep<P, D, A>,
    admitted: AdmittedSample<P>,
    picks: bool,
)
    requires
        taken.holds(),
        taken.event == DrainEvent::<P, D, A>::Sample(admitted),
        admitted.sample.phase is End,
        under_way(start, taken.before, taken.cursor, picks),
        follows(start.drawing.tool),
        layer_allows(start.drawing.tool, start.focus.locked),
        start.transform.projection is None,
        !start.transform.starting,
    ensures
        taken.action == DrainAction::<P, A>::FinishGesture(admitted.sample),
        taken.next.awaited is GestureEnd,
        !taken.after.gesture.edit_gesture,
        start.gesture.completed_edit is None ==> taken.after.gesture.completed_edit is None,
{
    reveal(DrainStep::holds);
}

/// The answer to the end is the gesture's result.
proof fn lemma_end_answered<P, D, A>(answered: DrainStep<P, D, A>)
    requires
        answered.holds(),
        answered.event is GestureFinished,
        answered.cursor.awaited is GestureEnd,
    ensures
        answered.before.gesture.completed_edit is None ==> answered.after.gesture.completed_edit
            == Some(answered.event->GestureFinished_0),
        answered.after.gesture.edit_gesture == answered.before.gesture.edit_gesture,
{
    reveal(DrainStep::holds);
}

/// The steps of one sample follow each other, and the first of them follows the
/// answer to the sample before.
proof fn lemma_adjacent<P, D, A>(
    samples: Seq<AdmittedSample<P>>,
    steps: Seq<DrainStep<P, D, A>>,
    k: int,
)
    requires
        contact_run(samples, steps),
        0 <= k < samples.len(),
    ensures
        steps[2 * k].holds(),
        steps[2 * k + 1].holds(),
        steps[2 * k].leads_to(steps[2 * k + 1]),
        k > 0 ==> steps[2 * (k - 1) + 1].leads_to(steps[2 * k]),
        steps[2 * k].event == DrainEvent::<P, D, A>::Sample(samples[k]),
        k < samples.len() - 1 ==> steps[2 * k + 1].event is GestureAt,
        0 < k < samples.len() - 1 && steps[1].event->GestureAt_0 is Some ==> steps[2 * k
            + 1].event->GestureAt_0 is Some,
        k == samples.len() - 1 ==> steps[2 * k + 1].event is GestureFinished,
{
    let first = 2 * k;
    let second = 2 * k + 1;
    assert(steps[second - 1].leads_to(steps[second]));
    if k > 0 {
        assert(steps[first - 1].leads_to(steps[first]));
        assert(2 * (k - 1) + 1 == first - 1);
    }
    let _ = samples[k];
}

/// The contact is under way after each of its samples but the last.
proof fn lemma_contact_prefix<P, D, A>(
    samples: Seq<AdmittedSample<P>>,
    steps: Seq<DrainStep<P, D, A>>,
    k: int,
)
    requires
        contact_run(samples, steps),
        whole_contact(samples, steps[0].before.focus.layer),
        follows(steps[0].before.drawing.tool),
        layer_allows(steps[0].before.drawing.tool, steps[0].before.focus.locked),
        steps[0].before.transform.projection is None,
        !steps[0].before.transform.starting,
        0 <= k < samples.len() - 1,
    ensures
        under_way(
            steps[0].before,
            steps[2 * k + 1].after,
            steps[2 * k + 1].next,
            steps[1].event->GestureAt_0 is Some,
        ),
        k == 0 ==> steps[0].action == (DrainAction::<P, A>::BeginGesture {
            tool: steps[0].before.drawing.tool,
            settings: steps[0].before.drawing.edit_settings,
            sample: samples[0].sample,
        }),
        k > 0 ==> steps[2 * k].action == DrainAction::<P, A>::MoveGesture(samples[k].sample),
    decreases k,
{
    lemma_adjacent(samples, steps, k);
    if k == 0 {
        lemma_contact_begins(steps[0], steps[1], samples[0]);
    } else {
        lemma_contact_prefix(samples, steps, k - 1);
        let picks = steps[1].event->GestureAt_0 is Some;
        lemma_move_taken(steps[0].before, steps[2 * k], samples[k], picks);
        lemma_move_answered(steps[0].before, steps[2 * k + 1], picks);
    }
}

/// Over a whole drained contact with an edit tool the gesture receives exactly
/// the first sample, every move in its order, and the end; its result is kept.
pub proof fn gestures_receive_the_whole_contact<P, D, A>(
    samples: Seq<AdmittedSample<P>>,
    steps: Seq<DrainStep<P, D, A>>,
)
    requires
        contact_run(samples, steps),
        whole_contact(samples, steps[0].before.focus.layer),
        follows(steps[0].before.drawing.tool),
        layer_allows(steps[0].before.drawing.tool, steps[0].before.focus.locked),
        steps[0].before.transform.projection is None,
        !steps[0].before.transform.starting,
    ensures
        steps[0].action == (DrainAction::<P, A>::BeginGesture {
            tool: steps[0].before.drawing.tool,
            settings: steps[0].before.drawing.edit_settings,
            sample: samples[0].sample,
        }),
        forall|k: int|
            0 < k < samples.len() - 1 ==> steps[2 * k].action
                == DrainAction::<P, A>::MoveGesture((#[trigger] samples[k]).sample),
        steps[2 * (samples.len() - 1)].action == DrainAction::<P, A>::FinishGesture(
            samples[samples.len() - 1].sample,
        ),
        steps[0].before.gesture.completed_edit is None
            ==> steps.last().after.gesture.completed_edit == Some(
            steps.last().event->GestureFinished_0,
        ),
        !steps.last().after.gesture.edit_gesture,
{
    let last = samples.len() - 1;
    assert forall|k: int| 0 < k < samples.len() - 1 implies steps[2 * k].action == DrainAction::<
        P,
        A,
    >::MoveGesture((#[trigger] samples[k]).sample) by {
        lemma_contact_prefix(samples, steps, k);
    }
    lemma_contact_prefix(samples, steps, 0);
    lemma_contact_prefix(samples, steps, last - 1);
    lemma_adjacent(samples, steps, last);
    lemma_end_taken(
        steps[0].before,
        steps[2 * last],
        samples[last],
        steps[1].event->GestureAt_0 is Some,
    );
    lemma_end_answered(steps[2 * last + 1]);
    assert(steps[2 * last + 1] == steps.last());
}

/// A routed sample is awaited for what was asked of the host.
pub proof fn answers_are_awaited_by_route<P, D, A>(
    step: DrainStep<P, D, A>,
    admitted: AdmittedSample<P>,
)
    requires
        step.holds(),
        step.cursor.awaited is Sample,
        step.event == DrainEvent::<P, D, A>::Sample(admitted),
    ensures
        ({
            let route = step.before.routed(admitted).1;
            &&& step.after == step.before.routed(admitted).0
            &&& route matches SampleRoute::BeginEdit { tool, settings, temporary }
                ==> step.next.awaited == (Awaited::GestureBegin { settings, temporary })
            &&& route is MoveEdit ==> step.next.awaited is GestureMove
            &&& route is FinishEdit ==> step.next.awaited is GestureEnd
            &&& route is BeginTransform ==> step.next.awaited is TransformBegin
            &&& route is ObserveTransform ==> step.next.awaited is TransformDrag
            &&& route is Brush ==> step.next.awaited is Smoothing
            &&& route is Consumed ==> step.next.awaited is Sample && step.next.hand is None
        }),
{
    reveal(DrainStep::holds);
}

/// The gesture's answer opens a pick at its pixel for the sample in hand, moves
/// it, or finishes the edit.
pub proof fn gesture_answers_take_effect<P, D, A>(step: DrainStep<P, D, A>, hand: SampleInHand<P>)
    requires
        step.holds(),
        step.cursor.hand == Some(hand),
    ensures
        step.event matches DrainEvent::GestureAt(point) ==> {
            &&& step.cursor.awaited matches Awaited::GestureBegin { settings, temporary } ==> {
                &&& point is None ==> step.after == step.before
                &&& point matches Some(pixel) ==> (
                step.after.gesture.picker matches Some(picker) && picker.latest.point == pixel
                    && picker.token.begin == hand.admitted.sample.sequence && picker.token.device
                    == hand.admitted.sample.device_id && picker.token.epoch
                    == hand.admitted.picker_epoch)
                &&& step.action is TakeSample && step.next.awaited is Sample
            }
            &&& step.cursor.awaited is GestureMove && step.before.gesture.picker is Some && point
                is Some ==> (step.after.gesture.picker matches Some(picker) && picker.latest.point
                == point->0)
            &&& step.cursor.awaited is GestureMove ==> step.action is TakeSample
                && step.next.awaited is Sample
        },
        step.event matches DrainEvent::GestureFinished(result) ==> step.cursor.awaited is GestureEnd
            ==> (step.before.gesture.completed_edit is None
            ==> step.after.gesture.completed_edit == Some(result)) && step.action is TakeSample
            && step.next.awaited is Sample,
{
    reveal(DrainStep::holds);
}

/// The geometry moves the transform by the sample in hand: on the way in it may
/// start one, later it drags the draft.
pub proof fn geometry_moves_the_transform<P, D, A>(step: DrainStep<P, D, A>, hand: SampleInHand<P>)
    requires
        step.holds(),
        step.cursor.hand == Some(hand),
    ensures
        step.event matches DrainEvent::Geometry { edit_busy, geometry } ==> {
            &&& step.cursor.awaited is TransformBegin && hand.admitted.sample.phase is Begin
                && geometry.hit && (step.before.selection matches Some(selection)
                && selection.bounds is Some) ==> step.after.transform.starting
                && step.after.transform.drag is Some
            &&& step.cursor.awaited is TransformBegin && !geometry.hit ==> step.after == step.before
            &&& step.cursor.awaited is TransformDrag && hand.admitted.sample.phase is Move
                && step.before.transform.pending_tool is None
                && !step.before.transform.pending_cancel && geometry.update is Ok && (
            step.before.transform.drag matches Some(drag) && drag.viewport_revision
                == hand.admitted.sample.viewport_revision) ==> step.after.transform.pending
                == Some(geometry.update->Ok_0)
            &&& step.cursor.awaited is TransformBegin || step.cursor.awaited is TransformDrag
                ==> step.action is TakeSample && step.next.awaited is Sample
                && step.after.backlog == step.before.backlog
        },
{
    reveal(DrainStep::holds);
}

/// What the writer refused waits behind the rest; what it took is gone. Either
/// way the drain goes on.
pub proof fn writer_replies_are_taken<P, D, A>(
    step: DrainStep<P, D, A>,
    reply: WriterReply<P, A>,
)
    requires
        step.holds(),
        step.cursor.awaited is Reply,
        step.event == DrainEvent::<P, D, A>::Replied(reply),
    ensures
        reply is Enqueued ==> step.after == step.before,
        reply matches WriterReply::Full(request) ==> step.after.backlog
            == step.before.backlog.push(request@),
        reply matches WriterReply::Disconnected(request) ==> step.after.backlog
            == step.before.backlog.push(request@),
        step.action is TakeSample,
        step.next.awaited is Sample,
        step.reported == step.report,
{
    reveal(DrainStep::holds);
}

/// What the engine drew for a move is shown; a gap cancels the stroke; a sample
/// without a valid place cancels it too and asks for a clean contact.
pub proof fn drawn_moves_are_shown<P, D, A>(step: DrainStep<P, D, A>)
    requires
        step.holds(),
        step.before.active is Some,
    ensures
        step.event matches DrainEvent::Dabs { discontinuous, dabs } ==> step.cursor.awaited
            is MoveDabs ==> {
            &&& !discontinuous ==> step.after.active == step.before.active
                && crate::stroke_laws::dabs_of(
                step.after.gpu_ops,
                step.before.active->0.generation,
            ) == crate::stroke_laws::dabs_of(
                step.before.gpu_ops,
                step.before.active->0.generation,
            ) + dabs@
            &&& discontinuous ==> step.after.active is None
                && step.after.recovery.awaiting_clean_begin
            &&& step.action is TakeSample && step.next.awaited is Sample
        },
        step.cursor.awaited is Smoothing && step.cursor.hand is Some && (
        step.event matches DrainEvent::Smoothed(corrected) && corrected is None)
            ==> step.after.active is None && step.after.recovery.awaiting_clean_begin
            && step.action is TakeSample && step.after.backlog == step.before.backlog,
{
    reveal(DrainStep::holds);
    if let DrainEvent::Dabs { discontinuous, dabs } = step.event {
        crate::stroke_laws::drawn_dabs_reach_the_display(step.before, dabs@);
    }
}

/// A stroke that ended is reported as closed artwork exactly where it is kept.
pub proof fn kept_strokes_are_reported<P, D, A>(step: DrainStep<P, D, A>, hand: SampleInHand<P>)
    requires
        step.holds(),
        step.cursor == (DrainCursor { awaited: Awaited::Record, hand: Some(hand) }),
        step.event is Recorded,
        step.before.active is Some,
    ensures
        !step.before.active->0.sample_limit_exceeded ==> step.reported.artwork_closed,
        step.before.active->0.sample_limit_exceeded ==> step.reported.artwork_closed
            == step.report.artwork_closed,
        step.reported.samples == step.report.samples,
        step.after.active is None,
        !step.before.active->0.sample_limit_exceeded && step.before.backlog.len() == 0
            ==> step.action is Offer && step.next.awaited is Reply,
        !step.before.active->0.sample_limit_exceeded && step.before.backlog.len() > 0
            ==> step.action is TakeSample && step.after.backlog.len() == step.before.backlog.len()
            + 1,
{
    reveal(DrainStep::holds);
}

/// An accepted begin puts its size, and its colour where it paints with one,
/// first in the report; nothing else of a drain touches either.
pub proof fn begins_are_reported<P, D, A>(
    step: DrainStep<P, D, A>,
    hand: SampleInHand<P>,
    sample: StylusSample<P>,
)
    requires
        step.holds(),
        step.cursor == (DrainCursor { awaited: Awaited::Smoothing, hand: Some(hand) }),
        step.event == DrainEvent::<P, D, A>::Smoothed(Some(sample)),
        sample.phase is Begin,
        !sample.eraser,
        step.before.backlog.len() < step.before.limits.backlog,
        !step.before.focus.alpha_locked,
    ensures
        step.reported.started_brush_sizes@[0] == Some(step.before.drawing.size_tenths),
        step.before.drawing.tool is Brush || step.before.drawing.tool is Pen
            || step.before.drawing.tool is Pencil ==> step.reported.started_brush_colors@[0]
            == Some(step.before.drawing.color),
        step.before.drawing.tool is Eraser ==> step.reported.started_brush_colors
            == step.report.started_brush_colors,
        step.reported.samples == step.report.samples,
        step.reported.artwork_closed == step.report.artwork_closed,
{
    reveal(DrainStep::holds);
}

/// An answer that nobody waits for changes nothing.
pub proof fn stray_answers_change_nothing<P, D, A>(step: DrainStep<P, D, A>)
    requires
        step.holds(),
        step.cursor.awaited is Nothing || step.cursor.awaited is Sample && !(step.event is Sample)
            && !(step.event is NoMoreSamples) || step.cursor.awaited is Reply && !(step.event
            is Replied) || step.cursor.awaited is Record && !(step.event is Recorded),
    ensures
        step.after == step.before,
        step.next == step.cursor,
        step.reported == step.report,
        step.action is Done,
{
    reveal(DrainStep::holds);
}

/// A begin takes a new smoother of the strength that its tip is set to; later
/// samples go on with the smoother of their stroke.
pub proof fn smoothing_follows_the_stroke<P, D, A>(
    state: PipelineState<P, D, A>,
    sample: StylusSample<P>,
)
    ensures
        sample.phase is Begin && !sample.eraser ==> state.smoothing_plan(sample)
            == SmoothingPlan::Fresh(state.drawing.brush_settings.smoothing),
        sample.phase is Begin ==> state.smoothing_plan(sample) is Fresh,
        !(sample.phase is Begin) ==> match state.active {
            Some(active) => state.smoothing_plan(sample) == (SmoothingPlan::Continue {
                generation: active.generation,
            }),
            None => state.smoothing_plan(sample) is Unsmoothed,
        },
{
}

/// The tail of a broken contact is counted and goes nowhere; a temporary pick
/// that ends in it is answered.
pub proof fn broken_tails_are_counted<P, D, A>(
    state: PipelineState<P, D, A>,
    admitted: AdmittedSample<P>,
)
    requires
        state.recovery.awaiting_clean_begin,
        !(admitted.sample.phase is Begin),
        !state.focus.locked,
    ensures
        state.routed(admitted).1 is Consumed,
        state.recovery.quarantined < u64::MAX ==> state.routed(admitted).0.recovery.quarantined
            == state.recovery.quarantined + 1,
        state.routed(admitted).0.recovery.awaiting_clean_begin,
        state.routed(admitted).0.active == state.active,
        admitted.sample.phase is End && state.gesture.temporary_picker_active ==> (state.routed(
            admitted,
        ).0.effects.last() matches crate::effect::InkEffect::CompleteTemporaryPick(answered)
            && answered.device == admitted.sample.device_id && answered.sequence
            == admitted.sample.sequence),
{
}

/// A contact over a transform that is to pick a colour picks nothing, and is
/// answered at its end.
pub proof fn picks_over_a_transform_are_answered<P, D, A>(
    state: PipelineState<P, D, A>,
    admitted: AdmittedSample<P>,
)
    requires
        state.transform.projection is Some || state.transform.starting,
        !state.recovery.awaiting_clean_begin,
        admitted.sample.phase is End,
        state.gesture.temporary_picker_active,
    ensures
        state.routed(admitted).1 is Consumed,
        state.routed(admitted).0.effects.last() matches crate::effect::InkEffect::CompleteTemporaryPick(
            answered,
        ) && answered.device == admitted.sample.device_id && answered.sequence
            == admitted.sample.sequence,
        state.routed(admitted).0.transform == state.transform,
{
}

} // verus!
