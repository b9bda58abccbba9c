//! What a contact of the pen comes to: which samples reach the edit gesture,
//! the transform or the brush, and what a finished gesture leaves.
use vstd::prelude::*;

use crate::document::PixelPoint;
use crate::drain::{drains, DrainAction, DrainCursor, DrainEvent};
use crate::drawing::{DrawingTool, EditSettings};
use crate::edit::{EditCommand, GestureError};
use crate::effect::InkEffect;
use crate::input::{AdmittedSample, StylusSample};
use crate::picker::PickerSource;
use crate::stroke_pipeline::{PipelineState, SampleRoute};
use crate::usage::StrokeDrain;

verus! {

/// Nothing holds this sample back: no failed contact before it, no transform
/// that owns the input, and no colour pick in its place.
pub open spec fn runs_free<P, D, A>(
    state: PipelineState<P, D, A>,
    admitted: AdmittedSample<P>,
) -> bool {
    &&& admitted.sample.phase is Begin || !state.recovery.awaiting_clean_begin
    &&& state.transform.projection is None
    &&& !state.transform.starting
    &&& if admitted.sample.phase is Begin {
        !admitted.temporary_picker
    } else {
        !state.gesture.temporary_picker_active
    }
}

/// Tools whose contacts are followed as a gesture.
pub open spec fn follows(tool: DrawingTool) -> bool {
    tool is Wand || tool is Lasso || tool is RectangleSelection || tool is Eyedropper || tool
        is Fill || tool is Gradient
}

/// The layer lets the tool work: it is unlocked, or the tool only reads.
pub open spec fn layer_allows(tool: DrawingTool, locked: bool) -> bool {
    !locked || tool is Wand || tool is Lasso || tool is RectangleSelection || tool is Eyedropper
}

/// The pipeline and the routes after a row of samples.
pub open spec fn routed_all<P, D, A>(
    state: PipelineState<P, D, A>,
    samples: Seq<AdmittedSample<P>>,
) -> (PipelineState<P, D, A>, Seq<SampleRoute>)
    decreases samples.len(),
{
    if samples.len() == 0 {
        (state, Seq::empty())
    } else {
        let (before, routes) = routed_all(state, samples.drop_last());
        let (after, route) = before.routed(samples.last());
        (after, routes.push(route))
    }
}

/// A whole contact: down on the active layer, moves, and up again.
pub open spec fn whole_contact<P>(
    samples: Seq<AdmittedSample<P>>,
    layer: crate::document::LayerId,
) -> bool {
    &&& samples.len() >= 2
    &&& samples[0].sample.phase is Begin
    &&& samples[0].begin_layer == Some(layer)
    &&& !samples[0].temporary_picker
    &&& forall|i: int| 0 < i < samples.len() - 1 ==> (#[trigger] samples[i]).sample.phase is Move
    &&& samples[samples.len() - 1].sample.phase is End
}

/// The pipeline in the middle of an edit contact.
spec fn in_gesture<P, D, A>(
    start: PipelineState<P, D, A>,
    state: PipelineState<P, D, A>,
) -> bool {
    &&& state.gesture.edit_gesture
    &&& !state.gesture.temporary_picker_active
    &&& !state.recovery.awaiting_clean_begin
    &&& state.transform == start.transform
    &&& state.focus == start.focus
    &&& state.drawing == start.drawing
}

proof fn lemma_gesture_prefix<P, D, A>(
    state: PipelineState<P, D, A>,
    samples: Seq<AdmittedSample<P>>,
    count: int,
)
    requires
        whole_contact(samples, state.focus.layer),
        follows(state.drawing.tool),
        layer_allows(state.drawing.tool, state.focus.locked),
        state.transform.projection is None,
        !state.transform.starting,
        1 <= count < samples.len(),
    ensures
        ({
            let (after, routes) = routed_all(state, samples.take(count));
            &&& in_gesture(state, after)
            &&& routes.len() == count
            &&& routes[0] == (SampleRoute::BeginEdit {
                tool: state.drawing.tool,
                settings: state.drawing.edit_settings,
                temporary: false,
            })
            &&& forall|i: int| 0 < i < count ==> (#[trigger] routes[i]) is MoveEdit
        }),
    decreases count,
{
    let taken = samples.take(count);
    assert(taken.drop_last() =~= samples.take(count - 1));
    assert(taken.last() == samples[count - 1]);
    if count == 1 {
        assert(samples.take(0) =~= Seq::empty());
        assert(routed_all(state, samples.take(0)) == (state, Seq::<SampleRoute>::empty()));
    } else {
        lemma_gesture_prefix(state, samples, count - 1);
    }
}

/// Over a whole contact an edit gesture is handed the first sample, every move
/// in its order, and the end, with the tool and the settings that were chosen.
pub proof fn edit_gestures_follow_the_whole_contact<P, D, A>(
    state: PipelineState<P, D, A>,
    samples: Seq<AdmittedSample<P>>,
)
    requires
        whole_contact(samples, state.focus.layer),
        follows(state.drawing.tool),
        layer_allows(state.drawing.tool, state.focus.locked),
        state.transform.projection is None,
        !state.transform.starting,
    ensures
        ({
            let (after, routes) = routed_all(state, samples);
            &&& routes.len() == samples.len()
            &&& routes[0] == (SampleRoute::BeginEdit {
                tool: state.drawing.tool,
                settings: state.drawing.edit_settings,
                temporary: false,
            })
            &&& forall|i: int| 0 < i < samples.len() - 1 ==> (#[trigger] routes[i]) is MoveEdit
            &&& routes[samples.len() - 1] is FinishEdit
            &&& !after.gesture.edit_gesture
            &&& after.backlog == state.backlog
            &&& after.drawing == state.drawing
        }),
{
    let last = samples.len() - 1;
    lemma_gesture_prefix(state, samples, last);
    assert(samples.drop_last() =~= samples.take(last));
    lemma_routing_saves_nothing(state, samples);
}

proof fn lemma_routing_saves_nothing<P, D, A>(
    state: PipelineState<P, D, A>,
    samples: Seq<AdmittedSample<P>>,
)
    ensures
        routed_all(state, samples).0.backlog == state.backlog,
        routed_all(state, samples).0.drawing == state.drawing,
    decreases samples.len(),
{
    if samples.len() > 0 {
        lemma_routing_saves_nothing(state, samples.drop_last());
        crate::pipeline_laws::routing_saves_nothing(
            routed_all(state, samples.drop_last()).0,
            samples.last(),
        );
    }
}

/// Every move of a free contact with an edit tool reaches the gesture; the pen
/// going up finishes one that is open, and only then.
pub proof fn moves_reach_the_gesture<P, D, A>(
    state: PipelineState<P, D, A>,
    admitted: AdmittedSample<P>,
)
    requires
        runs_free(state, admitted),
        follows(state.drawing.tool),
        layer_allows(state.drawing.tool, state.focus.locked),
    ensures
        admitted.sample.phase is Move ==> state.routed(admitted).1 is MoveEdit,
        admitted.sample.phase is End && state.gesture.edit_gesture ==> state.routed(
            admitted,
        ).1 is FinishEdit,
        admitted.sample.phase is End && !state.gesture.edit_gesture ==> state.routed(
            admitted,
        ).1 is Consumed,
        admitted.sample.phase is Cancel ==> state.routed(admitted).1 is Consumed && !state.routed(
            admitted,
        ).0.gesture.edit_gesture && state.routed(admitted).0.gesture.picker is None,
{
}

/// A contact that came down on a layer which is no longer active selects
/// nothing and says so.
pub proof fn gestures_stay_on_their_layer<P, D, A>(
    state: PipelineState<P, D, A>,
    admitted: AdmittedSample<P>,
)
    requires
        runs_free(state, admitted),
        follows(state.drawing.tool),
        layer_allows(state.drawing.tool, state.focus.locked),
        admitted.sample.phase is Begin,
        admitted.begin_layer != Some(state.focus.layer),
    ensures
        state.routed(admitted).1 is Consumed,
        state.routed(admitted).0.gesture.completed_edit == Some(
            Err::<EditCommand, _>(GestureError::TargetLayerChanged),
        ),
        !state.routed(admitted).0.gesture.edit_gesture,
{
}

/// A free contact of a painting tool, or of the hand, belongs to the brush,
/// sample by sample, and the pipeline itself stays as it was.
pub proof fn painting_contacts_reach_the_brush<P, D, A>(
    state: PipelineState<P, D, A>,
    admitted: AdmittedSample<P>,
)
    requires
        runs_free(state, admitted),
        state.drawing.tool is Pencil || state.drawing.tool is Pen || state.drawing.tool is Brush
            || state.drawing.tool is Eraser || state.drawing.tool is Move,
        !state.focus.locked,
    ensures
        state.routed(admitted).1 is Brush,
        state.routed(admitted).0.active == state.active,
        state.routed(admitted).0.gpu_ops == state.gpu_ops,
        state.routed(admitted).0.drawing == state.drawing,
        state.routed(admitted).0.focus == state.focus,
        state.routed(admitted).0.selection == state.selection,
        state.routed(admitted).0.count == state.count,
        state.routed(admitted).0.backlog == state.backlog,
        !state.routed(admitted).0.recovery.awaiting_clean_begin,
{
}

/// Moving the selection starts a transform where the pen comes down on the
/// active layer, and nowhere else.
pub proof fn selections_are_moved_from_their_layer<P, D, A>(
    state: PipelineState<P, D, A>,
    admitted: AdmittedSample<P>,
)
    requires
        runs_free(state, admitted),
        state.drawing.tool is MoveSelection,
        !state.focus.locked,
    ensures
        state.routed(admitted).1 is BeginTransform <==> admitted.sample.phase is Begin
            && admitted.begin_layer == Some(state.focus.layer),
        !(state.routed(admitted).1 is BeginTransform) ==> state.routed(admitted).1 is Consumed,
{
}

/// While a transform owns the input, every sample that is not held back moves
/// it, whatever tool is selected.
pub proof fn transforms_own_the_input<P, D, A>(
    state: PipelineState<P, D, A>,
    admitted: AdmittedSample<P>,
)
    requires
        state.transform.projection is Some || state.transform.starting,
        !state.focus.locked,
        admitted.sample.phase is Begin || !state.recovery.awaiting_clean_begin,
        if admitted.sample.phase is Begin {
            !admitted.temporary_picker
        } else {
            !state.gesture.temporary_picker_active
        },
    ensures
        state.routed(admitted).1 is ObserveTransform,
{
}

/// A contact that is to pick a colour becomes an eyedropper over everything
/// visible, whatever tool is selected, and stays one until it ends.
pub proof fn temporary_picks_read_what_is_visible<P, D, A>(
    state: PipelineState<P, D, A>,
    admitted: AdmittedSample<P>,
)
    requires
        admitted.sample.phase is Begin,
        admitted.temporary_picker,
        admitted.begin_layer == Some(state.focus.layer),
        state.transform.projection is None,
        !state.transform.starting,
    ensures
        state.routed(admitted).1 matches SampleRoute::BeginEdit { tool, settings, temporary } && {
            &&& tool is Eyedropper
            &&& temporary
            &&& settings.source is AllVisible
            &&& settings.tolerance == state.drawing.edit_settings.tolerance
            &&& settings.fill == state.drawing.edit_settings.fill
            &&& settings.selection_mode == state.drawing.edit_settings.selection_mode
        },
        state.routed(admitted).0.gesture.temporary_picker_active,
        state.routed(admitted).0.gesture.edit_gesture,
        state.routed(admitted).0.drawing == state.drawing,
{
}

/// The end of a contact ends its temporary pick, and names it for the answer.
pub proof fn temporary_picks_end_with_their_contact<P, D, A>(
    state: PipelineState<P, D, A>,
    admitted: AdmittedSample<P>,
)
    requires
        admitted.sample.phase is End || admitted.sample.phase is Cancel,
    ensures
        !state.routed(admitted).0.gesture.temporary_picker_active,
{
}

/// What the host is asked for is the routed sample itself: the gesture, the
/// transform and the smoother get it as it was admitted.
pub proof fn routed_samples_are_handed_over<P, D, A>(
    before: PipelineState<P, D, A>,
    admitted: AdmittedSample<P>,
    report: StrokeDrain,
    after: PipelineState<P, D, A>,
    next: DrainCursor<P>,
    reported: StrokeDrain,
    action: DrainAction<P, A>,
)
    requires
        drains(
            before,
            DrainCursor { awaited: crate::drain::Awaited::Sample, hand: None },
            DrainEvent::Sample(admitted),
            report,
            after,
            next,
            reported,
            action,
        ),
    ensures
        ({
            let route = before.routed(admitted).1;
            &&& route is MoveEdit ==> action == DrainAction::<P, A>::MoveGesture(admitted.sample)
            &&& route is FinishEdit ==> action == DrainAction::<P, A>::FinishGesture(
                admitted.sample,
            )
            &&& route matches SampleRoute::BeginEdit { tool, settings, temporary } ==> action == (
            DrainAction::<P, A>::BeginGesture { tool, settings, sample: admitted.sample })
            &&& route is ObserveTransform || route is BeginTransform ==> action
                == DrainAction::<P, A>::AskGeometry(admitted.sample)
            &&& route is Brush ==> (action matches DrainAction::Smooth(plan, sample) && sample
                == admitted.sample)
            &&& route is Consumed ==> action is TakeSample
            &&& !(route is Consumed) ==> (next.hand matches Some(hand) && hand.admitted == admitted
                && hand.corrected == admitted.sample)
            &&& reported == report
        }),
{
}

/// A finished gesture is kept as it is, unless another one still waits: then
/// neither is applied.
pub proof fn finished_gestures_are_kept<P, D, A>(
    state: PipelineState<P, D, A>,
    result: Result<EditCommand, GestureError>,
)
    ensures
        state.gesture.completed_edit is None ==> state.edit_finished(result).gesture.completed_edit
            == Some(result),
        state.gesture.completed_edit is Some ==> state.edit_finished(result).gesture.completed_edit
            == Some(Err::<EditCommand, _>(GestureError::Overlapping)),
        state.edit_finished(result).active == state.active,
        state.edit_finished(result).backlog == state.backlog,
        state.edit_finished(result).gesture.picker == state.gesture.picker,
        state.edit_finished(result).gesture.edit_gesture == state.gesture.edit_gesture,
{
}

/// A pick reads the pixel under the pen, on the active layer, for the contact
/// that opened it; a temporary one reads the display, another one the source
/// that the tool is set to.
pub proof fn picks_read_under_the_pen<P, D, A>(
    state: PipelineState<P, D, A>,
    sample: StylusSample<P>,
    point: PixelPoint,
    epoch: u64,
    settings: EditSettings,
    temporary: bool,
)
    ensures
        state.picking(sample, point, epoch, settings, temporary).gesture.picker matches Some(
            picker,
        ) && {
            &&& picker.latest.point == point
            &&& picker.latest.target == state.focus.layer
            &&& picker.latest.token == picker.token
            &&& picker.latest.source == picker.source
            &&& picker.token.device == sample.device_id
            &&& picker.token.begin == sample.sequence
            &&& picker.token.epoch == epoch
            &&& picker.viewport_revision == sample.viewport_revision
            &&& !picker.released
            &&& picker.sampled is None
            &&& temporary ==> picker.source == PickerSource::Display(state.picker_solo)
            &&& !temporary ==> picker.source == PickerSource::Artwork(settings.source)
        },
        state.picking(sample, point, epoch, settings, temporary).drawing == state.drawing,
        state.picking(sample, point, epoch, settings, temporary).active == state.active,
{
}

/// A pick follows the pen without changing whose it is; off the plane it is
/// given up.
pub proof fn picks_follow_the_pen<P, D, A>(state: PipelineState<P, D, A>, point: Option<PixelPoint>)
    requires
        state.gesture.picker is Some,
    ensures
        ({
            let picker = state.gesture.picker->0;
            match point {
                Some(point) => state.pick_moved(Some(point)).gesture.picker matches Some(moved) && {
                    &&& moved.latest.point == point
                    &&& moved.latest.target == picker.latest.target
                    &&& moved.latest.token == picker.latest.token
                    &&& moved.latest.source == picker.latest.source
                    &&& moved.token == picker.token
                    &&& moved.source == picker.source
                    &&& moved.released == picker.released
                    &&& moved.viewport_revision == picker.viewport_revision
                    &&& moved.sampled == picker.sampled
                },
                None => state.pick_moved(None::<PixelPoint>).gesture.picker is None
                    && !state.pick_moved(None::<PixelPoint>).gesture.edit_gesture,
            }
        }),
{
}

/// The pen going up releases its pick where it was, and names a temporary one
/// by its last sample.
pub proof fn picks_are_released_in_place<P, D, A>(
    state: PipelineState<P, D, A>,
    admitted: AdmittedSample<P>,
)
    requires
        state.gesture.edit_gesture,
        state.gesture.picker is Some,
        admitted.sample.phase is End,
        !state.recovery.awaiting_clean_begin,
        state.transform.projection is None,
        !state.transform.starting,
        state.drawing.tool is Eyedropper || state.gesture.temporary_picker_active,
    ensures
        ({
            let (after, route) = state.routed(admitted);
            let picker = state.gesture.picker->0;
            &&& route is FinishEdit
            &&& after.gesture.picker matches Some(released) && {
                &&& released.released
                &&& released.latest == picker.latest
                &&& released.token == picker.token
                &&& released.source == picker.source
            }
            &&& state.gesture.temporary_picker_active ==> (
            after.gesture.completed_temporary_picker matches Some(named) && named.device
                == admitted.sample.device_id && named.sequence == admitted.sample.sequence)
            &&& !state.gesture.temporary_picker_active
                ==> after.gesture.completed_temporary_picker is None
            &&& after.effects.len() > 0
            &&& after.effects.last() is ClearPickerSnapshot
        }),
{
}

/// Escape leaves nothing of a gesture, a pick or a stroke; with nothing in
/// progress it only clears the overlay.
pub proof fn escape_gives_everything_up<P, D, A>(state: PipelineState<P, D, A>)
    ensures
        ({
            let after = state.gesture_cancelled();
            &&& !after.gesture.edit_gesture
            &&& after.gesture.completed_edit is None
            &&& after.gesture.picker is None
            &&& state.gesture.edit_gesture || state.gesture.completed_edit is Some
                || state.gesture.picker is Some || state.active is Some ==> {
                &&& after.active is None
                &&& after.gesture.completed_temporary_picker is None
                &&& after.recovery.awaiting_clean_begin
                &&& state.gesture.completed_temporary_picker matches Some(sequence)
                    ==> after.effects.contains(InkEffect::CompleteTemporaryPick(sequence))
            }
            &&& !(state.gesture.edit_gesture || state.gesture.completed_edit is Some
                || state.gesture.picker is Some || state.active is Some) ==> after.recovery
                == state.recovery
            &&& after.backlog == state.backlog
            &&& after.drawing == state.drawing
            &&& after.transform == state.transform
        }),
{
    let after = state.gesture_cancelled();
    if let Some(sequence) = state.gesture.completed_temporary_picker {
        if state.has_native_gesture() {
            let quiet = state.with_gesture(
                crate::stroke_pipeline::GestureState {
                    edit_gesture: false,
                    completed_edit: None,
                    ..state.gesture
                },
            ).cancelling_picker();
            let named = InkEffect::CompleteTemporaryPick(sequence);
            assert(after.effects[quiet.effects.len() as int] == named);
        }
    }
}

/// A gap in the input gives an open edit gesture up with its reason, lets a
/// drag fall back to where it started, and counts the gap.
pub proof fn gaps_are_not_guessed<P, D, A>(state: PipelineState<P, D, A>)
    ensures
        ({
            let after = state.interrupted();
            &&& !after.gesture.edit_gesture
            &&& !after.gesture.temporary_picker_active
            &&& after.gesture.picker is None
            &&& state.gesture.edit_gesture && state.gesture.picker is None
                ==> after.gesture.completed_edit == Some(
                Err::<EditCommand, _>(GestureError::InputInterrupted),
            )
            &&& after.active is None
            &&& after.transform.drag is None
            &&& state.transform.drag matches Some(drag) ==> after.transform.pending == Some(
                drag.original,
            )
            &&& state.transform.drag is None ==> after.transform == state.transform
            &&& state.recovery.input_discontinuities < u64::MAX
                ==> after.recovery.input_discontinuities == state.recovery.input_discontinuities
                + 1
            &&& state.active matches Some(active) ==> after.recovery.last_discontinued_layer == Some(
                active.layer,
            )
            &&& after.drawing == state.drawing
            &&& after.backlog == state.backlog
        }),
{
}

/// Giving a pick up leaves no pick, finished or open, and answers a temporary
/// one that had ended.
pub proof fn cancelled_picks_are_gone<P, D, A>(state: PipelineState<P, D, A>)
    ensures
        ({
            let after = state.cancelling_picker();
            &&& after.gesture.picker is None
            &&& !(after.gesture.completed_edit matches Some(Ok(command)) && (command is PickColor
                || command is PickDisplayColor))
            &&& !(state.gesture.completed_edit matches Some(Ok(command)) && (command is PickColor
                || command is PickDisplayColor)) ==> after.gesture.completed_edit
                == state.gesture.completed_edit && after.gesture.completed_temporary_picker
                == state.gesture.completed_temporary_picker
            &&& state.gesture.picker is None ==> after.gesture.edit_gesture
                == state.gesture.edit_gesture
            &&& after.effects.len() > state.effects.len()
            &&& after.effects.last() is ClearPickerSnapshot
            &&& after.active == state.active
            &&& after.drawing == state.drawing
            &&& after.transform == state.transform
        }),
{
}

} // verus!
