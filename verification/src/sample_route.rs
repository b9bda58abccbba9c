//! Where each admitted sample goes, and how gestures are interrupted.
use vstd::prelude::*;

use crate::document::PixelPoint;
use crate::drawing::{DrawingTool, EditSettings, EditSource};
use crate::edit::{EditCommand, GestureError};
use crate::effect::InkEffect;
use crate::input::{AdmittedSample, PointerPhase, StylusSample};
use crate::picker::{PickerGesture, PickerRead, PickerSource, PickerToken};
use crate::stroke_pipeline::{
    GestureState, PipelineState, Recovery, SampleRoute, StrokePipeline, TransformState,
};

verus! {

impl GestureState {
    /// The gestures after the first half of an edit contact's end.
    pub open spec fn ended<P>(self, sample: StylusSample<P>, temporary: bool) -> GestureState {
        GestureState {
            edit_gesture: false,
            completed_temporary_picker: if temporary { Some(sample.pick()) } else { None },
            picker: match self.picker {
                Some(picker) => Some(PickerGesture { released: true, ..picker }),
                None => None,
            },
            ..self
        }
    }
}

impl Recovery {
    pub open spec fn quarantining(self) -> Recovery {
        Recovery { quarantined: crate::stroke_pipeline::saturating_next(self.quarantined), ..self }
    }
}

impl TransformState {
    /// A drag that is cut off falls back to the transform it started from.
    pub open spec fn drag_abandoned(self) -> TransformState {
        match self.drag {
            Some(drag) => TransformState { drag: None, pending: Some(drag.original), ..self },
            None => self,
        }
    }
}

impl<P, D, A> PipelineState<P, D, A> {
    /// A `Begin` gives up any older pick and decides whether this contact
    /// picks a colour.
    pub open spec fn latching(self, admitted: AdmittedSample<P>) -> Self {
        if admitted.sample.phase is Begin {
            self.cancelling_picker().with_gesture(
                GestureState {
                    temporary_picker_active: admitted.temporary_picker,
                    ..self.gesture.picker_cancelled()
                },
            )
        } else {
            self
        }
    }

    /// This contact picks a colour.
    pub open spec fn picks_temporarily(self, admitted: AdmittedSample<P>) -> bool {
        if admitted.sample.phase is Begin {
            admitted.temporary_picker
        } else {
            self.gesture.temporary_picker_active
        }
    }

    /// The contact's temporary pick ends with the contact.
    pub open spec fn releasing(self, admitted: AdmittedSample<P>) -> Self {
        if admitted.sample.phase is End || admitted.sample.phase is Cancel {
            self.with_gesture(GestureState { temporary_picker_active: false, ..self.gesture })
        } else {
            self
        }
    }

    /// The temporary pick of this contact is answered without a read.
    pub open spec fn answering_pick(self, sample: StylusSample<P>, temporary: bool) -> Self {
        if temporary && sample.phase is End {
            self.with_effect(InkEffect::CompleteTemporaryPick(sample.pick()))
        } else {
            self
        }
    }

    /// The settings of an edit gesture. A temporary pick reads what is visible.
    pub open spec fn gesture_settings(self, temporary: bool) -> EditSettings {
        if temporary {
            EditSettings { source: EditSource::AllVisible, ..self.drawing.edit_settings }
        } else {
            self.drawing.edit_settings
        }
    }

    /// Samples of an edit tool.
    pub open spec fn edit_routed(
        self,
        admitted: AdmittedSample<P>,
        tool: DrawingTool,
        temporary: bool,
    ) -> (Self, SampleRoute) {
        let sample = admitted.sample;
        match sample.phase {
            PointerPhase::Begin => if admitted.begin_layer != Some(self.focus.layer) {
                (
                    self.with_gesture(
                        GestureState {
                            edit_gesture: false,
                            completed_edit: Some(Err(GestureError::TargetLayerChanged)),
                            ..self.gesture
                        },
                    ),
                    SampleRoute::Consumed,
                )
            } else {
                (
                    self.dropping_active(false).with_gesture(
                        GestureState { edit_gesture: true, ..self.gesture },
                    ),
                    SampleRoute::BeginEdit {
                        tool,
                        settings: self.gesture_settings(temporary),
                        temporary,
                    },
                )
            },
            PointerPhase::Move => (self, SampleRoute::MoveEdit),
            PointerPhase::Cancel => (
                self.with_gesture(
                    GestureState { edit_gesture: false, ..self.gesture },
                ).cancelling_picker(),
                SampleRoute::Consumed,
            ),
            PointerPhase::End => if self.gesture.edit_gesture {
                (
                    if self.gesture.picker is Some {
                        self.with_gesture(self.gesture.ended(sample, temporary)).with_effect(
                            InkEffect::ClearPickerSnapshot,
                        )
                    } else {
                        self.with_gesture(self.gesture.ended(sample, temporary))
                    },
                    SampleRoute::FinishEdit,
                )
            } else {
                (self.answering_pick(sample, temporary), SampleRoute::Consumed)
            },
        }
    }

    /// The tool that handles this contact.
    pub open spec fn gesture_tool(self, temporary: bool) -> DrawingTool {
        if temporary { DrawingTool::Eyedropper } else { self.drawing.tool }
    }

    /// A locked layer admits only tools that read.
    pub open spec fn locked_out(self, temporary: bool) -> bool {
        self.focus.locked && !self.gesture_tool(temporary).reads_only()
    }

    /// A cut-off contact has not been followed by a `Begin` yet.
    pub open spec fn held_back(self, admitted: AdmittedSample<P>) -> bool {
        self.recovery.awaiting_clean_begin && !(admitted.sample.phase is Begin)
    }

    /// Samples that nothing holds back.
    pub open spec fn open_routed(self, admitted: AdmittedSample<P>, temporary: bool) -> (
        Self,
        SampleRoute,
    ) {
        let tool = self.gesture_tool(temporary);
        if self.transform.owns_input() {
            if temporary {
                (self.answering_pick(admitted.sample, temporary), SampleRoute::Consumed)
            } else {
                (self, SampleRoute::ObserveTransform)
            }
        } else if tool is MoveSelection {
            if admitted.sample.phase is Begin && admitted.begin_layer == Some(self.focus.layer) {
                (self, SampleRoute::BeginTransform)
            } else {
                (self, SampleRoute::Consumed)
            }
        } else if tool.edits() {
            self.edit_routed(admitted, tool, temporary)
        } else {
            (self, SampleRoute::Brush)
        }
    }

    /// Whole routing of one admitted sample.
    pub open spec fn routed(self, admitted: AdmittedSample<P>) -> (Self, SampleRoute) {
        let temporary = self.picks_temporarily(admitted);
        let state = self.latching(admitted).releasing(admitted);
        if self.locked_out(temporary) {
            (state, SampleRoute::Consumed)
        } else if self.held_back(admitted) {
            (
                PipelineState {
                    recovery: self.recovery.quarantining(),
                    ..state
                }.answering_pick(admitted.sample, temporary),
                SampleRoute::Consumed,
            )
        } else {
            state.awaiting(false).open_routed(admitted, temporary)
        }
    }

    /// A gap in the input: what was in progress is cancelled, not guessed.
    pub open spec fn interrupted(self) -> Self {
        let quiet = self.gesture.picker_cancelled();
        PipelineState {
            gesture: GestureState {
                temporary_picker_active: false,
                edit_gesture: false,
                completed_edit: if quiet.edit_gesture {
                    Some(Err(GestureError::InputInterrupted))
                } else {
                    quiet.completed_edit
                },
                ..quiet
            },
            transform: self.transform.drag_abandoned(),
            recovery: Recovery {
                awaiting_clean_begin: true,
                input_discontinuities: crate::stroke_pipeline::saturating_next(
                    self.recovery.input_discontinuities,
                ),
                last_discontinued_layer: match self.active {
                    Some(active) => Some(active.layer),
                    None => self.recovery.last_discontinued_layer,
                },
                ..self.recovery
            },
            ..self.cancelling_picker().dropping_active(true)
        }
    }

    /// A finished gesture amounts to a command. Of two gestures that finished
    /// before one was adopted, neither is applied.
    pub open spec fn edit_finished(self, result: Result<EditCommand, GestureError>) -> Self {
        self.with_gesture(
            GestureState {
                completed_edit: Some(
                    if self.gesture.completed_edit is None {
                        result
                    } else {
                        Err(GestureError::Overlapping)
                    },
                ),
                ..self.gesture
            },
        )
    }

    /// A pick starts at a point. A temporary one reads what is displayed.
    pub open spec fn picking(
        self,
        sample: StylusSample<P>,
        point: PixelPoint,
        epoch: u64,
        settings: EditSettings,
        temporary: bool,
    ) -> Self {
        let token = PickerToken { device: sample.device_id, begin: sample.sequence, epoch };
        let source = if temporary {
            PickerSource::Display(self.picker_solo)
        } else {
            PickerSource::Artwork(settings.source)
        };
        self.with_gesture(
            GestureState {
                picker: Some(
                    PickerGesture {
                        token,
                        source,
                        released: false,
                        viewport_revision: sample.viewport_revision,
                        latest: PickerRead { token, point, target: self.focus.layer, source },
                        sampled: None,
                    },
                ),
                ..self.gesture
            },
        )
    }

    /// A pick follows its gesture, and is given up where that leaves the plane.
    pub open spec fn pick_moved(self, point: Option<PixelPoint>) -> Self {
        match self.gesture.picker {
            None => self,
            Some(picker) => match point {
                Some(point) => self.with_gesture(
                    GestureState {
                        picker: Some(
                            PickerGesture {
                                latest: PickerRead { point, ..picker.latest },
                                ..picker
                            },
                        ),
                        ..self.gesture
                    },
                ),
                None => self.cancelling_picker(),
            },
        }
    }

    /// Something that Escape can cancel is in progress.
    pub open spec fn has_native_gesture(self) -> bool {
        self.gesture.edit_gesture || self.gesture.completed_edit is Some
            || self.gesture.picker is Some || self.active is Some
    }

    /// Escape: gesture, finished edit, pick and stroke are all given up.
    pub open spec fn gesture_cancelled(self) -> Self {
        let quiet = self.with_gesture(
            GestureState { edit_gesture: false, completed_edit: None, ..self.gesture },
        ).cancelling_picker();
        if self.has_native_gesture() {
            let answered = match self.gesture.completed_temporary_picker {
                Some(sequence) => quiet.with_gesture(
                    GestureState { completed_temporary_picker: None, ..quiet.gesture },
                ).with_effect(InkEffect::CompleteTemporaryPick(sequence)),
                None => quiet,
            };
            answered.dropping_active(false).awaiting(true)
        } else {
            quiet
        }
    }
}

impl<P: Copy, D, A> StrokePipeline<P, D, A> {
    /// Routes one admitted sample. Everything that needs no outside help has
    /// happened when this returns.
    pub fn route(&mut self, admitted: &AdmittedSample<P>) -> (r: SampleRoute)
        ensures
            (final(self)@, r) == old(self)@.routed(*admitted),
    {
        let temporary = self.latch(admitted);
        let ghost latched = self@;
        let tool = if temporary {
            DrawingTool::Eyedropper
        } else {
            self.drawing.tool
        };
        if self.focus.locked && !tool.is_read_only() {
            return SampleRoute::Consumed;
        }
        if self.recovery.awaiting_clean_begin && admitted.sample.phase != PointerPhase::Begin {
            self.recovery.quarantined = self.recovery.quarantined.saturating_add(1);
            self.answer_pick(&admitted.sample, temporary);
            return SampleRoute::Consumed;
        }
        self.recovery.awaiting_clean_begin = false;
        assert(self@ == latched.awaiting(false));
        self.route_open(admitted, tool, temporary)
    }

    /// Opens and closes the temporary pick of a contact.
    fn latch(&mut self, admitted: &AdmittedSample<P>) -> (temporary: bool)
        ensures
            final(self)@ == old(self)@.latching(*admitted).releasing(*admitted),
            temporary == old(self)@.picks_temporarily(*admitted),
    {
        if admitted.sample.phase == PointerPhase::Begin {
            self.cancel_picker();
            self.gesture.temporary_picker_active = admitted.temporary_picker;
        }
        let temporary = self.gesture.temporary_picker_active;
        if admitted.sample.phase == PointerPhase::End || admitted.sample.phase
            == PointerPhase::Cancel {
            self.gesture.temporary_picker_active = false;
        }
        temporary
    }

    fn answer_pick(&mut self, sample: &StylusSample<P>, temporary: bool)
        ensures
            final(self)@ == old(self)@.answering_pick(*sample, temporary),
    {
        if temporary && sample.phase == PointerPhase::End {
            self.effects.push(InkEffect::CompleteTemporaryPick(sample.pick_sequence()));
        }
    }

    fn route_open(&mut self, admitted: &AdmittedSample<P>, tool: DrawingTool, temporary: bool) -> (r:
        SampleRoute)
        requires
            tool == old(self)@.gesture_tool(temporary),
        ensures
            (final(self)@, r) == old(self)@.open_routed(*admitted, temporary),
    {
        if self.transform.projection.is_some() || self.transform.starting {
            if temporary {
                self.answer_pick(&admitted.sample, temporary);
                return SampleRoute::Consumed;
            }
            return SampleRoute::ObserveTransform;
        }
        if tool == DrawingTool::MoveSelection {
            return if admitted.sample.phase == PointerPhase::Begin && admitted.begin_layer == Some(
                self.focus.layer,
            ) {
                SampleRoute::BeginTransform
            } else {
                SampleRoute::Consumed
            };
        }
        if tool.is_edit() {
            return self.route_edit(admitted, tool, temporary);
        }
        SampleRoute::Brush
    }

    fn route_edit(&mut self, admitted: &AdmittedSample<P>, tool: DrawingTool, temporary: bool) -> (r:
        SampleRoute)
        ensures
            (final(self)@, r) == old(self)@.edit_routed(*admitted, tool, temporary),
    {
        let sample = &admitted.sample;
        match sample.phase {
            PointerPhase::Begin => {
                if admitted.begin_layer != Some(self.focus.layer) {
                    self.gesture.edit_gesture = false;
                    self.gesture.completed_edit = Some(Err(GestureError::TargetLayerChanged));
                    return SampleRoute::Consumed;
                }
                // A clean new Begin also cancels any incomplete paint preview;
                // switching to a read must never close it.
                self.drop_active(false);
                self.gesture.edit_gesture = true;
                let settings = if temporary {
                    EditSettings { source: EditSource::AllVisible, ..self.drawing.edit_settings }
                } else {
                    self.drawing.edit_settings
                };
                SampleRoute::BeginEdit { tool, settings, temporary }
            },
            PointerPhase::Move => SampleRoute::MoveEdit,
            PointerPhase::Cancel => {
                self.gesture.edit_gesture = false;
                self.cancel_picker();
                SampleRoute::Consumed
            },
            PointerPhase::End => {
                if !self.gesture.edit_gesture {
                    self.answer_pick(sample, temporary);
                    return SampleRoute::Consumed;
                }
                self.gesture.edit_gesture = false;
                self.gesture.completed_temporary_picker = if temporary {
                    Some(sample.pick_sequence())
                } else {
                    None
                };
                if let Some(picker) = self.gesture.picker {
                    self.gesture.picker = Some(PickerGesture { released: true, ..picker });
                    self.effects.push(InkEffect::ClearPickerSnapshot);
                }
                SampleRoute::FinishEdit
            },
        }
    }

    pub fn finish_edit(&mut self, result: Result<EditCommand, GestureError>)
        ensures
            final(self)@ == old(self)@.edit_finished(result),
    {
        self.gesture.completed_edit = Some(
            if self.gesture.completed_edit.is_none() {
                result
            } else {
                Err(GestureError::Overlapping)
            },
        );
    }

    pub fn begin_picker(
        &mut self,
        sample: &StylusSample<P>,
        point: PixelPoint,
        epoch: u64,
        settings: EditSettings,
        temporary: bool,
    )
        ensures
            final(self)@ == old(self)@.picking(*sample, point, epoch, settings, temporary),
    {
        let token = PickerToken { device: sample.device_id, begin: sample.sequence, epoch };
        let source = if temporary {
            PickerSource::Display(self.picker_solo)
        } else {
            PickerSource::Artwork(settings.source)
        };
        self.gesture.picker = Some(
            PickerGesture {
                token,
                source,
                released: false,
                viewport_revision: sample.viewport_revision,
                latest: PickerRead { token, point, target: self.focus.layer, source },
                sampled: None,
            },
        );
    }

    pub fn move_picker(&mut self, point: Option<PixelPoint>)
        ensures
            final(self)@ == old(self)@.pick_moved(point),
    {
        if let Some(picker) = self.gesture.picker {
            match point {
                Some(point) => {
                    self.gesture.picker = Some(
                        PickerGesture { latest: PickerRead { point, ..picker.latest }, ..picker },
                    );
                },
                None => {
                    self.cancel_picker();
                },
            }
        }
    }

    /// A pick still belongs to its contact, in a workspace that still works.
    pub fn picker_token_valid(
        &self,
        token: PickerToken,
        epoch: u64,
        closing: bool,
        workspace_failed: bool,
    ) -> (r: bool)
        ensures
            r == (epoch == token.epoch && !closing && !workspace_failed && (
            self.gesture.picker matches Some(picker) && picker.token == token)),
    {
        epoch == token.epoch && !closing && !workspace_failed && match self.gesture.picker {
            Some(picker) => picker.token == token,
            None => false,
        }
    }

    pub fn consume_discontinuity(&mut self)
        ensures
            final(self)@ == old(self)@.interrupted(),
    {
        self.cancel_picker();
        if let Some(drag) = self.transform.drag {
            self.transform.drag = None;
            self.transform.pending = Some(drag.original);
        }
        self.gesture.temporary_picker_active = false;
        if self.gesture.edit_gesture {
            self.gesture.edit_gesture = false;
            self.gesture.completed_edit = Some(Err(GestureError::InputInterrupted));
        }
        self.recovery.input_discontinuities = self.recovery.input_discontinuities.saturating_add(1);
        if let Some(active) = &self.active {
            self.recovery.last_discontinued_layer = Some(active.layer);
        }
        self.drop_active(true);
        self.recovery.awaiting_clean_begin = true;
    }

    /// Escape. Returns whether anything was cancelled.
    pub fn cancel_native_gesture(&mut self) -> (r: bool)
        ensures
            r == old(self)@.has_native_gesture(),
            final(self)@ == old(self)@.gesture_cancelled(),
    {
        let gesture = self.gesture.edit_gesture || self.gesture.completed_edit.is_some();
        self.gesture.edit_gesture = false;
        self.gesture.completed_edit = None;
        let picking = self.cancel_picker();
        if !(gesture || picking || self.active.is_some()) {
            return false;
        }
        if let Some(sequence) = self.gesture.completed_temporary_picker {
            self.gesture.completed_temporary_picker = None;
            self.effects.push(InkEffect::CompleteTemporaryPick(sequence));
        }
        self.drop_active(false);
        // A late Move or End of the cancelled contact can neither complete an
        // edit nor start paint after the next tool command.
        self.recovery.awaiting_clean_begin = true;
        true
    }
}

} // verus!
