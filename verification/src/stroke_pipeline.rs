//! The stroke pipeline: how admitted pen samples become previews, edits and
//! closed strokes.
//!
//! The host runs the loop. It routes each sample, asks the brush engine or the
//! gesture recogniser for what only they can compute, and hands the answer
//! back. Every step states the whole next state.
use std::collections::VecDeque;

use vstd::prelude::*;

use crate::document::{LayerId, LayerTreeNodeId};
use crate::drawing::{DrawingConfig, DrawingState, DrawingTool, EditSettings, PencilTemplate};
use crate::edit::{EditCommand, GestureError};
use crate::effect::{InkEffect, Notice};
use crate::input::PickSequence;
use crate::picker::PickerGesture;
use crate::stroke::{
    ClosedStroke, ClosedStrokeRequest, GpuOp, GpuStrokeOp, LiveStroke, LiveStrokeDisposition,
    OpenStroke,
};
use crate::transform::{AffineTransform, SelectionBounds, TransformProjection};

verus! {

/// A transform drag: the view it started in and the transform it started from.
#[derive(Clone, Copy, Debug, PartialEq, Eq, Structural)]
pub struct TransformDrag {
    pub viewport_revision: u64,
    pub original: AffineTransform,
}

/// A free transform in progress.
#[derive(Clone, Copy, Debug, PartialEq, Eq, Structural)]
pub struct TransformState {
    pub starting: bool,
    pub paste: bool,
    pub pending_tool: Option<DrawingTool>,
    pub pending_pencil_template: Option<PencilTemplate>,
    pub revalidating: bool,
    pub projection: Option<TransformProjection>,
    pub drag: Option<TransformDrag>,
    pub pending: Option<AffineTransform>,
    pub pending_cancel: bool,
}

impl TransformState {
    pub open spec fn owns_input(self) -> bool {
        self.projection is Some || self.starting
    }

    pub open spec fn idle() -> TransformState {
        TransformState {
            starting: false,
            paste: false,
            pending_tool: None,
            pending_pencil_template: None,
            revalidating: false,
            projection: None,
            drag: None,
            pending: None,
            pending_cancel: false,
        }
    }

    pub fn new() -> (r: Self)
        ensures
            r == TransformState::idle(),
    {
        TransformState {
            starting: false,
            paste: false,
            pending_tool: None,
            pending_pencil_template: None,
            revalidating: false,
            projection: None,
            drag: None,
            pending: None,
            pending_cancel: false,
        }
    }
}

/// The selection as far as the pipeline looks at it. `mask` is the identity of
/// the selected pixels: two selections with one mask select the same.
#[derive(Clone, Copy, Debug, PartialEq, Eq, Structural)]
pub struct Selection {
    pub mask: u64,
    pub bounds: Option<SelectionBounds>,
    pub selected_pixels: u64,
}

/// The bounds within which the pipeline works.
#[derive(Clone, Copy, Debug, PartialEq, Eq, Structural)]
pub struct PipelineLimits {
    /// Closed strokes that may wait for the writer.
    pub backlog: usize,
    /// Samples of one recorded stroke.
    pub samples_per_stroke: usize,
}

/// Edit gestures and colour picks of the current contact, and the last one
/// that ended but was not adopted yet.
#[derive(Clone, Copy, Debug, PartialEq, Eq)]
pub struct GestureState {
    pub edit_gesture: bool,
    pub temporary_picker_active: bool,
    pub completed_temporary_picker: Option<PickSequence>,
    pub picker: Option<PickerGesture>,
    pub completed_edit: Option<Result<EditCommand, GestureError>>,
}

/// The layer that receives ink.
#[derive(Clone, Copy, Debug, PartialEq, Eq, Structural)]
pub struct LayerFocus {
    pub layer: LayerId,
    pub locked: bool,
    pub alpha_locked: bool,
}

/// What remains of interrupted input.
#[derive(Clone, Copy, Debug, PartialEq, Eq, Structural)]
pub struct Recovery {
    /// Everything but a `Begin` is ignored.
    pub awaiting_clean_begin: bool,
    pub input_discontinuities: u64,
    pub quarantined: u64,
    pub last_discontinued_layer: Option<LayerId>,
    /// The workspace has failed; no more ink is taken.
    pub fatal: bool,
}

/// Strokes numbered so far.
#[derive(Clone, Copy, Debug, PartialEq, Eq, Structural)]
pub struct StrokeCount {
    pub next_generation: u64,
    pub closed: u64,
    pub last_closed_layer: Option<LayerId>,
}

pub struct StrokePipeline<P, D, A> {
    pub gesture: GestureState,
    pub transform: TransformState,
    pub focus: LayerFocus,
    pub recovery: Recovery,
    pub count: StrokeCount,
    pub picker_solo: Option<LayerTreeNodeId>,
    pub selection: Option<Selection>,
    pub limits: PipelineLimits,
    pub shutdown_prepared: bool,
    pub drawing: DrawingConfig,
    pub active: Option<LiveStroke<P>>,
    pub pending_materializations: VecDeque<ClosedStrokeRequest<P, A>>,
    pub gpu_ops: Vec<GpuStrokeOp<D>>,
    pub effects: Vec<InkEffect>,
}

/// The mathematical content of a [`StrokePipeline`].
pub struct PipelineState<P, D, A> {
    pub gesture: GestureState,
    pub transform: TransformState,
    pub focus: LayerFocus,
    pub recovery: Recovery,
    pub count: StrokeCount,
    pub picker_solo: Option<LayerTreeNodeId>,
    pub selection: Option<Selection>,
    pub limits: PipelineLimits,
    pub shutdown_prepared: bool,
    pub drawing: DrawingState,
    pub active: Option<OpenStroke<P>>,
    pub backlog: Seq<ClosedStroke<P, A>>,
    pub gpu_ops: Seq<GpuOp<D>>,
    pub effects: Seq<InkEffect>,
}

/// The requests of a backlog, oldest first.
pub open spec fn backlog_view<P, A>(requests: Seq<ClosedStrokeRequest<P, A>>) -> Seq<
    ClosedStroke<P, A>,
> {
    requests.map_values(|request: ClosedStrokeRequest<P, A>| request@)
}

pub open spec fn active_view<P>(active: Option<LiveStroke<P>>) -> Option<OpenStroke<P>> {
    match active {
        Some(active) => Some(active@),
        None => None,
    }
}

impl<P, D, A> View for StrokePipeline<P, D, A> {
    type V = PipelineState<P, D, A>;

    open spec fn view(&self) -> PipelineState<P, D, A> {
        PipelineState {
            gesture: self.gesture,
            transform: self.transform,
            focus: self.focus,
            recovery: self.recovery,
            count: self.count,
            picker_solo: self.picker_solo,
            selection: self.selection,
            limits: self.limits,
            shutdown_prepared: self.shutdown_prepared,
            drawing: self.drawing@,
            active: active_view(self.active),
            backlog: backlog_view(self.pending_materializations@),
            gpu_ops: crate::stroke::gpu_view(self.gpu_ops@),
            effects: self.effects@,
        }
    }
}

/// What the host has to do with a routed sample.
#[derive(Clone, Copy, Debug, PartialEq, Eq, Structural)]
pub enum SampleRoute {
    /// Nothing is left to do.
    Consumed,
    /// The sample moves a transform draft.
    ObserveTransform,
    /// The sample may start a transform of the selection.
    BeginTransform,
    /// An edit gesture of this tool starts here.
    BeginEdit { tool: DrawingTool, settings: EditSettings, temporary: bool },
    MoveEdit,
    /// The gesture ends here and has to be turned into a command.
    FinishEdit,
    /// The sample belongs to the brush.
    Brush,
}

pub open spec fn saturating_next(value: u64) -> u64 {
    if value < u64::MAX { (value + 1) as u64 } else { u64::MAX }
}

impl GestureState {
    pub open spec fn idle() -> GestureState {
        GestureState {
            edit_gesture: false,
            temporary_picker_active: false,
            completed_temporary_picker: None,
            picker: None,
            completed_edit: None,
        }
    }

    /// A finished pick still waits to be queued.
    pub open spec fn pick_completed(self) -> bool {
        self.completed_edit matches Some(Ok(command)) && command.picks()
    }

    /// The gestures after the pick in progress, and one that has ended but was
    /// not queued, are given up. An ended pick must lose its ownership along
    /// with the gesture, never return later as an ordinary edit.
    pub open spec fn picker_cancelled(self) -> GestureState {
        GestureState {
            edit_gesture: self.edit_gesture && self.picker is None,
            picker: None,
            completed_edit: if self.pick_completed() { None } else { self.completed_edit },
            completed_temporary_picker: if self.pick_completed() {
                None
            } else {
                self.completed_temporary_picker
            },
            ..self
        }
    }

    /// What giving up the pick asks of the host.
    pub open spec fn picker_cancel_effects(self, before: Seq<InkEffect>) -> Seq<InkEffect> {
        match self.completed_temporary_picker {
            Some(sequence) => if self.pick_completed() {
                before.push(InkEffect::CompleteTemporaryPick(sequence)).push(
                    InkEffect::ClearPickerSnapshot,
                )
            } else {
                before.push(InkEffect::ClearPickerSnapshot)
            },
            None => before.push(InkEffect::ClearPickerSnapshot),
        }
    }

    pub fn cancel_picker(&mut self, effects: &mut Vec<InkEffect>) -> (r: bool)
        ensures
            *final(self) == old(self).picker_cancelled(),
            final(effects)@ == old(self).picker_cancel_effects(old(effects)@),
            r == (old(self).pick_completed() || old(self).picker is Some),
    {
        let pending = match self.completed_edit {
            Some(Ok(command)) => command.is_pick(),
            _ => false,
        };
        if pending {
            self.completed_edit = None;
            if let Some(sequence) = self.completed_temporary_picker {
                self.completed_temporary_picker = None;
                effects.push(InkEffect::CompleteTemporaryPick(sequence));
            }
        }
        let gesture_cancelled = self.picker.is_some();
        self.picker = None;
        if gesture_cancelled {
            self.edit_gesture = false;
        }
        effects.push(InkEffect::ClearPickerSnapshot);
        gesture_cancelled || pending
    }
}

/// The pending operations after a stroke is dropped. What the stroke added is
/// taken back where `withdraw` says so.
pub open spec fn ops_after_drop<P, D>(
    ops: Seq<GpuOp<D>>,
    active: Option<OpenStroke<P>>,
    withdraw: bool,
) -> Seq<GpuOp<D>> {
    match active {
        None => ops,
        Some(active) => {
            let kept = if withdraw && active.gpu_op_start <= ops.len() {
                ops.take(active.gpu_op_start)
            } else {
                ops
            };
            kept.push(
                GpuOp::Finish {
                    generation: active.generation,
                    disposition: LiveStrokeDisposition::Cancel,
                },
            )
        },
    }
}

/// What dropping a stroke asks of the host.
pub open spec fn effects_after_drop<P>(
    effects: Seq<InkEffect>,
    active: Option<OpenStroke<P>>,
) -> Seq<InkEffect> {
    match active {
        None => effects,
        Some(active) => effects.push(InkEffect::DiscardStroke(active.generation)),
    }
}

impl<P, D, A> PipelineState<P, D, A> {
    pub open spec fn wf(self) -> bool {
        &&& self.drawing.wf()
        &&& self.limits.samples_per_stroke > 0
        &&& self.backlog.len() <= self.limits.backlog
        &&& match self.active {
            Some(active) => active.wf() && self.backlog.len() < self.limits.backlog,
            None => true,
        }
    }

    pub open spec fn with_gesture(self, gesture: GestureState) -> Self {
        PipelineState { gesture, ..self }
    }

    pub open spec fn with_effect(self, effect: InkEffect) -> Self {
        PipelineState { effects: self.effects.push(effect), ..self }
    }

    /// Gives up a pick in progress and one that has ended but was not queued.
    pub open spec fn cancelling_picker(self) -> Self {
        PipelineState {
            gesture: self.gesture.picker_cancelled(),
            effects: self.gesture.picker_cancel_effects(self.effects),
            ..self
        }
    }

    /// Ends the stroke in progress without committing it.
    pub open spec fn dropping_active(self, withdraw: bool) -> Self {
        PipelineState {
            active: None,
            gpu_ops: ops_after_drop(self.gpu_ops, self.active, withdraw),
            effects: effects_after_drop(self.effects, self.active),
            ..self
        }
    }

    pub open spec fn awaiting(self, clean_begin: bool) -> Self {
        PipelineState {
            recovery: Recovery { awaiting_clean_begin: clean_begin, ..self.recovery },
            ..self
        }
    }

    /// Cancels the stroke in progress and ignores its tail.
    pub open spec fn discontinued(self, notice: Notice) -> Self {
        self.dropping_active(true).awaiting(true).with_effect(InkEffect::PublishNotice(notice))
    }

    /// Latches the failure; nothing in progress survives it.
    pub open spec fn failed_closed(self) -> Self {
        let quiet = self.cancelling_picker().with_gesture(
            GestureState {
                temporary_picker_active: false,
                edit_gesture: false,
                completed_edit: None,
                ..self.gesture.picker_cancelled()
            },
        );
        if self.recovery.fatal {
            quiet
        } else {
            PipelineState {
                recovery: Recovery { fatal: true, awaiting_clean_begin: true, ..self.recovery },
                ..quiet.dropping_active(true)
            }
        }
    }
}

impl<P: Copy, D, A> StrokePipeline<P, D, A> {
    pub fn new(drawing: DrawingConfig, selected_layer: LayerId, limits: PipelineLimits) -> (r: Self)
        requires
            drawing@.wf(),
            limits.samples_per_stroke > 0,
        ensures
            r@.wf(),
            r@ == (PipelineState::<P, D, A> {
                gesture: GestureState::idle(),
                transform: TransformState::idle(),
                focus: LayerFocus { layer: selected_layer, locked: false, alpha_locked: false },
                recovery: Recovery {
                    awaiting_clean_begin: false,
                    input_discontinuities: 0,
                    quarantined: 0,
                    last_discontinued_layer: None,
                    fatal: false,
                },
                count: StrokeCount { next_generation: 1, closed: 0, last_closed_layer: None },
                picker_solo: None,
                selection: None,
                limits,
                shutdown_prepared: false,
                drawing: drawing@,
                active: None,
                backlog: Seq::empty(),
                gpu_ops: Seq::empty(),
                effects: Seq::empty(),
            }),
    {
        let r = StrokePipeline {
            gesture: GestureState {
                edit_gesture: false,
                temporary_picker_active: false,
                completed_temporary_picker: None,
                picker: None,
                completed_edit: None,
            },
            transform: TransformState::new(),
            focus: LayerFocus { layer: selected_layer, locked: false, alpha_locked: false },
            recovery: Recovery {
                awaiting_clean_begin: false,
                input_discontinuities: 0,
                quarantined: 0,
                last_discontinued_layer: None,
                fatal: false,
            },
            count: StrokeCount { next_generation: 1, closed: 0, last_closed_layer: None },
            picker_solo: None,
            selection: None,
            limits,
            shutdown_prepared: false,
            drawing,
            active: None,
            pending_materializations: VecDeque::new(),
            gpu_ops: Vec::new(),
            effects: Vec::new(),
        };
        assert(r@.backlog =~= Seq::empty());
        assert(r@.gpu_ops =~= Seq::empty());
        r
    }

    pub fn cancel_picker(&mut self) -> (r: bool)
        ensures
            final(self)@ == old(self)@.cancelling_picker(),
            r == (old(self).gesture.pick_completed() || old(self).gesture.picker is Some),
    {
        self.gesture.cancel_picker(&mut self.effects)
    }

    pub(crate) fn drop_active(&mut self, withdraw: bool)
        ensures
            final(self)@ == old(self)@.dropping_active(withdraw),
    {
        if let Some(active) = self.active.take() {
            if withdraw {
                self.gpu_ops.truncate(active.gpu_op_start);
            }
            self.gpu_ops.push(
                GpuStrokeOp::Finish {
                    generation: active.generation,
                    disposition: LiveStrokeDisposition::Cancel,
                },
            );
            self.effects.push(InkEffect::DiscardStroke(active.generation));
            assert(self@.gpu_ops =~= old(self)@.dropping_active(withdraw).gpu_ops);
        }
    }

    pub fn cancel_invalid_smoothed_stroke(&mut self)
        ensures
            final(self)@ == old(self)@.discontinued(Notice::InvalidPosition),
    {
        self.cancel_native_brush_discontinuity(Notice::InvalidPosition);
    }

    pub fn cancel_native_brush_discontinuity(&mut self, notice: Notice)
        ensures
            final(self)@ == old(self)@.discontinued(notice),
    {
        self.drop_active(true);
        self.recovery.awaiting_clean_begin = true;
        self.effects.push(InkEffect::PublishNotice(notice));
    }

    pub fn fail_closed(&mut self)
        ensures
            final(self)@ == old(self)@.failed_closed(),
    {
        self.cancel_picker();
        self.gesture.temporary_picker_active = false;
        self.gesture.edit_gesture = false;
        self.gesture.completed_edit = None;
        if self.recovery.fatal {
            return ;
        }
        self.recovery.fatal = true;
        self.drop_active(true);
        self.recovery.awaiting_clean_begin = true;
    }
}

} // verus!
