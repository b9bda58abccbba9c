//! The canvas around the stroke pipeline: artwork jobs, staged edit state and
//! the rules that keep commands from racing ink.
use vstd::prelude::*;

use crate::command::CommandRejectReason;
use crate::document::LayerId;
use crate::drawing::{DrawingConfig, DrawingState};
use crate::edit::GestureError;
use crate::effect::InkEffect;
use crate::input::PickSequence;
use crate::picker::PickerToken;
use crate::stroke_pipeline::{PipelineState, StrokePipeline};
use crate::transform::{TransformCommand, TransformProjection};

verus! {

/// The artwork request that the worker is carrying out.
#[derive(Clone, Copy, Debug, PartialEq, Eq, Structural)]
pub struct ArtworkJob {
    pub transform: Option<TransformCommand>,
    pub temporary_picker: Option<PickSequence>,
    pub picker_token: Option<PickerToken>,
    /// The layer to activate when the job is adopted.
    pub active_layer: Option<LayerId>,
}

/// Why the last edit came to nothing. `Worker` carries the host's number for
/// the worker's own message.
#[derive(Clone, Copy, Debug, PartialEq, Eq, Structural)]
pub enum EditError {
    Worker(u64),
    Gesture(GestureError),
    TransformNotStarted(CommandRejectReason),
    NotApplied(CommandRejectReason),
}

impl EditError {
    /// What precedes the refusal in the shown message.
    pub fn lead(self) -> (r: Option<&'static str>)
        ensures
            self is Worker || self is Gesture ==> r is None,
            self is TransformNotStarted ==> (r matches Some(text) && text@
                == "변형을 시작하지 못했습니다: "@),
            self is NotApplied ==> (r matches Some(text) && text@
                == "편집을 적용하지 못했습니다. 다시 시도하세요: "@),
    {
        match self {
            EditError::Worker(_) | EditError::Gesture(_) => None,
            EditError::TransformNotStarted(_) => Some("변형을 시작하지 못했습니다: "),
            EditError::NotApplied(_) => Some(
                "편집을 적용하지 못했습니다. 다시 시도하세요: ",
            ),
        }
    }
}

/// The edit state that the interface shows.
#[derive(Clone, Copy, Debug, PartialEq, Eq, Structural)]
pub struct EditProjection {
    pub busy: bool,
    pub can_cancel: bool,
    pub has_selection: bool,
    pub selected_pixels: u64,
    pub error: Option<EditError>,
    pub transform: Option<TransformProjection>,
}

#[derive(Clone, Copy, Debug, PartialEq, Eq, Structural)]
pub enum ExportStatus {
    Idle,
    Waiting { generation: u64 },
    Queued { generation: u64 },
    Running { generation: u64 },
    Current { generation: u64 },
    Failed { generation: u64 },
}

impl ExportStatus {
    pub open spec fn in_flight(self) -> bool {
        self is Queued || self is Running
    }

    pub fn is_in_flight(self) -> (r: bool)
        ensures
            r == self.in_flight(),
    {
        matches!(self, ExportStatus::Queued { .. } | ExportStatus::Running { .. })
    }
}

/// What the canvas reads of the live-ink bridge at the moment of a decision.
#[derive(Clone, Copy, Debug, PartialEq, Eq, Structural)]
pub struct BridgeFacts {
    pub picker_epoch: u64,
    pub closing: bool,
    pub workspace_failed: bool,
    pub temporary_pick_pending: bool,
}

/// What the canvas reads of the scene and the writer.
#[derive(Clone, Copy, Debug, PartialEq, Eq, Structural)]
pub struct WorkFacts {
    pub scene_live_stroke: bool,
    pub writer_pending: usize,
    pub export: ExportStatus,
}

pub struct ActiveCanvas<P, D, A> {
    pub stroke: StrokePipeline<P, D, A>,
    pub drawing: DrawingConfig,
    pub active_layer: LayerId,
    pub artwork_job: Option<ArtworkJob>,
    pub edit: EditProjection,
    pub pending_save: Option<u64>,
    pub has_export_path: bool,
    /// The revision before the first publication that no command caused.
    pub publication_base: Option<u64>,
}

/// The mathematical content of an [`ActiveCanvas`].
pub struct CanvasState<P, D, A> {
    pub stroke: PipelineState<P, D, A>,
    pub drawing: DrawingState,
    pub active_layer: LayerId,
    pub artwork_job: Option<ArtworkJob>,
    pub edit: EditProjection,
    pub pending_save: Option<u64>,
    pub has_export_path: bool,
    pub publication_base: Option<u64>,
}

impl<P, D, A> View for ActiveCanvas<P, D, A> {
    type V = CanvasState<P, D, A>;

    open spec fn view(&self) -> CanvasState<P, D, A> {
        CanvasState {
            stroke: self.stroke@,
            drawing: self.drawing@,
            active_layer: self.active_layer,
            artwork_job: self.artwork_job,
            edit: self.edit,
            pending_save: self.pending_save,
            has_export_path: self.has_export_path,
            publication_base: self.publication_base,
        }
    }
}

/// Transform jobs that Escape can still stop.
pub open spec fn cancellable_transform(transform: Option<TransformCommand>) -> bool {
    transform matches Some(command) && (command is Begin || command is Paste || command is Preview)
}

pub fn is_cancellable_transform(transform: Option<TransformCommand>) -> (r: bool)
    ensures
        r == cancellable_transform(transform),
{
    matches!(
        transform,
        Some(TransformCommand::Begin | TransformCommand::Paste | TransformCommand::Preview(_))
    )
}

impl<P, D, A> CanvasState<P, D, A> {
    pub open spec fn wf(self) -> bool {
        self.stroke.wf() && self.drawing.wf()
    }

    pub open spec fn with_effect(self, effect: InkEffect) -> Self {
        CanvasState { stroke: self.stroke.with_effect(effect), ..self }
    }

    pub open spec fn transform_is_active(self) -> bool {
        ||| self.stroke.transform.starting
        ||| self.stroke.transform.projection is Some
        ||| self.artwork_job matches Some(job) && job.transform is Some
    }

    /// A pick still belongs to its contact.
    pub open spec fn owns_pick(self, token: PickerToken, bridge: BridgeFacts) -> bool {
        &&& bridge.picker_epoch == token.epoch
        &&& !bridge.closing
        &&& !bridge.workspace_failed
        &&& self.stroke.gesture.picker matches Some(picker) && picker.token == token
    }

    /// Escape would stop something.
    pub open spec fn can_cancel(self, bridge: BridgeFacts) -> bool {
        match self.artwork_job {
            Some(job) => {
                ||| job.picker_token matches Some(token) && self.owns_pick(token, bridge)
                ||| cancellable_transform(job.transform) && !self.stroke.transform.pending_cancel
            },
            None => {
                &&& !self.stroke.transform.pending_cancel
                &&& {
                    ||| self.stroke.transform.projection is Some
                    ||| self.stroke.transform.starting
                    ||| self.stroke.gesture.edit_gesture
                    ||| self.stroke.gesture.picker is Some
                    ||| self.stroke.active is Some
                }
            },
        }
    }

    pub open spec fn staging_cancel(self, bridge: BridgeFacts) -> Self {
        CanvasState {
            edit: EditProjection { can_cancel: self.can_cancel(bridge), ..self.edit },
            ..self
        }
    }

    /// Ink, edits or exports are still under way.
    pub open spec fn artwork_busy(self, work: WorkFacts) -> bool {
        ||| self.artwork_job is Some
        ||| self.stroke.gesture.edit_gesture
        ||| work.scene_live_stroke
        ||| self.stroke.active is Some
        ||| self.stroke.backlog.len() > 0
        ||| work.writer_pending != 0
        ||| work.export.in_flight()
    }

    /// The worker has taken a request.
    pub open spec fn job_queued(self, job: ArtworkJob) -> Self {
        CanvasState {
            artwork_job: Some(job),
            edit: EditProjection {
                busy: true,
                can_cancel: cancellable_transform(job.transform),
                error: None,
                ..self.edit
            },
            ..self
        }
    }

    pub open spec fn based_on(self, revision: u64) -> Self {
        CanvasState {
            publication_base: Some(
                match self.publication_base {
                    Some(base) => base,
                    None => revision,
                },
            ),
            ..self
        }
    }
}

impl<P: Copy, D, A> ActiveCanvas<P, D, A> {
    pub fn transform_active(&self) -> (r: bool)
        ensures
            r == self@.transform_is_active(),
    {
        self.stroke.transform.starting || self.stroke.transform.projection.is_some()
            || match self.artwork_job {
            Some(job) => job.transform.is_some(),
            None => false,
        }
    }

    pub fn picker_token_valid(&self, token: PickerToken, bridge: BridgeFacts) -> (r: bool)
        ensures
            r == self@.owns_pick(token, bridge),
    {
        self.stroke.picker_token_valid(
            token,
            bridge.picker_epoch,
            bridge.closing,
            bridge.workspace_failed,
        )
    }

    pub fn stage_cancel_availability(&mut self, bridge: BridgeFacts)
        ensures
            final(self)@ == old(self)@.staging_cancel(bridge),
    {
        let can_cancel = match self.artwork_job {
            Some(job) => {
                let owned = match job.picker_token {
                    Some(token) => self.picker_token_valid(token, bridge),
                    None => false,
                };
                owned || is_cancellable_transform(job.transform)
                    && !self.stroke.transform.pending_cancel
            },
            None => !self.stroke.transform.pending_cancel && (
            self.stroke.transform.projection.is_some() || self.stroke.transform.starting
                || self.stroke.gesture.edit_gesture || self.stroke.gesture.picker.is_some()
                || self.stroke.active.is_some()),
        };
        self.edit.can_cancel = can_cancel;
    }

    /// Refuses an artwork command while ink, edits or exports are under way.
    /// When it succeeds the host adopts finished tiles next and asks
    /// [`ActiveCanvas::idle_after_adoption`] whether anything was published.
    pub fn ensure_artwork_command_idle(&self, work: WorkFacts) -> (r: Result<
        (),
        CommandRejectReason,
    >)
        ensures
            r is Ok <==> !self@.artwork_busy(work),
            r is Err ==> r == Err::<(), _>(CommandRejectReason::CommandQueueBusy),
    {
        if self.artwork_job.is_some() || self.stroke.gesture.edit_gesture || work.scene_live_stroke
            || self.stroke.active.is_some() || self.stroke.pending_materializations.len() > 0
            || work.writer_pending != 0 || work.export.is_in_flight() {
            return Err(CommandRejectReason::CommandQueueBusy);
        }
        Ok(())
    }

    /// A publication during adoption makes the command stale.
    pub fn idle_after_adoption(based_on: u64, current: u64) -> (r: Result<(), CommandRejectReason>)
        ensures
            r is Ok <==> based_on == current,
            r is Err ==> r == Err::<(), _>(
                CommandRejectReason::StaleProjection { based_on, current },
            ),
    {
        if based_on != current {
            return Err(CommandRejectReason::StaleProjection { based_on, current });
        }
        Ok(())
    }

    /// Takes the writer's answer to an artwork request. A refused request ends
    /// the pause that was taken for it.
    pub fn enqueue_artwork(&mut self, job: ArtworkJob, queued: bool) -> (r: Result<
        bool,
        CommandRejectReason,
    >)
        ensures
            queued ==> r == Ok::<_, CommandRejectReason>(false) && final(self)@ == old(
                self,
            )@.job_queued(job),
            !queued ==> r == Err::<bool, _>(CommandRejectReason::CommandQueueBusy) && final(self)@
                == old(self)@.with_effect(InkEffect::ResumeAfterEdit),
    {
        if !queued {
            self.stroke.effects.push(InkEffect::ResumeAfterEdit);
            return Err(CommandRejectReason::CommandQueueBusy);
        }
        self.artwork_job = Some(job);
        self.edit.busy = true;
        self.edit.can_cancel = is_cancellable_transform(job.transform);
        self.edit.error = None;
        Ok(false)
    }

    pub fn remember_publication_base(&mut self, revision: u64)
        ensures
            final(self)@ == old(self)@.based_on(revision),
    {
        if self.publication_base.is_none() {
            self.publication_base = Some(revision);
        }
    }
}

} // verus!
