//! Free transforms on the canvas: drags, drafts in the worker, and the tool
//! that follows when a draft is settled.
use vstd::prelude::*;

use crate::canvas::{ActiveCanvas, ArtworkJob, BridgeFacts, CanvasState};
use crate::command::CommandRejectReason;
use crate::drawing::DrawingTool;
use crate::effect::InkEffect;
use crate::input::{PointerPhase, StylusSample};
use crate::stroke_pipeline::{PipelineState, StrokePipeline, TransformDrag, TransformState};
use crate::transform::{AffineTransform, TransformCommand, TransformProjection, TransformRefusal};

verus! {

/// What the handles of a draft make of a pointer position.
#[derive(Clone, Copy, Debug, PartialEq, Eq)]
pub struct DragGeometry {
    /// The position lies on a handle or inside the draft.
    pub hit: bool,
    /// What the drag in progress would lead to.
    pub update: Result<AffineTransform, TransformRefusal>,
}

impl<P, D, A> PipelineState<P, D, A> {
    pub open spec fn with_transform(self, transform: TransformState) -> Self {
        PipelineState { transform, ..self }
    }

    /// A drag starts on the selection. The worker still has to take the draft
    /// before anything is previewed.
    pub open spec fn native_transform_begun(self, sample: StylusSample<P>, hit: bool) -> Self {
        if sample.phase is Begin && hit && (self.selection matches Some(selection)
            && selection.bounds is Some) {
            self.with_transform(
                TransformState {
                    drag: Some(
                        TransformDrag {
                            viewport_revision: sample.viewport_revision,
                            original: crate::transform::identity(),
                        },
                    ),
                    starting: true,
                    ..self.transform
                },
            )
        } else {
            self
        }
    }

    /// A sample of a contact that a draft owns.
    pub open spec fn transform_observed(
        self,
        sample: StylusSample<P>,
        edit_busy: bool,
        geometry: DragGeometry,
    ) -> Self {
        let transform = self.transform;
        if transform.pending_tool is Some || transform.pending_cancel {
            self
        } else {
            match sample.phase {
                PointerPhase::Begin => match transform.projection {
                    Some(projection) => if transform.pending is Some || edit_busy {
                        self
                    } else {
                        self.with_transform(
                            TransformState {
                                drag: if geometry.hit {
                                    Some(
                                        TransformDrag {
                                            viewport_revision: sample.viewport_revision,
                                            original: projection.transform,
                                        },
                                    )
                                } else {
                                    None
                                },
                                ..transform
                            },
                        )
                    },
                    None => self,
                },
                PointerPhase::Cancel => self.with_transform(transform.drag_abandoned()),
                _ => match transform.drag {
                    None => self,
                    Some(drag) => if drag.viewport_revision != sample.viewport_revision {
                        self.with_transform(transform.drag_abandoned())
                    } else {
                        match geometry.update {
                            Ok(next) => self.with_transform(
                                TransformState {
                                    pending: Some(next),
                                    drag: if sample.phase is End { None } else { Some(drag) },
                                    ..transform
                                },
                            ),
                            Err(reason) => self.with_transform(
                                transform.drag_abandoned(),
                            ).with_effect(InkEffect::PublishTransformRefusal(reason)),
                        }
                    },
                },
            }
        }
    }
}

impl<P: Copy, D, A> StrokePipeline<P, D, A> {
    /// The draft against which a first drag on the selection is tested.
    pub fn native_transform_projection(&self) -> (r: Option<TransformProjection>)
        ensures
            r == (match self@.selection {
                Some(selection) => match selection.bounds {
                    Some(bounds) => Some(TransformProjection::untouched(bounds)),
                    None => None,
                },
                None => None,
            }),
    {
        match self.selection {
            Some(selection) => match selection.bounds {
                Some(bounds) => Some(TransformProjection::for_selection(bounds)),
                None => None,
            },
            None => None,
        }
    }

    pub fn begin_native_transform(&mut self, sample: &StylusSample<P>, hit: bool)
        ensures
            final(self)@ == old(self)@.native_transform_begun(*sample, hit),
    {
        if sample.phase != PointerPhase::Begin {
            return ;
        }
        if self.native_transform_projection().is_none() {
            return ;
        }
        if hit {
            self.transform.drag = Some(
                TransformDrag {
                    viewport_revision: sample.viewport_revision,
                    original: AffineTransform::default(),
                },
            );
            self.transform.starting = true;
        }
    }

    pub fn observe_transform_sample(
        &mut self,
        sample: &StylusSample<P>,
        edit_busy: bool,
        geometry: DragGeometry,
    )
        ensures
            final(self)@ == old(self)@.transform_observed(*sample, edit_busy, geometry),
    {
        if self.transform.pending_tool.is_some() || self.transform.pending_cancel {
            return ;
        }
        match sample.phase {
            PointerPhase::Begin => {
                let projection = match self.transform.projection {
                    Some(projection) => projection,
                    None => {
                        return ;
                    },
                };
                // A second drag cannot start from a preview still in flight.
                if self.transform.pending.is_some() || edit_busy {
                    return ;
                }
                self.transform.drag = if geometry.hit {
                    Some(
                        TransformDrag {
                            viewport_revision: sample.viewport_revision,
                            original: projection.transform,
                        },
                    )
                } else {
                    None
                };
            },
            PointerPhase::Move | PointerPhase::End => {
                if let Some(drag) = self.transform.drag {
                    if drag.viewport_revision != sample.viewport_revision {
                        self.transform.pending = Some(drag.original);
                        self.transform.drag = None;
                        return ;
                    }
                    match geometry.update {
                        Ok(next) => {
                            self.transform.pending = Some(next);
                        },
                        Err(reason) => {
                            self.transform.pending = Some(drag.original);
                            self.transform.drag = None;
                            self.effects.push(InkEffect::PublishTransformRefusal(reason));
                        },
                    }
                    if sample.phase == PointerPhase::End {
                        self.transform.drag = None;
                    }
                }
            },
            PointerPhase::Cancel => {
                if let Some(drag) = self.transform.drag {
                    self.transform.drag = None;
                    self.transform.pending = Some(drag.original);
                }
            },
        }
    }
}

/// How far a transform command has come.
#[derive(Clone, Copy, Debug, PartialEq, Eq)]
pub enum TransformProgress {
    Start,
    /// Whether artwork was idle.
    Idle(Result<(), CommandRejectReason>),
    /// Whether a pasted layer would fit the tree.
    PasteTree(Result<(), CommandRejectReason>),
    /// Whether input was paused.
    Paused(bool),
    /// Whether the worker took the request.
    Queued(bool),
}

/// What a transform command needs next.
#[derive(Clone, Copy, Debug, PartialEq, Eq)]
pub enum TransformStep {
    CheckIdle,
    CheckPasteTree,
    Pause,
    Queue(ArtworkJob),
    Return(Result<bool, CommandRejectReason>),
}

pub open spec fn starts_draft(command: TransformCommand) -> bool {
    command is Begin || command is Paste
}

pub open spec fn transform_job(command: TransformCommand) -> ArtworkJob {
    ArtworkJob {
        transform: Some(command),
        temporary_picker: None,
        picker_token: None,
        active_layer: None,
    }
}

impl TransformState {
    /// The draft can be committed: nothing newer is on its way.
    pub open spec fn committable(self) -> bool {
        &&& self.drag is None
        &&& self.pending is None
        &&& !self.pending_cancel
        &&& self.projection matches Some(projection) && projection.can_commit
    }

    /// Escape gives up everything that was only intended.
    pub open spec fn intents_dropped(self) -> TransformState {
        TransformState {
            drag: None,
            pending: None,
            pending_tool: None,
            pending_pencil_template: None,
            ..self
        }
    }

    /// The step between the checks and the queue.
    pub open spec fn admission(self, command: TransformCommand) -> TransformStep {
        if (self.projection is None && !self.starting) || command is Commit {
            TransformStep::Pause
        } else {
            TransformStep::Queue(transform_job(command))
        }
    }
}

impl<P, D, A> CanvasState<P, D, A> {
    pub open spec fn with_transform(self, transform: TransformState) -> Self {
        CanvasState { stroke: self.stroke.with_transform(transform), ..self }
    }

    /// The worker is already settling the draft.
    pub open spec fn settling(self) -> bool {
        self.artwork_job matches Some(job) && (job.transform matches Some(command) && (
        command is Commit || command is Cancel))
    }

    /// Escape, or an explicit cancel, while a transform is active.
    pub open spec fn transform_cancel_started(self, bridge: BridgeFacts) -> (Self, TransformStep) {
        let dropped = self.stroke.transform.intents_dropped();
        if self.settling() {
            (self, TransformStep::Return(Ok(false)))
        } else if self.artwork_job is Some {
            (
                self.with_transform(
                    TransformState { pending_cancel: true, ..dropped },
                ).staging_cancel(bridge).with_effect(InkEffect::RequestRedraw),
                TransformStep::Return(Ok(false)),
            )
        } else if dropped.starting && dropped.projection is None {
            (
                self.with_transform(
                    TransformState { starting: false, pending_cancel: false, ..dropped },
                ).staging_cancel(bridge),
                TransformStep::Return(Ok(false)),
            )
        } else {
            (self.with_transform(dropped), TransformStep::CheckIdle)
        }
    }

    pub open spec fn draft_started(self, command: TransformCommand) -> Self {
        if starts_draft(command) {
            CanvasState {
                drawing: self.drawing.selecting(DrawingTool::MoveSelection),
                ..self.with_transform(
                    TransformState {
                        starting: true,
                        paste: command is Paste,
                        ..self.stroke.transform
                    },
                )
            }.with_effect(InkEffect::SetNavigationTool(false))
        } else {
            self
        }
    }

    /// One step of a transform command.
    pub open spec fn transform_stepped(
        self,
        command: TransformCommand,
        progress: TransformProgress,
        bridge: BridgeFacts,
    ) -> (Self, TransformStep) {
        let transform = self.stroke.transform;
        match progress {
            TransformProgress::Start => if command is Cancel && self.transform_is_active() {
                self.transform_cancel_started(bridge)
            } else if command is Commit && !transform.committable() {
                (self, TransformStep::Return(Err(CommandRejectReason::CommandQueueBusy)))
            } else {
                (self, TransformStep::CheckIdle)
            },
            TransformProgress::Idle(Err(reason)) => (self, TransformStep::Return(Err(reason))),
            TransformProgress::Idle(Ok(_)) => (
                self,
                if starts_draft(command) {
                    if transform.projection is Some || (transform.starting && command is Paste) {
                        TransformStep::Return(Err(CommandRejectReason::CommandQueueBusy))
                    } else if command is Paste {
                        TransformStep::CheckPasteTree
                    } else {
                        transform.admission(command)
                    }
                } else if transform.projection is None {
                    TransformStep::Return(Err(CommandRejectReason::UnsupportedCommand))
                } else {
                    transform.admission(command)
                },
            ),
            TransformProgress::PasteTree(Err(reason)) => (self, TransformStep::Return(Err(reason))),
            TransformProgress::PasteTree(Ok(_)) => (self, transform.admission(command)),
            TransformProgress::Paused(paused) => (
                self,
                if paused {
                    TransformStep::Queue(transform_job(command))
                } else {
                    TransformStep::Return(Err(CommandRejectReason::CommandQueueBusy))
                },
            ),
            TransformProgress::Queued(queued) => if queued {
                (
                    self.job_queued(transform_job(command)).draft_started(command),
                    TransformStep::Return(Ok(false)),
                )
            } else {
                (
                    self.with_effect(InkEffect::ResumeAfterEdit),
                    TransformStep::Return(Err(CommandRejectReason::CommandQueueBusy)),
                )
            },
        }
    }
}

fn job_for_transform(command: TransformCommand) -> (r: ArtworkJob)
    ensures
        r == transform_job(command),
{
    ArtworkJob {
        transform: Some(command),
        temporary_picker: None,
        picker_token: None,
        active_layer: None,
    }
}

impl TransformState {
    fn plan_admission(&self, command: TransformCommand) -> (r: TransformStep)
        ensures
            r == self.admission(command),
    {
        if (self.projection.is_none() && !self.starting) || matches!(
            command,
            TransformCommand::Commit { .. }
        ) {
            TransformStep::Pause
        } else {
            TransformStep::Queue(job_for_transform(command))
        }
    }
}

impl<P: Copy, D, A> ActiveCanvas<P, D, A> {
    /// One step of a transform command. The host starts with
    /// [`TransformProgress::Start`], performs each step and reports back until
    /// the result is returned.
    pub fn enqueue_free_transform(
        &mut self,
        command: TransformCommand,
        progress: TransformProgress,
        bridge: BridgeFacts,
    ) -> (r: TransformStep)
        requires
            old(self)@.wf(),
        ensures
            (final(self)@, r) == old(self)@.transform_stepped(command, progress, bridge),
            final(self)@.wf(),
    {
        match progress {
            TransformProgress::Start => {
                if matches!(command, TransformCommand::Cancel) && self.transform_active() {
                    return self.start_transform_cancel(bridge);
                }
                if matches!(command, TransformCommand::Commit { .. })
                    && !self.transform_committable() {
                    return TransformStep::Return(Err(CommandRejectReason::CommandQueueBusy));
                }
                TransformStep::CheckIdle
            },
            TransformProgress::Idle(Err(reason)) => TransformStep::Return(Err(reason)),
            TransformProgress::Idle(Ok(_)) => {
                let active = self.stroke.transform.projection.is_some();
                if matches!(command, TransformCommand::Begin | TransformCommand::Paste) {
                    let paste = matches!(command, TransformCommand::Paste);
                    if active || (self.stroke.transform.starting && paste) {
                        return TransformStep::Return(Err(CommandRejectReason::CommandQueueBusy));
                    }
                    if paste {
                        return TransformStep::CheckPasteTree;
                    }
                } else if !active {
                    return TransformStep::Return(Err(CommandRejectReason::UnsupportedCommand));
                }
                self.stroke.transform.plan_admission(command)
            },
            TransformProgress::PasteTree(Err(reason)) => TransformStep::Return(Err(reason)),
            TransformProgress::PasteTree(Ok(_)) => self.stroke.transform.plan_admission(command),
            TransformProgress::Paused(paused) => {
                if paused {
                    TransformStep::Queue(job_for_transform(command))
                } else {
                    TransformStep::Return(Err(CommandRejectReason::CommandQueueBusy))
                }
            },
            TransformProgress::Queued(queued) => {
                let result = self.enqueue_artwork(job_for_transform(command), queued);
                if queued && matches!(command, TransformCommand::Begin | TransformCommand::Paste) {
                    let paste = matches!(command, TransformCommand::Paste);
                    self.stroke.transform = TransformState {
                        starting: true,
                        paste,
                        ..self.stroke.transform
                    };
                    self.drawing.select_tool(DrawingTool::MoveSelection);
                    self.stroke.effects.push(InkEffect::SetNavigationTool(false));
                }
                TransformStep::Return(result)
            },
        }
    }

    fn transform_committable(&self) -> (r: bool)
        ensures
            r == self@.stroke.transform.committable(),
    {
        self.stroke.transform.drag.is_none() && self.stroke.transform.pending.is_none()
            && !self.stroke.transform.pending_cancel && match self.stroke.transform.projection {
            Some(projection) => projection.can_commit,
            None => false,
        }
    }

    fn start_transform_cancel(&mut self, bridge: BridgeFacts) -> (r: TransformStep)
        ensures
            (final(self)@, r) == old(self)@.transform_cancel_started(bridge),
    {
        if let Some(job) = self.artwork_job {
            if matches!(
                job.transform,
                Some(TransformCommand::Commit { .. } | TransformCommand::Cancel)
            ) {
                return TransformStep::Return(Ok(false));
            }
        }
        let dropped = TransformState {
            drag: None,
            pending: None,
            pending_tool: None,
            pending_pencil_template: None,
            ..self.stroke.transform
        };
        if self.artwork_job.is_some() {
            self.stroke.transform = TransformState { pending_cancel: true, ..dropped };
            self.stage_cancel_availability(bridge);
            self.stroke.effects.push(InkEffect::RequestRedraw);
            return TransformStep::Return(Ok(false));
        }
        if dropped.starting && dropped.projection.is_none() {
            self.stroke.transform = TransformState {
                starting: false,
                pending_cancel: false,
                ..dropped
            };
            self.stage_cancel_availability(bridge);
            return TransformStep::Return(Ok(false));
        }
        self.stroke.transform = dropped;
        TransformStep::CheckIdle
    }
}

} // verus!
