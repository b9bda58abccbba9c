//! How transform drafts are refreshed, settled and adopted.
use vstd::prelude::*;

use crate::canvas::{ActiveCanvas, BridgeFacts, CanvasState};
use crate::command::CommandRejectReason;
use crate::document::LayerId;
use crate::drawing::{DrawingConfig, DrawingState, DrawingTool, PencilTemplate};
use crate::effect::InkEffect;
use crate::gpu_ops::GpuState;
use crate::stroke_pipeline::{PipelineState, Selection, TransformState};
use crate::transform::{AffineTransform, TransformCommand, TransformProjection};

verus! {

/// A transform command that the canvas itself brings to the worker, with the
/// tool intent that has to survive it.
#[derive(Clone, Copy, Debug, PartialEq, Eq, Structural)]
pub struct TransformFlush {
    pub command: TransformCommand,
    pub pending_tool: Option<DrawingTool>,
    pub pending_pencil_template: Option<PencilTemplate>,
}

impl TransformState {
    /// The settled draft leaves this tool selected.
    pub open spec fn tool_after(self) -> DrawingTool {
        match self.pending_tool {
            Some(tool) => tool,
            None => DrawingTool::Lasso,
        }
    }

    pub open spec fn tool_finished(self) -> TransformState {
        TransformState { pending_tool: None, pending_pencil_template: None, ..self }
    }

    /// What waits to be brought to the worker, most urgent first. A pending
    /// tool change commits a draft that may be committed, cancels an untouched
    /// one, and otherwise asks for its confirmation again.
    pub open spec fn next_flush(self) -> Option<TransformCommand> {
        if self.pending_cancel {
            Some(TransformCommand::Cancel)
        } else if self.starting {
            Some(TransformCommand::Begin)
        } else if self.pending is Some {
            Some(TransformCommand::Preview(self.pending->0))
        } else if self.pending_tool is Some && self.projection is Some {
            let projection = self.projection->0;
            if !self.paste && projection.transform == crate::transform::identity() {
                Some(TransformCommand::Cancel)
            } else if projection.can_commit {
                Some(TransformCommand::Commit { generation: projection.generation })
            } else {
                Some(TransformCommand::Preview(projection.transform))
            }
        } else {
            None
        }
    }

    /// The flush asks only for a new confirmation.
    pub open spec fn revalidates(self) -> bool {
        &&& !self.pending_cancel && !self.starting && self.pending is None
        &&& self.pending_tool is Some
        &&& self.projection matches Some(projection) && !projection.can_commit && (self.paste
            || projection.transform != crate::transform::identity())
    }

    /// Only the tool change is left to do.
    pub open spec fn only_tool_left(self) -> bool {
        &&& !self.pending_cancel && !self.starting && self.pending is None
        &&& self.pending_tool is Some && self.projection is None
    }

    pub open spec fn abandoned(self) -> TransformState {
        TransformState {
            pending: None,
            pending_cancel: false,
            pending_tool: None,
            pending_pencil_template: None,
            starting: false,
            ..self
        }
    }
}

impl DrawingState {
    /// The configuration once the tool that waited for a draft is selected.
    pub open spec fn with_tool_after(self, transform: TransformState) -> DrawingState {
        let tool = transform.tool_after();
        match transform.pending_pencil_template {
            Some(template) => if tool is Pencil {
                DrawingState { pencil_template: template, ..self.remembering() }.selecting(tool)
            } else {
                self.selecting(tool)
            },
            None => self.selecting(tool),
        }
    }
}

impl<P, D, A> CanvasState<P, D, A> {
    pub open spec fn tool_finished(self) -> Self {
        let transform = self.stroke.transform;
        CanvasState {
            drawing: self.drawing.with_tool_after(transform),
            ..self.with_transform(transform.tool_finished())
        }.with_effect(InkEffect::SetNavigationTool(transform.tool_after() is Move))
    }

    /// The canvas looks for a transform command to bring to the worker.
    pub open spec fn flush_prepared(self) -> Self {
        let transform = self.stroke.transform;
        if self.artwork_job is Some {
            self
        } else if transform.only_tool_left() {
            self.tool_finished()
        } else if transform.revalidates() {
            self.with_transform(TransformState { revalidating: true, ..transform })
        } else {
            self
        }
    }

    /// The outcome of bringing a flushed command to the worker.
    pub open spec fn flush_settled(
        self,
        flush: TransformFlush,
        result: Result<bool, CommandRejectReason>,
        revision: u64,
    ) -> Self {
        let kept = TransformState {
            pending_tool: flush.pending_tool,
            pending_pencil_template: flush.pending_pencil_template,
            ..self.stroke.transform
        };
        match result {
            Ok(_) => if crate::transform_runtime::starts_draft(flush.command) {
                self.with_transform(kept).based_on(revision)
            } else {
                self.with_transform(
                    TransformState { pending: None, pending_cancel: false, ..kept },
                ).based_on(revision)
            },
            Err(reason) => if reason is CommandQueueBusy || reason is StaleProjection {
                self.with_transform(
                    TransformState {
                        pending_cancel: flush.command is Cancel || kept.pending_cancel,
                        ..kept
                    },
                ).with_effect(InkEffect::RequestRedraw)
            } else {
                self.with_transform(self.stroke.transform.abandoned()).with_effect(
                    InkEffect::PublishTransformFailure(reason),
                )
            },
        }
    }

    /// The worker refused a transform command.
    pub open spec fn transform_rejected(self, command: Option<TransformCommand>) -> Self {
        let transform = self.stroke.transform;
        let draft = command matches Some(command) && crate::transform_runtime::starts_draft(
            command,
        );
        let settle = command matches Some(command) && (command is Commit || command is Cancel);
        let first = if draft {
            let cleared = self.with_transform(
                TransformState {
                    starting: false,
                    drag: None,
                    pending: None,
                    pending_cancel: false,
                    paste: false,
                    ..transform
                },
            );
            if transform.pending_tool is Some {
                cleared.tool_finished()
            } else {
                cleared
            }
        } else if transform.revalidating {
            self.with_transform(transform.tool_finished())
        } else {
            self
        };
        let second = first.with_transform(
            TransformState { revalidating: false, ..first.stroke.transform },
        );
        if settle {
            second.with_transform(second.stroke.transform.tool_finished())
        } else {
            second
        }
    }

    /// The worker's draft, or its end, is shown.
    pub open spec fn transform_installed(
        self,
        active_layer: LayerId,
        selection: Option<Selection>,
        projection: Option<TransformProjection>,
    ) -> Self {
        let focused = CanvasState {
            active_layer,
            stroke: PipelineState { selection, ..self.stroke },
            ..self
        }.with_effect(InkEffect::SetAdmissionLayer(active_layer));
        let confirmed = TransformState {
            starting: false,
            revalidating: false,
            projection,
            ..self.stroke.transform
        };
        if projection is Some {
            CanvasState {
                drawing: self.drawing.selecting(DrawingTool::MoveSelection),
                ..focused.with_transform(confirmed)
            }.with_effect(InkEffect::SetNavigationTool(false))
        } else {
            focused.with_transform(
                TransformState {
                    drag: None,
                    pending: None,
                    pending_cancel: false,
                    paste: false,
                    ..confirmed
                },
            ).tool_finished()
        }
    }
}

/// Selects the tool that waited for a draft, with the pencil it was asked for.
fn select_tool_after(
    drawing: &mut DrawingConfig,
    tool: DrawingTool,
    template: Option<PencilTemplate>,
)
    requires
        old(drawing)@.wf(),
    ensures
        final(drawing)@.wf(),
        final(drawing)@ == (match template {
            Some(template) => if tool is Pencil {
                DrawingState {
                    pencil_template: template,
                    ..old(drawing)@.remembering()
                }.selecting(tool)
            } else {
                old(drawing)@.selecting(tool)
            },
            None => old(drawing)@.selecting(tool),
        }),
{
    if let Some(template) = template {
        if tool == DrawingTool::Pencil {
            drawing.remember_current();
            drawing.pencil_template = template;
        }
    }
    drawing.select_tool(tool);
}

impl<P: Copy, D, A> ActiveCanvas<P, D, A> {
    pub fn finish_transform_tool(&mut self)
        requires
            old(self)@.wf(),
        ensures
            final(self)@ == old(self)@.tool_finished(),
            final(self)@.wf(),
    {
        let transform = self.stroke.transform;
        let tool = match transform.pending_tool {
            Some(tool) => tool,
            None => DrawingTool::Lasso,
        };
        select_tool_after(&mut self.drawing, tool, transform.pending_pencil_template);
        self.stroke.transform = TransformState {
            pending_tool: None,
            pending_pencil_template: None,
            ..transform
        };
        self.stroke.effects.push(InkEffect::SetNavigationTool(tool == DrawingTool::Move));
    }

    /// Notes the tool to switch to once the draft is settled. Returns whether
    /// the host has to flush; the selected tool changes only then.
    pub fn switch_transform_tool(
        &mut self,
        tool: DrawingTool,
        pencil_template: Option<PencilTemplate>,
    ) -> (r: bool)
        ensures
            r == !(tool == old(self)@.drawing.tool && old(
                self,
            )@.stroke.transform.pending_tool is None),
            final(self)@ == (if r {
                old(self)@.with_transform(
                    TransformState {
                        pending_tool: Some(tool),
                        pending_pencil_template: pencil_template,
                        drag: None,
                        ..old(self)@.stroke.transform
                    },
                )
            } else {
                old(self)@
            }),
    {
        if tool == self.drawing.tool && self.stroke.transform.pending_tool.is_none() {
            return false;
        }
        self.stroke.transform.pending_tool = Some(tool);
        self.stroke.transform.pending_pencil_template = pencil_template;
        self.stroke.transform.drag = None;
        true
    }

    /// After the flush of a tool switch.
    pub fn transform_tool_switched(&mut self, bridge: BridgeFacts)
        ensures
            final(self)@ == old(self)@.staging_cancel(bridge).with_effect(InkEffect::RequestRedraw),
    {
        self.stage_cancel_availability(bridge);
        self.stroke.effects.push(InkEffect::RequestRedraw);
    }

    /// The transform command that the canvas brings to the worker in this
    /// frame, if there is one.
    pub fn flush_transform_preview(&mut self) -> (r: Option<TransformFlush>)
        requires
            old(self)@.wf(),
        ensures
            final(self)@ == old(self)@.flush_prepared(),
            final(self)@.wf(),
            r == (if old(self)@.artwork_job is Some {
                None
            } else {
                match old(self)@.stroke.transform.next_flush() {
                    Some(command) => Some(
                        TransformFlush {
                            command,
                            pending_tool: old(self)@.stroke.transform.pending_tool,
                            pending_pencil_template: old(
                                self,
                            )@.stroke.transform.pending_pencil_template,
                        },
                    ),
                    None => None,
                }
            }),
    {
        if self.artwork_job.is_some() {
            return None;
        }
        let transform = self.stroke.transform;
        let command = if transform.pending_cancel {
            TransformCommand::Cancel
        } else if transform.starting {
            TransformCommand::Begin
        } else if let Some(next) = transform.pending {
            TransformCommand::Preview(next)
        } else if transform.pending_tool.is_some() {
            let projection = match transform.projection {
                Some(projection) => projection,
                None => {
                    self.finish_transform_tool();
                    return None;
                },
            };
            if !transform.paste && projection.transform == AffineTransform::default() {
                TransformCommand::Cancel
            } else if projection.can_commit {
                TransformCommand::Commit { generation: projection.generation }
            } else {
                // A refused latest request withdraws the right to commit, so
                // the last valid transform is confirmed again.
                self.stroke.transform.revalidating = true;
                TransformCommand::Preview(projection.transform)
            }
        } else {
            return None;
        };
        Some(
            TransformFlush {
                command,
                pending_tool: transform.pending_tool,
                pending_pencil_template: transform.pending_pencil_template,
            },
        )
    }

    /// Takes the result of a flushed command. Returns whether the host has to
    /// publish the canvas.
    pub fn transform_flush_result(
        &mut self,
        flush: TransformFlush,
        result: Result<bool, CommandRejectReason>,
        revision: u64,
    ) -> (publish: bool)
        ensures
            final(self)@ == old(self)@.flush_settled(flush, result, revision),
            publish == (result is Ok),
    {
        let transform = self.stroke.transform;
        let kept = TransformState {
            pending_tool: flush.pending_tool,
            pending_pencil_template: flush.pending_pencil_template,
            ..transform
        };
        match result {
            Ok(_) => {
                self.stroke.transform = if matches!(
                    flush.command,
                    TransformCommand::Begin | TransformCommand::Paste
                ) {
                    kept
                } else {
                    TransformState { pending: None, pending_cancel: false, ..kept }
                };
                self.remember_publication_base(revision);
                true
            },
            Err(
                CommandRejectReason::CommandQueueBusy | CommandRejectReason::StaleProjection { .. },
            ) => {
                let cancel = matches!(flush.command, TransformCommand::Cancel);
                self.stroke.transform = TransformState {
                    pending_cancel: cancel || kept.pending_cancel,
                    ..kept
                };
                self.stroke.effects.push(InkEffect::RequestRedraw);
                false
            },
            Err(reason) => {
                self.stroke.transform = TransformState {
                    pending: None,
                    pending_cancel: false,
                    pending_tool: None,
                    pending_pencil_template: None,
                    starting: false,
                    ..transform
                };
                self.stroke.effects.push(InkEffect::PublishTransformFailure(reason));
                false
            },
        }
    }

    /// Takes back what a refused transform command had claimed.
    pub fn reject_transform_outcome(&mut self, command: Option<TransformCommand>)
        requires
            old(self)@.wf(),
        ensures
            final(self)@ == old(self)@.transform_rejected(command),
            final(self)@.wf(),
    {
        let transform = self.stroke.transform;
        if matches!(command, Some(TransformCommand::Begin | TransformCommand::Paste)) {
            self.stroke.transform = TransformState {
                starting: false,
                drag: None,
                pending: None,
                pending_cancel: false,
                paste: false,
                ..transform
            };
            if transform.pending_tool.is_some() {
                self.finish_transform_tool();
            }
        } else if transform.revalidating {
            // A failed confirmation leaves the draft for an explicit cancel; it
            // neither loops nor switches tools.
            self.stroke.transform = TransformState {
                pending_tool: None,
                pending_pencil_template: None,
                ..transform
            };
        }
        let settled = self.stroke.transform;
        self.stroke.transform = if matches!(
            command,
            Some(TransformCommand::Commit { .. } | TransformCommand::Cancel)
        ) {
            TransformState {
                revalidating: false,
                pending_tool: None,
                pending_pencil_template: None,
                ..settled
            }
        } else {
            TransformState { revalidating: false, ..settled }
        };
    }

    /// Adopts a draft, or its end, after the scene shows it. Older previews are
    /// forgotten.
    pub fn install_transform_outcome(
        &mut self,
        active_layer: LayerId,
        selection: Option<Selection>,
        projection: Option<TransformProjection>,
        previews: &mut GpuState,
    )
        requires
            old(self)@.wf(),
        ensures
            final(previews).wf(),
            final(previews)@ == old(previews)@.forgotten(),
            final(self)@ == old(self)@.transform_installed(active_layer, selection, projection),
            final(self)@.wf(),
    {
        let transform = self.stroke.transform;
        self.active_layer = active_layer;
        self.stroke.effects.push(InkEffect::SetAdmissionLayer(active_layer));
        self.stroke.selection = selection;
        if projection.is_some() {
            self.stroke.transform = TransformState {
                starting: false,
                revalidating: false,
                projection,
                ..transform
            };
            self.drawing.select_tool(DrawingTool::MoveSelection);
            self.stroke.effects.push(InkEffect::SetNavigationTool(false));
        } else {
            self.stroke.transform = TransformState {
                starting: false,
                revalidating: false,
                projection,
                drag: None,
                pending: None,
                pending_cancel: false,
                paste: false,
                ..transform
            };
            self.finish_transform_tool();
        }
        previews.forget_previews();
    }
}

/// A settled draft leaves nothing pending and frees the input.
pub proof fn settled_drafts_leave_nothing_pending<P, D, A>(
    state: CanvasState<P, D, A>,
    active_layer: LayerId,
    selection: Option<Selection>,
)
    ensures
        state.transform_installed(active_layer, selection, None).stroke.transform
            == TransformState::idle(),
        state.artwork_job is None ==> !state.transform_installed(
            active_layer,
            selection,
            None,
        ).transform_is_active(),
{
}

/// While the worker holds a commit, Escape changes nothing: the commit is
/// already durable work.
pub proof fn escape_cannot_undo_a_dispatched_commit<P, D, A>(
    state: CanvasState<P, D, A>,
    bridge: BridgeFacts,
)
    requires
        state.settling(),
    ensures
        state.transform_stepped(
            TransformCommand::Cancel,
            crate::transform_runtime::TransformProgress::Start,
            bridge,
        ) == (state, crate::transform_runtime::TransformStep::Return(Ok(false))),
{
}

/// A waiting cancel goes before any preview, and an unsettled tool change
/// never commits a draft that may not be committed.
pub proof fn flushes_respect_cancel_and_commit_rights(transform: TransformState)
    ensures
        transform.pending_cancel ==> transform.next_flush() == Some(TransformCommand::Cancel),
        transform.next_flush() matches Some(TransformCommand::Commit { generation }) ==> {
            &&& transform.projection matches Some(projection)
            &&& projection.can_commit
            &&& projection.generation == generation
            &&& transform.pending is None
        },
{
}

} // verus!
