//! One frame of the canvas: the order of its steps and what they decide.
use vstd::prelude::*;

use crate::canvas::{ActiveCanvas, BridgeFacts, CanvasState};
use crate::command::CommandRejectReason;
use crate::document::LayerTreeNodeId;
use crate::editor_command::{projection_rejection, EditorCommand, ProjectionError};
use crate::effect::{InkEffect, WorkspaceFailure};
use crate::layer_tree::LayerTree;
use crate::stroke_pipeline::PipelineState;

verus! {

/// The steps of a frame, in order.
#[derive(Clone, Copy, Debug, PartialEq, Eq, Structural)]
pub enum FrameStage {
    Begin,
    QueueInitialFit,
    EnsureView,
    AdoptTiles,
    /// Commands are taken in, but samples stay for the close.
    ApplyHeldCommands,
    PollArtwork,
    Drain,
    ExecuteGpuOps,
    StageCancel,
    FlushClosedStrokes,
    StageUsage,
    AdoptNewTiles,
    AdoptNativeEdit,
    FlushTransform,
    ApplyCommands,
    UpdatePickerPreview,
    PollNativePick,
    CheckFailure,
    /// The save probe looks at the pending save before it is flushed.
    AdvanceSaveProbe,
    FlushSave,
    AdvanceProbes,
    PublishNavigator,
    Composite,
    /// The frame is presented.
    Present,
    /// The frame shows what the scene already has.
    PresentUnchanged,
    /// No frame is presented.
    Skip,
}

/// Test harnesses may keep admitted samples for the close.
#[derive(Clone, Copy, Debug, PartialEq, Eq, Structural)]
pub enum InputHold {
    Nothing,
    SamplesOnly,
    Everything,
}

/// What a frame depends on beside the canvas.
#[derive(Clone, Copy, Debug, PartialEq, Eq, Structural)]
pub struct FrameFacts {
    pub width: u32,
    pub height: u32,
    pub initial_fit_pending: bool,
    pub hold: InputHold,
    pub workspace_failed: bool,
    pub probe_stops: bool,
    /// The scene could not compose the viewport.
    pub composite_failed: bool,
}

impl FrameStage {
    pub open spec fn number(self) -> int {
        match self {
            FrameStage::Begin => 0,
            FrameStage::QueueInitialFit => 1,
            FrameStage::EnsureView => 2,
            FrameStage::AdoptTiles => 3,
            FrameStage::ApplyHeldCommands => 4,
            FrameStage::PollArtwork => 5,
            FrameStage::Drain => 6,
            FrameStage::ExecuteGpuOps => 7,
            FrameStage::StageCancel => 8,
            FrameStage::FlushClosedStrokes => 9,
            FrameStage::StageUsage => 10,
            FrameStage::AdoptNewTiles => 11,
            FrameStage::AdoptNativeEdit => 12,
            FrameStage::FlushTransform => 13,
            FrameStage::ApplyCommands => 14,
            FrameStage::UpdatePickerPreview => 15,
            FrameStage::PollNativePick => 16,
            FrameStage::CheckFailure => 17,
            FrameStage::AdvanceSaveProbe => 18,
            FrameStage::FlushSave => 19,
            FrameStage::AdvanceProbes => 20,
            FrameStage::PublishNavigator => 21,
            FrameStage::Composite => 22,
            FrameStage::Present => 23,
            FrameStage::PresentUnchanged => 23,
            FrameStage::Skip => 23,
        }
    }

    pub open spec fn ends(self) -> bool {
        self is Present || self is PresentUnchanged || self is Skip
    }

    /// What follows, where neither failure nor a pick turns the frame.
    pub open spec fn plain_next(self) -> FrameStage {
        match self {
            FrameStage::Begin => FrameStage::EnsureView,
            FrameStage::QueueInitialFit => FrameStage::EnsureView,
            FrameStage::EnsureView => FrameStage::AdoptTiles,
            FrameStage::AdoptTiles => FrameStage::PollArtwork,
            FrameStage::ApplyHeldCommands => FrameStage::PresentUnchanged,
            FrameStage::PollArtwork => FrameStage::Drain,
            FrameStage::Drain => FrameStage::ExecuteGpuOps,
            FrameStage::ExecuteGpuOps => FrameStage::StageCancel,
            FrameStage::StageCancel => FrameStage::FlushClosedStrokes,
            FrameStage::FlushClosedStrokes => FrameStage::StageUsage,
            FrameStage::StageUsage => FrameStage::AdoptNewTiles,
            FrameStage::AdoptNewTiles => FrameStage::AdoptNativeEdit,
            FrameStage::AdoptNativeEdit => FrameStage::FlushTransform,
            FrameStage::FlushTransform => FrameStage::ApplyCommands,
            FrameStage::ApplyCommands => FrameStage::UpdatePickerPreview,
            FrameStage::UpdatePickerPreview => FrameStage::CheckFailure,
            FrameStage::PollNativePick => FrameStage::CheckFailure,
            FrameStage::CheckFailure => FrameStage::AdvanceSaveProbe,
            FrameStage::AdvanceSaveProbe => FrameStage::FlushSave,
            FrameStage::FlushSave => FrameStage::AdvanceProbes,
            FrameStage::AdvanceProbes => FrameStage::PublishNavigator,
            FrameStage::PublishNavigator => FrameStage::Composite,
            FrameStage::Composite => FrameStage::Present,
            FrameStage::Present => FrameStage::Present,
            FrameStage::PresentUnchanged => FrameStage::PresentUnchanged,
            FrameStage::Skip => FrameStage::Skip,
        }
    }

    /// The stage after this one. A native pick is adopted only after this
    /// frame's samples, so that a finished read cannot overtake its
    /// cancellation; a failed workspace ends the frame.
    pub open spec fn followed_by(self, native_pick: bool, facts: FrameFacts) -> FrameStage {
        match self {
            FrameStage::Begin => if facts.width == 0 || facts.height == 0 {
                FrameStage::Skip
            } else if facts.initial_fit_pending {
                FrameStage::QueueInitialFit
            } else {
                self.plain_next()
            },
            FrameStage::AdoptTiles => match facts.hold {
                InputHold::SamplesOnly => FrameStage::ApplyHeldCommands,
                InputHold::Everything => FrameStage::Skip,
                InputHold::Nothing => if native_pick {
                    FrameStage::Drain
                } else {
                    self.plain_next()
                },
            },
            FrameStage::StageCancel | FrameStage::CheckFailure => if facts.workspace_failed {
                FrameStage::Skip
            } else {
                self.plain_next()
            },
            FrameStage::UpdatePickerPreview => if native_pick {
                FrameStage::PollNativePick
            } else {
                self.plain_next()
            },
            FrameStage::AdvanceProbes => if facts.probe_stops {
                FrameStage::Skip
            } else {
                self.plain_next()
            },
            FrameStage::Composite => if facts.composite_failed {
                FrameStage::Skip
            } else {
                self.plain_next()
            },
            _ => self.plain_next(),
        }
    }

    fn after(self) -> (r: FrameStage)
        ensures
            r == self.plain_next(),
    {
        match self {
            FrameStage::Begin => FrameStage::EnsureView,
            FrameStage::QueueInitialFit => FrameStage::EnsureView,
            FrameStage::EnsureView => FrameStage::AdoptTiles,
            FrameStage::AdoptTiles => FrameStage::PollArtwork,
            FrameStage::ApplyHeldCommands => FrameStage::PresentUnchanged,
            FrameStage::PollArtwork => FrameStage::Drain,
            FrameStage::Drain => FrameStage::ExecuteGpuOps,
            FrameStage::ExecuteGpuOps => FrameStage::StageCancel,
            FrameStage::StageCancel => FrameStage::FlushClosedStrokes,
            FrameStage::FlushClosedStrokes => FrameStage::StageUsage,
            FrameStage::StageUsage => FrameStage::AdoptNewTiles,
            FrameStage::AdoptNewTiles => FrameStage::AdoptNativeEdit,
            FrameStage::AdoptNativeEdit => FrameStage::FlushTransform,
            FrameStage::FlushTransform => FrameStage::ApplyCommands,
            FrameStage::ApplyCommands => FrameStage::UpdatePickerPreview,
            FrameStage::UpdatePickerPreview => FrameStage::CheckFailure,
            FrameStage::PollNativePick => FrameStage::CheckFailure,
            FrameStage::CheckFailure => FrameStage::AdvanceSaveProbe,
            FrameStage::AdvanceSaveProbe => FrameStage::FlushSave,
            FrameStage::FlushSave => FrameStage::AdvanceProbes,
            FrameStage::AdvanceProbes => FrameStage::PublishNavigator,
            FrameStage::PublishNavigator => FrameStage::Composite,
            FrameStage::Composite => FrameStage::Present,
            FrameStage::Present => FrameStage::Present,
            FrameStage::PresentUnchanged => FrameStage::PresentUnchanged,
            FrameStage::Skip => FrameStage::Skip,
        }
    }
}

/// What the usage of a drain publishes.
#[derive(Clone, Copy, Debug, PartialEq, Eq, Structural)]
pub enum UsagePublication {
    Nothing,
    /// A closed stroke changed the project; its image is stale.
    ClosedStroke,
    RecentUsage,
}

/// A state that could not be published fails the workspace.
#[derive(Clone, Copy, Debug, PartialEq, Eq, Structural)]
pub enum PublicationFailure {
    ClosedStroke,
    EditorState,
    HistoryAdoption,
}

impl PublicationFailure {
    /// What precedes and follows the error in the published message.
    pub fn text(self) -> (r: (&'static str, &'static str))
        ensures
            self is ClosedStroke ==> r.0@
                == "Closed stroke was saved but its semantic state could not be published: "@
                && r.1@ == ""@,
            self is EditorState ==> r.0@ == "The editor state could not be published: "@ && r.1@
                == ""@,
            self is HistoryAdoption ==> r.0@
                == "Artwork was saved but the canvas could not adopt its history state: "@ && r.1@
                == "; reopen the project before drawing"@,
    {
        match self {
            PublicationFailure::ClosedStroke => (
                "Closed stroke was saved but its semantic state could not be published: ",
                "",
            ),
            PublicationFailure::EditorState => ("The editor state could not be published: ", ""),
            PublicationFailure::HistoryAdoption => (
                "Artwork was saved but the canvas could not adopt its history state: ",
                "; reopen the project before drawing",
            ),
        }
    }
}

/// How far a command has come.
#[derive(Clone, Copy, Debug, PartialEq, Eq)]
pub enum CommandProgress {
    /// `validation` is the projection's own verdict on the revision.
    Received { workspace_failed: bool, validation: Result<(), CommandRejectReason> },
    Applied(Result<bool, CommandRejectReason>),
    Published(Result<(), ProjectionError>),
}

#[derive(Clone, Copy, Debug, PartialEq, Eq, Structural)]
pub enum CommandStep {
    Apply,
    /// Publish the canvas, as changed where it was dirty or the artwork changed.
    Publish { artwork_changed: bool },
    Accept { persist_layout: bool },
    Reject(CommandRejectReason),
}

impl<P, D, A> CanvasState<P, D, A> {
    /// A native pick is being read by the worker.
    pub open spec fn native_pick(self) -> bool {
        self.artwork_job matches Some(job) && job.picker_token is Some
    }

    /// The pipeline learns what this frame's samples apply to.
    pub open spec fn drain_begun(
        self,
        tree: LayerTree,
        solo: Option<LayerTreeNodeId>,
        workspace_failed: bool,
    ) -> Self {
        let focused = PipelineState {
            focus: tree.focus_on(self.active_layer),
            picker_solo: solo,
            drawing: self.drawing,
            ..self.stroke
        };
        CanvasState {
            stroke: if workspace_failed { focused.failed_closed() } else { focused },
            ..self
        }
    }

    pub open spec fn command_stepped(
        self,
        command: EditorCommand,
        based_on: u64,
        current: u64,
        progress: CommandProgress,
    ) -> CommandStep {
        match progress {
            CommandProgress::Received { workspace_failed, validation } => if workspace_failed {
                CommandStep::Reject(CommandRejectReason::WorkspaceFailed)
            } else if !self.tolerates_revision(command, based_on, current) && validation is Err {
                CommandStep::Reject(validation->Err_0)
            } else if current == u64::MAX {
                CommandStep::Reject(CommandRejectReason::RevisionExhausted)
            } else {
                CommandStep::Apply
            },
            CommandProgress::Applied(Ok(artwork_changed)) => CommandStep::Publish {
                artwork_changed,
            },
            CommandProgress::Applied(Err(reason)) => CommandStep::Reject(reason),
            CommandProgress::Published(Ok(_)) => CommandStep::Accept {
                persist_layout: command is Dock,
            },
            CommandProgress::Published(Err(error)) => CommandStep::Reject(
                crate::editor_command::rejection_of(error),
            ),
        }
    }
}

impl<P: Copy, D, A> ActiveCanvas<P, D, A> {
    /// The stage of a frame that follows a finished one.
    pub fn render(&self, stage: FrameStage, facts: FrameFacts) -> (r: FrameStage)
        ensures
            r == stage.followed_by(self@.native_pick(), facts),
    {
        let native_pick = match self.artwork_job {
            Some(job) => job.picker_token.is_some(),
            None => false,
        };
        match stage {
            FrameStage::Begin => {
                if facts.width == 0 || facts.height == 0 {
                    return FrameStage::Skip;
                }
                if facts.initial_fit_pending {
                    return FrameStage::QueueInitialFit;
                }
            },
            FrameStage::AdoptTiles => match facts.hold {
                InputHold::SamplesOnly => {
                    return FrameStage::ApplyHeldCommands;
                },
                InputHold::Everything => {
                    return FrameStage::Skip;
                },
                InputHold::Nothing => {
                    if native_pick {
                        return FrameStage::Drain;
                    }
                },
            },
            FrameStage::StageCancel | FrameStage::CheckFailure => {
                if facts.workspace_failed {
                    return FrameStage::Skip;
                }
            },
            FrameStage::UpdatePickerPreview => {
                if native_pick {
                    return FrameStage::PollNativePick;
                }
            },
            FrameStage::AdvanceProbes => {
                if facts.probe_stops {
                    return FrameStage::Skip;
                }
            },
            FrameStage::Composite => {
                if facts.composite_failed {
                    return FrameStage::Skip;
                }
            },
            _ => {},
        }
        stage.after()
    }

    /// Prepares the pipeline for this frame's samples: the active layer and
    /// its locks, the solo node and the drawing controls. A failed workspace
    /// takes no more ink.
    pub fn begin_drain(
        &mut self,
        tree: &LayerTree,
        solo: Option<LayerTreeNodeId>,
        workspace_failed: bool,
    )
        ensures
            final(self)@ == old(self)@.drain_begun(*tree, solo, workspace_failed),
            old(self)@.wf() ==> final(self)@.wf(),
    {
        self.stroke.focus = tree.layer_focus(self.active_layer);
        self.stroke.picker_solo = solo;
        self.stroke.drawing = self.drawing;
        if workspace_failed {
            self.stroke.fail_closed();
        }
    }

    /// Restages whether Escape would stop something. Returns whether that
    /// changed and has to be published.
    pub fn stage_cancel_changes(&mut self, bridge: BridgeFacts, revision: u64) -> (publish: bool)
        ensures
            publish == (old(self)@.edit.can_cancel != old(self)@.can_cancel(bridge)),
            final(self)@ == (if publish {
                old(self)@.staging_cancel(bridge).based_on(revision)
            } else {
                old(self)@.staging_cancel(bridge)
            }),
    {
        let before = self.edit.can_cancel;
        self.stage_cancel_availability(bridge);
        if before != self.edit.can_cancel {
            self.remember_publication_base(revision);
            return true;
        }
        false
    }

    /// A failed workspace stops ink; the host shows the latched state.
    pub fn synchronize_workspace_failure(&mut self, workspace_failed: bool) -> (r: bool)
        ensures
            r == workspace_failed,
            final(self)@ == (if workspace_failed {
                CanvasState { stroke: old(self)@.stroke.failed_closed(), ..old(self)@ }
            } else {
                old(self)@
            }),
    {
        if workspace_failed {
            self.stroke.fail_closed();
        }
        workspace_failed
    }

    /// What a drain publishes. One publication stands for the whole drain.
    pub fn publish_drain(&mut self, artwork_closed: bool, usage_changed: bool, revision: u64) -> (r:
        UsagePublication)
        ensures
            r == (if artwork_closed {
                UsagePublication::ClosedStroke
            } else if usage_changed {
                UsagePublication::RecentUsage
            } else {
                UsagePublication::Nothing
            }),
            final(self)@ == (if r is RecentUsage {
                old(self)@.based_on(revision)
            } else {
                old(self)@
            }),
    {
        if artwork_closed {
            return UsagePublication::ClosedStroke;
        }
        if usage_changed {
            self.remember_publication_base(revision);
            return UsagePublication::RecentUsage;
        }
        UsagePublication::Nothing
    }

    /// Takes the result of publishing a closed stroke; where it failed the
    /// host fails the workspace.
    pub fn publish_closed_stroke_dirty(&mut self, published: bool, previous_revision: u64) -> (r:
        Option<PublicationFailure>)
        ensures
            published ==> r is None && final(self)@ == old(self)@.based_on(previous_revision),
            !published ==> r == Some(PublicationFailure::ClosedStroke) && final(self)@ == old(
                self,
            )@,
    {
        if published {
            self.remember_publication_base(previous_revision);
            None
        } else {
            Some(PublicationFailure::ClosedStroke)
        }
    }

    /// The composite failed, so the frame is not presented. Tiles that no
    /// longer fit stop drawing, so that no edit stays invisible.
    pub fn viewport_failed(&mut self, atlas_exhausted: bool) -> (r: FrameStage)
        ensures
            r is Skip,
            final(self)@ == (if atlas_exhausted {
                CanvasState {
                    stroke: old(self)@.stroke.with_effect(
                        InkEffect::PublishWorkspaceFailure(WorkspaceFailure::AtlasExhausted),
                    ).failed_closed(),
                    ..old(self)@
                }
            } else {
                old(self)@
            }),
    {
        if atlas_exhausted {
            self.stroke.effects.push(
                InkEffect::PublishWorkspaceFailure(WorkspaceFailure::AtlasExhausted),
            );
            self.stroke.fail_closed();
        }
        FrameStage::Skip
    }

    /// One step of a command. A command is published only where it was
    /// applied, and accepted only where it was published.
    pub fn apply_command(
        &self,
        command: &EditorCommand,
        based_on: u64,
        current: u64,
        progress: CommandProgress,
    ) -> (r: CommandStep)
        ensures
            r == self@.command_stepped(*command, based_on, current, progress),
    {
        match progress {
            CommandProgress::Received { workspace_failed, validation } => {
                match self.check_command_revision(
                    command,
                    based_on,
                    current,
                    workspace_failed,
                    validation,
                ) {
                    Ok(_) => CommandStep::Apply,
                    Err(reason) => CommandStep::Reject(reason),
                }
            },
            CommandProgress::Applied(Ok(artwork_changed)) => CommandStep::Publish {
                artwork_changed,
            },
            CommandProgress::Applied(Err(reason)) => CommandStep::Reject(reason),
            CommandProgress::Published(Ok(_)) => CommandStep::Accept {
                persist_layout: matches!(command, EditorCommand::Dock),
            },
            CommandProgress::Published(Err(error)) => CommandStep::Reject(
                projection_rejection(error),
            ),
        }
    }

    /// All commands of the frame are done. Only a save that was queued before
    /// this frame's publications could be based on an older revision.
    pub fn commands_applied(&mut self)
        ensures
            final(self)@ == (CanvasState { publication_base: None, ..old(self)@ }),
    {
        self.publication_base = None;
    }
}

/// Frames only move forward, so each one ends.
pub proof fn frames_move_forward(stage: FrameStage, native_pick: bool, facts: FrameFacts)
    ensures
        !stage.ends() ==> stage.followed_by(native_pick, facts).number() > stage.number(),
        stage.ends() ==> stage.followed_by(native_pick, facts) == stage,
{
}

/// Commands, saves among them, run only after this frame's samples were
/// drained and the closed strokes were offered to the writer.
pub proof fn commands_follow_ink(stage: FrameStage, native_pick: bool, facts: FrameFacts)
    ensures
        stage.followed_by(native_pick, facts) is ApplyCommands ==> stage is FlushTransform,
        stage.followed_by(native_pick, facts) is FlushTransform ==> stage is AdoptNativeEdit,
        stage.followed_by(native_pick, facts) is AdoptNativeEdit ==> stage is AdoptNewTiles,
        stage.followed_by(native_pick, facts) is AdoptNewTiles ==> stage is StageUsage,
        stage.followed_by(native_pick, facts) is StageUsage ==> stage is FlushClosedStrokes,
        stage.followed_by(native_pick, facts) is FlushClosedStrokes ==> stage is StageCancel,
        stage.followed_by(native_pick, facts) is StageCancel ==> stage is ExecuteGpuOps,
        stage.followed_by(native_pick, facts) is ExecuteGpuOps ==> stage is Drain,
{
}

/// A native pick is never adopted before the samples of its frame.
pub proof fn native_picks_follow_samples(stage: FrameStage, facts: FrameFacts)
    ensures
        stage.followed_by(true, facts) != FrameStage::PollArtwork,
        stage.followed_by(true, facts) is PollNativePick <==> stage is UpdatePickerPreview,
        stage.followed_by(false, facts) != FrameStage::PollNativePick,
{
}

/// A workspace that failed during a frame takes neither commands nor saves of
/// that frame, and presents nothing.
pub proof fn failed_frames_stop(stage: FrameStage, native_pick: bool, facts: FrameFacts)
    requires
        facts.workspace_failed,
    ensures
        stage.followed_by(native_pick, facts) != FrameStage::FlushClosedStrokes,
        stage.followed_by(native_pick, facts) != FrameStage::AdvanceSaveProbe,
        stage.followed_by(native_pick, facts) is FlushSave ==> stage is AdvanceSaveProbe,
{
}

/// A frame is presented exactly where its composite was drawn.
pub proof fn only_drawn_frames_are_presented(
    stage: FrameStage,
    native_pick: bool,
    facts: FrameFacts,
)
    requires
        !stage.ends(),
    ensures
        stage.followed_by(native_pick, facts) is Present <==> stage is Composite
            && !facts.composite_failed,
        stage is Composite && facts.composite_failed ==> stage.followed_by(
            native_pick,
            facts,
        ) is Skip,
{
}

} // verus!
