//! Editor commands: which of them may run now, and what each one asks for.
use vstd::prelude::*;

use crate::canvas::{ActiveCanvas, BridgeFacts, CanvasState, WorkFacts};
use crate::command::CommandRejectReason;
use crate::document::LayerTreeNodeId;
use crate::drawing::{DrawingConfig, DrawingTool, PencilTemplate};
use crate::edit::EditCommand;
use crate::effect::{InkEffect, Notice};
use crate::layer_command::LayerCommand;
use crate::tool_command::{selected_tool, ToolCommand};
use crate::transform::TransformCommand;

verus! {

/// Viewport moves, as far as they are decided here.
#[derive(Clone, Copy, Debug, PartialEq, Eq, Structural)]
pub enum ViewportCommand {
    FitDocument,
    ActualPixels,
    PanBy { logical_x: i32, logical_y: i32 },
    /// Ten-thousandths of the page from its top left corner.
    CenterPageAt { page_x_10k: i32, page_y_10k: i32 },
    ZoomSteps(i8),
    ZoomAt { steps: i8, logical_x: i32, logical_y: i32 },
    RotateQuarterSteps(i8),
    ResetRotation,
    ToggleMirrorHorizontal,
}

#[derive(Clone, Copy, Debug, PartialEq, Eq, Structural)]
pub enum HistoryCommand {
    Undo,
    Redo,
    RedoTo(u128),
    ShowRedoBranches { after: Option<u128> },
}

/// An editor command. Panel layouts are kept by the host, so a dock command is
/// only announced.
#[derive(Clone, Debug, PartialEq, Eq)]
pub enum EditorCommand {
    Edit(EditCommand),
    Viewport(ViewportCommand),
    Layer(LayerCommand),
    Dock,
    Save,
    Tool(ToolCommand),
    History(HistoryCommand),
}

/// What the host reads before a command is begun.
#[derive(Clone, Copy, Debug, PartialEq, Eq, Structural)]
pub struct CommandFacts {
    pub bridge: BridgeFacts,
    pub work: WorkFacts,
    /// The layer named by the command is in the tree.
    pub layer_known: bool,
    pub solo_node: Option<LayerTreeNodeId>,
}

/// What a begun command needs next.
#[derive(Clone, Copy, Debug, PartialEq, Eq)]
pub enum EditorStep {
    Return(Result<bool, CommandRejectReason>),
    Transform(TransformCommand),
    SwitchTransformTool { tool: DrawingTool, template: Option<PencilTemplate> },
    Edit(EditCommand),
    MoveViewport,
    SetSolo(Option<LayerTreeNodeId>),
    /// An artwork command that starts with the idle check.
    Layer,
    History,
    ChangeDock,
    ReserveExport,
    /// A gesture was cancelled: its display operations run now.
    ExecuteGpuOps,
    PauseForTool,
}

pub open spec fn is_cancel_gesture(command: EditorCommand) -> bool {
    command matches EditorCommand::Tool(tool) && tool is CancelGesture
}

/// Commands that may run while a finished pick waits for its answer.
pub open spec fn passes_pending_pick(command: EditorCommand) -> bool {
    is_cancel_gesture(command) || command is Dock || command is Viewport || command is Save
}

/// Commands that leave an active transform alone.
pub open spec fn passes_transform(command: EditorCommand) -> bool {
    ||| command is Viewport
    ||| command is Dock
    ||| command matches EditorCommand::Edit(edit) && edit is FreeTransform
}

pub open spec fn page_point_valid(x: int, y: int) -> bool {
    0 <= x <= 10_000 && 0 <= y <= 10_000
}

pub open spec fn changes_color(command: ToolCommand) -> bool {
    command is SetColor || command is SwapColors
}

pub open spec fn template_of(command: ToolCommand) -> Option<PencilTemplate> {
    match command {
        ToolCommand::SelectPencilTemplate(template) => Some(template),
        _ => None,
    }
}

/// Whether a tool command is a selection, and then whether it selects
/// navigation.
pub open spec fn navigation_effect(current: DrawingTool, command: ToolCommand) -> Option<bool> {
    match crate::tool_command::next_tool(current, command) {
        Some(tool) => Some(tool is Move),
        None => None,
    }
}

impl<P, D, A> CanvasState<P, D, A> {
    /// A pick has ended and its answer is still awaited.
    pub open spec fn pick_pending(self) -> bool {
        self.stroke.gesture.picker matches Some(picker) && picker.released
    }

    /// The tool that an active transform will end with.
    pub open spec fn intended_tool(self) -> DrawingTool {
        match self.stroke.transform.pending_tool {
            Some(tool) => tool,
            None => self.drawing.tool,
        }
    }

    /// A command while a transform is active, where the transform decides.
    pub open spec fn under_transform(self, command: EditorCommand) -> Option<(Self, EditorStep)> {
        if is_cancel_gesture(command) {
            Some((self, EditorStep::Transform(TransformCommand::Cancel)))
        } else {
            match command {
                EditorCommand::Tool(tool_command) => match crate::tool_command::next_tool(
                    self.intended_tool(),
                    tool_command,
                ) {
                    Some(tool) => Some(
                        (
                            self,
                            EditorStep::SwitchTransformTool {
                                tool,
                                template: template_of(tool_command),
                            },
                        ),
                    ),
                    None => Some(self.refused_by_transform()),
                },
                _ => if passes_transform(command) {
                    None
                } else {
                    Some(self.refused_by_transform())
                },
            }
        }
    }

    pub open spec fn refused_by_transform(self) -> (Self, EditorStep) {
        (
            self.with_effect(InkEffect::PublishNotice(Notice::TransformPending)),
            EditorStep::Return(Err(CommandRejectReason::CommandQueueBusy)),
        )
    }

    /// A layer command.
    pub open spec fn layer_begun(self, command: LayerCommand, facts: CommandFacts) -> (
        Self,
        EditorStep,
    ) {
        match command {
            LayerCommand::SetActive(layer) => if self.stroke.gesture.edit_gesture
                || self.artwork_job is Some {
                (self, EditorStep::Return(Err(CommandRejectReason::CommandQueueBusy)))
            } else if !facts.layer_known {
                (self, EditorStep::Return(Err(CommandRejectReason::UnknownLayer)))
            } else {
                (
                    CanvasState { active_layer: layer, ..self }.with_effect(
                        InkEffect::SetAdmissionLayer(layer),
                    ),
                    EditorStep::Return(Ok(false)),
                )
            },
            LayerCommand::ToggleSolo(node) => (
                self,
                EditorStep::SetSolo(
                    if facts.solo_node == Some(node) {
                        None
                    } else {
                        Some(node)
                    },
                ),
            ),
            _ => (self, EditorStep::Layer),
        }
    }

    /// A tool command while no transform is active.
    pub open spec fn tool_begun(self, command: ToolCommand, facts: CommandFacts) -> (
        Self,
        EditorStep,
    ) {
        if command is CancelGesture {
            let cancelled = CanvasState { stroke: self.stroke.gesture_cancelled(), ..self };
            (
                cancelled,
                if self.stroke.has_native_gesture() {
                    EditorStep::ExecuteGpuOps
                } else if self.stroke.selection is Some {
                    EditorStep::Edit(EditCommand::ClearSelection)
                } else {
                    EditorStep::Return(Ok(false))
                },
            )
        } else if changes_color(command) && (self.artwork_job is Some
            || facts.bridge.temporary_pick_pending) {
            (self, EditorStep::Return(Err(CommandRejectReason::CommandQueueBusy)))
        } else if facts.work.scene_live_stroke || self.stroke.gesture.edit_gesture {
            (self, EditorStep::Return(Err(CommandRejectReason::CommandQueueBusy)))
        } else {
            (self, EditorStep::PauseForTool)
        }
    }

    /// The first step of an editor command.
    pub open spec fn command_begun(self, command: EditorCommand, facts: CommandFacts) -> (
        Self,
        EditorStep,
    ) {
        if self.pick_pending() && !passes_pending_pick(command) {
            (self, EditorStep::Return(Err(CommandRejectReason::CommandQueueBusy)))
        } else if self.transform_is_active() && self.under_transform(command) is Some {
            self.under_transform(command)->0
        } else if self.artwork_job is Some && (command is Layer || command is History) {
            (self, EditorStep::Return(Err(CommandRejectReason::CommandQueueBusy)))
        } else {
            match command {
                EditorCommand::Edit(edit) => (self, EditorStep::Edit(edit)),
                EditorCommand::Viewport(viewport) => match viewport {
                    ViewportCommand::CenterPageAt { page_x_10k, page_y_10k } => if page_point_valid(
                        page_x_10k as int,
                        page_y_10k as int,
                    ) {
                        (self, EditorStep::MoveViewport)
                    } else {
                        (self, EditorStep::Return(Err(CommandRejectReason::InvalidViewport)))
                    },
                    _ => (self, EditorStep::MoveViewport),
                },
                EditorCommand::Layer(layer) => self.layer_begun(layer, facts),
                EditorCommand::Dock => (self, EditorStep::ChangeDock),
                EditorCommand::Save => if self.has_export_path {
                    (self, EditorStep::ReserveExport)
                } else {
                    (self, EditorStep::Return(Err(CommandRejectReason::UnsupportedCommand)))
                },
                EditorCommand::Tool(tool) => self.tool_begun(tool, facts),
                EditorCommand::History(_) => (self, EditorStep::History),
            }
        }
    }

    /// The end of the pause that a command took, unless a job now owns it.
    pub open spec fn resumed_without_job(self) -> Self {
        if self.artwork_job is None {
            self.with_effect(InkEffect::ResumeAfterEdit)
        } else {
            self
        }
    }

    /// The drawing configuration changes under a pause.
    pub open spec fn tool_applied(self, command: ToolCommand) -> (Self, Result<
        bool,
        CommandRejectReason,
    >) {
        match self.drawing.commanded(command) {
            Some(next) => {
                let applied = CanvasState { drawing: next.remembering(), ..self };
                (
                    (match navigation_effect(self.drawing.tool, command) {
                        Some(navigates) => applied.with_effect(
                            InkEffect::SetNavigationTool(navigates),
                        ),
                        None => applied,
                    }).resumed_without_job(),
                    Ok(false),
                )
            },
            None => (
                self.resumed_without_job(),
                Err(CommandRejectReason::UnsupportedCommand),
            ),
        }
    }

    /// A command may run at this revision although others were published.
    pub open spec fn tolerates_revision(
        self,
        command: EditorCommand,
        based_on: u64,
        current: u64,
    ) -> bool {
        ||| command is Save && self.publication_base == Some(based_on)
        ||| command matches EditorCommand::Tool(ToolCommand::AdjustSizeSteps { tool, steps })
            && tool == self.drawing.tool && crate::drawing::slot_of(tool) is Some && based_on
            <= current
    }
}

impl<P: Copy, D, A> ActiveCanvas<P, D, A> {
    /// Whether a command is let through at all, before it is begun.
    /// `validation` is the projection's own verdict on the revision.
    pub fn check_command_revision(
        &self,
        command: &EditorCommand,
        based_on: u64,
        current: u64,
        workspace_failed: bool,
        validation: Result<(), CommandRejectReason>,
    ) -> (r: Result<(), CommandRejectReason>)
        ensures
            r == (if workspace_failed {
                Err(CommandRejectReason::WorkspaceFailed)
            } else if !self@.tolerates_revision(*command, based_on, current) && validation is Err {
                validation
            } else if current == u64::MAX {
                Err(CommandRejectReason::RevisionExhausted)
            } else {
                Ok(())
            }),
    {
        if workspace_failed {
            return Err(CommandRejectReason::WorkspaceFailed);
        }
        let tolerated = match command {
            EditorCommand::Save => self.publication_base == Some(based_on),
            EditorCommand::Tool(ToolCommand::AdjustSizeSteps { tool, .. }) => *tool
                == self.drawing.tool && DrawingConfig::painting_slot(*tool).is_some() && based_on
                <= current,
            _ => false,
        };
        if !tolerated {
            if let Err(reason) = validation {
                return Err(reason);
            }
        }
        if current == u64::MAX {
            return Err(CommandRejectReason::RevisionExhausted);
        }
        Ok(())
    }

    fn refuse_for_transform(&mut self) -> (r: EditorStep)
        ensures
            (final(self)@, r) == old(self)@.refused_by_transform(),
    {
        self.stroke.effects.push(InkEffect::PublishNotice(Notice::TransformPending));
        EditorStep::Return(Err(CommandRejectReason::CommandQueueBusy))
    }

    fn step_under_transform(&mut self, command: &EditorCommand) -> (r: Option<EditorStep>)
        ensures
            match old(self)@.under_transform(*command) {
                Some(next) => r == Some(next.1) && final(self)@ == next.0,
                None => r is None && final(self)@ == old(self)@,
            },
    {
        match command {
            EditorCommand::Tool(ToolCommand::CancelGesture) => Some(
                EditorStep::Transform(TransformCommand::Cancel),
            ),
            EditorCommand::Tool(tool_command) => {
                let current = match self.stroke.transform.pending_tool {
                    Some(tool) => tool,
                    None => self.drawing.tool,
                };
                match selected_tool(current, *tool_command) {
                    Some(tool) => {
                        let template = match *tool_command {
                            ToolCommand::SelectPencilTemplate(template) => Some(template),
                            _ => None,
                        };
                        Some(EditorStep::SwitchTransformTool { tool, template })
                    },
                    None => Some(self.refuse_for_transform()),
                }
            },
            EditorCommand::Edit(EditCommand::FreeTransform(_))
            | EditorCommand::Viewport(_)
            | EditorCommand::Dock => None,
            _ => Some(self.refuse_for_transform()),
        }
    }

    fn begin_layer_command(&mut self, command: &LayerCommand, facts: CommandFacts) -> (r:
        EditorStep)
        ensures
            (final(self)@, r) == old(self)@.layer_begun(*command, facts),
    {
        match command {
            LayerCommand::SetActive(layer) => {
                if self.stroke.gesture.edit_gesture || self.artwork_job.is_some() {
                    return EditorStep::Return(Err(CommandRejectReason::CommandQueueBusy));
                }
                if !facts.layer_known {
                    return EditorStep::Return(Err(CommandRejectReason::UnknownLayer));
                }
                self.active_layer = *layer;
                self.stroke.effects.push(InkEffect::SetAdmissionLayer(*layer));
                EditorStep::Return(Ok(false))
            },
            LayerCommand::ToggleSolo(node) => {
                if facts.solo_node == Some(*node) {
                    EditorStep::SetSolo(None)
                } else {
                    EditorStep::SetSolo(Some(*node))
                }
            },
            _ => EditorStep::Layer,
        }
    }

    fn begin_tool_command(&mut self, command: ToolCommand, facts: CommandFacts) -> (r: EditorStep)
        ensures
            (final(self)@, r) == old(self)@.tool_begun(command, facts),
    {
        if matches!(command, ToolCommand::CancelGesture) {
            if self.stroke.cancel_native_gesture() {
                return EditorStep::ExecuteGpuOps;
            }
            if self.stroke.selection.is_some() {
                return EditorStep::Edit(EditCommand::ClearSelection);
            }
            return EditorStep::Return(Ok(false));
        }
        // A pending pick must not overwrite a newer colour.
        if (self.artwork_job.is_some() || facts.bridge.temporary_pick_pending) && matches!(
            command,
            ToolCommand::SetColor(_) | ToolCommand::SwapColors
        ) {
            return EditorStep::Return(Err(CommandRejectReason::CommandQueueBusy));
        }
        if facts.work.scene_live_stroke || self.stroke.gesture.edit_gesture {
            return EditorStep::Return(Err(CommandRejectReason::CommandQueueBusy));
        }
        EditorStep::PauseForTool
    }

    /// Begins an editor command and says what it needs next.
    pub fn apply_editor_command(&mut self, command: &EditorCommand, facts: CommandFacts) -> (r:
        EditorStep)
        ensures
            (final(self)@, r) == old(self)@.command_begun(*command, facts),
    {
        let pick_pending = match self.stroke.gesture.picker {
            Some(picker) => picker.released,
            None => false,
        };
        if pick_pending && !matches!(
            command,
            EditorCommand::Tool(ToolCommand::CancelGesture)
                | EditorCommand::Dock
                | EditorCommand::Viewport(_)
                | EditorCommand::Save
        ) {
            return EditorStep::Return(Err(CommandRejectReason::CommandQueueBusy));
        }
        if self.transform_active() {
            if let Some(step) = self.step_under_transform(command) {
                return step;
            }
        }
        if self.artwork_job.is_some() && matches!(
            command,
            EditorCommand::Layer(_) | EditorCommand::History(_)
        ) {
            return EditorStep::Return(Err(CommandRejectReason::CommandQueueBusy));
        }
        match command {
            EditorCommand::Edit(edit) => EditorStep::Edit(*edit),
            EditorCommand::Viewport(viewport) => {
                if let ViewportCommand::CenterPageAt { page_x_10k, page_y_10k } = *viewport {
                    if page_x_10k < 0 || page_x_10k > 10_000 || page_y_10k < 0 || page_y_10k
                        > 10_000 {
                        return EditorStep::Return(Err(CommandRejectReason::InvalidViewport));
                    }
                }
                EditorStep::MoveViewport
            },
            EditorCommand::Layer(layer) => self.begin_layer_command(layer, facts),
            EditorCommand::Dock => EditorStep::ChangeDock,
            EditorCommand::Save => {
                if self.has_export_path {
                    EditorStep::ReserveExport
                } else {
                    EditorStep::Return(Err(CommandRejectReason::UnsupportedCommand))
                }
            },
            EditorCommand::Tool(tool) => self.begin_tool_command(*tool, facts),
            EditorCommand::History(_) => EditorStep::History,
        }
    }

    /// Applies a tool command once input is paused for it.
    pub fn tool_command_paused(&mut self, command: ToolCommand, paused: bool) -> (r: Result<
        bool,
        CommandRejectReason,
    >)
        requires
            old(self)@.wf(),
        ensures
            final(self)@.wf(),
            !paused ==> r == Err::<bool, _>(CommandRejectReason::CommandQueueBusy) && final(self)@
                == old(self)@,
            paused ==> (final(self)@, r) == old(self)@.tool_applied(command),
    {
        if !paused {
            return Err(CommandRejectReason::CommandQueueBusy);
        }
        let selected = selected_tool(self.drawing.tool, command);
        let result = match self.drawing.apply_tool_command(command) {
            Ok(_) => {
                if let Some(tool) = selected {
                    self.stroke.effects.push(
                        InkEffect::SetNavigationTool(tool == DrawingTool::Move),
                    );
                }
                Ok(false)
            },
            Err(reason) => Err(reason),
        };
        if self.artwork_job.is_none() {
            self.stroke.effects.push(InkEffect::ResumeAfterEdit);
        }
        result
    }

    /// Takes the export number of a save. The latest request waits alone; it
    /// never blocks input.
    pub fn save_reserved(&mut self, reserved: Result<u64, ()>) -> (r: Result<
        bool,
        CommandRejectReason,
    >)
        ensures
            match reserved {
                Ok(generation) => r == Ok::<_, CommandRejectReason>(false) && final(self)@ == (
                CanvasState { pending_save: Some(generation), ..old(self)@ }),
                Err(_) => r == Err::<bool, _>(CommandRejectReason::CommandQueueBusy) && final(self)@
                    == old(self)@,
            },
    {
        match reserved {
            Ok(generation) => {
                self.pending_save = Some(generation);
                Ok(false)
            },
            Err(_) => Err(CommandRejectReason::CommandQueueBusy),
        }
    }

    /// Ends a layer command under its pause.
    pub fn layer_command_done(&mut self, result: Result<bool, CommandRejectReason>) -> (r: Result<
        bool,
        CommandRejectReason,
    >)
        ensures
            r == result,
            final(self)@ == old(self)@.resumed_without_job(),
    {
        if self.artwork_job.is_none() {
            self.stroke.effects.push(InkEffect::ResumeAfterEdit);
        }
        result
    }
}

/// How far a command that pauses input has come.
#[derive(Clone, Copy, Debug, PartialEq, Eq)]
pub enum PauseProgress {
    Idle(Result<(), CommandRejectReason>),
    Paused(bool),
}

#[derive(Clone, Copy, Debug, PartialEq, Eq)]
pub enum PauseStep {
    Pause,
    Proceed,
    Return(CommandRejectReason),
}

/// The common opening of layer and history commands: idle first, then a pause
/// of the input, and no artwork is touched before both hold.
pub fn pause_step(progress: PauseProgress) -> (r: PauseStep)
    ensures
        r == (match progress {
            PauseProgress::Idle(Ok(_)) => PauseStep::Pause,
            PauseProgress::Idle(Err(reason)) => PauseStep::Return(reason),
            PauseProgress::Paused(true) => PauseStep::Proceed,
            PauseProgress::Paused(false) => PauseStep::Return(
                CommandRejectReason::CommandQueueBusy,
            ),
        }),
{
    match progress {
        PauseProgress::Idle(Ok(_)) => PauseStep::Pause,
        PauseProgress::Idle(Err(reason)) => PauseStep::Return(reason),
        PauseProgress::Paused(true) => PauseStep::Proceed,
        PauseProgress::Paused(false) => PauseStep::Return(CommandRejectReason::CommandQueueBusy),
    }
}

/// The reason that the projection's own failures are reported as.
#[derive(Clone, Copy, Debug, PartialEq, Eq, Structural)]
pub enum ProjectionError {
    RevisionExhausted,
    UnknownActiveLayer,
}

pub open spec fn rejection_of(error: ProjectionError) -> CommandRejectReason {
    match error {
        ProjectionError::RevisionExhausted => CommandRejectReason::RevisionExhausted,
        ProjectionError::UnknownActiveLayer => CommandRejectReason::UnknownLayer,
    }
}

pub fn projection_rejection(error: ProjectionError) -> (r: CommandRejectReason)
    ensures
        r == rejection_of(error),
{
    match error {
        ProjectionError::RevisionExhausted => CommandRejectReason::RevisionExhausted,
        ProjectionError::UnknownActiveLayer => CommandRejectReason::UnknownLayer,
    }
}

/// While a finished pick waits for its answer, no command can change the
/// artwork, the tool or the colour it is going to set.
pub proof fn pending_picks_hold_back_commands<P, D, A>(
    state: CanvasState<P, D, A>,
    command: EditorCommand,
    facts: CommandFacts,
)
    requires
        state.pick_pending(),
        command is Edit || command is Layer || command is History || (
        command matches EditorCommand::Tool(tool) && !(tool is CancelGesture)),
    ensures
        state.command_begun(command, facts) == (
            state,
            EditorStep::Return(Err(CommandRejectReason::CommandQueueBusy)),
        ),
{
}

/// An active transform keeps layers, history, saving and other edits away.
pub proof fn transforms_hold_back_artwork<P, D, A>(
    state: CanvasState<P, D, A>,
    command: EditorCommand,
    facts: CommandFacts,
)
    requires
        state.transform_is_active(),
        command is Layer || command is History || command is Save || (
        command matches EditorCommand::Edit(edit) && !(edit is FreeTransform)),
    ensures
        state.command_begun(command, facts).1 == EditorStep::Return(
            Err(CommandRejectReason::CommandQueueBusy),
        ),
        state.command_begun(command, facts).0.stroke.transform == state.stroke.transform,
        state.command_begun(command, facts).0.drawing == state.drawing,
{
}

/// A colour cannot be set while a job or a temporary pick may still set one.
pub proof fn colors_wait_for_picks<P, D, A>(
    state: CanvasState<P, D, A>,
    command: ToolCommand,
    facts: CommandFacts,
)
    requires
        changes_color(command),
        state.artwork_job is Some || facts.bridge.temporary_pick_pending,
    ensures
        state.command_begun(EditorCommand::Tool(command), facts).1 == EditorStep::Return(
            Err(CommandRejectReason::CommandQueueBusy),
        ),
        state.command_begun(EditorCommand::Tool(command), facts).0.drawing == state.drawing,
{
}

/// Selecting a tool under a pause and asking which tool a command selects
/// always agree.
pub proof fn selection_matches_the_announced_tool(
    state: crate::drawing::DrawingState,
    command: ToolCommand,
)
    requires
        state.wf(),
    ensures
        match crate::tool_command::next_tool(state.tool, command) {
            Some(tool) => state.commanded(command) matches Some(next) && next.tool == tool,
            None => state.commanded(command) matches Some(next) ==> next.tool == state.tool,
        },
{
}

} // verus!
