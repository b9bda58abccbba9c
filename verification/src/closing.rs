//! What a canvas still owes the project when it is dropped.
use vstd::prelude::*;

use crate::canvas::{ActiveCanvas, CanvasState};
use crate::edit::{EditCommand, GestureError};
use crate::effect::InkEffect;
use crate::layer_tree::LayerTree;
use crate::stroke_pipeline::{GestureState, PipelineState};

verus! {

/// The edit that a native gesture left behind.
#[derive(Clone, Copy, Debug, PartialEq, Eq, Structural)]
pub enum ClosingEdit {
    Nothing,
    /// Bring it to the writer and wait for the answer.
    Send(EditCommand),
    Failed(GestureError),
}

/// Why a closing edit was not applied, where the writer gave no reason itself.
#[derive(Clone, Copy, Debug, PartialEq, Eq, Structural)]
pub enum ClosingFailure {
    WriterUnavailable,
    WriterStopped,
    NoAnswer,
}

impl ClosingFailure {
    pub fn text(self) -> (r: &'static str)
        ensures
            self is WriterUnavailable ==> r@ == "Project writer unavailable"@,
            self is WriterStopped ==> r@ == "Project writer stopped"@,
            self is NoAnswer ==> r@ == "Edit result unavailable"@,
    {
        match self {
            ClosingFailure::WriterUnavailable => "Project writer unavailable",
            ClosingFailure::WriterStopped => "Project writer stopped",
            ClosingFailure::NoAnswer => "Edit result unavailable",
        }
    }
}

/// What precedes the reason in the published failure of a closing edit.
pub fn closing_failure_lead() -> (r: &'static str)
    ensures
        r@ == "Closing edit was not applied: "@,
{
    "Closing edit was not applied: "
}

/// The save that was still waiting.
#[derive(Clone, Copy, Debug, PartialEq, Eq, Structural)]
pub enum ClosingSave {
    Nothing,
    /// The workspace has failed, and the export with it.
    FailExport,
    /// Hand the export to the writer, waiting for a place; one that finds none
    /// has failed.
    Export { generation: u64 },
}

impl<P, D, A> CanvasState<P, D, A> {
    /// Samples that are still queued apply to what was last accepted.
    pub open spec fn shutdown_begun(self, tree: LayerTree) -> Self {
        CanvasState {
            stroke: PipelineState {
                focus: tree.focus_on(self.active_layer),
                drawing: self.drawing,
                ..self.stroke
            },
            ..self
        }
    }

    /// A temporary read changes a colour only; there is nothing durable to
    /// flush, so it is answered and dropped.
    pub open spec fn closing_edit(self) -> (Self, ClosingEdit) {
        let gesture = self.stroke.gesture;
        match gesture.completed_temporary_picker {
            Some(sequence) => (
                self.with_gesture(
                    GestureState {
                        completed_temporary_picker: None,
                        completed_edit: None,
                        ..gesture
                    },
                ).with_effect(InkEffect::CompleteTemporaryPick(sequence)),
                ClosingEdit::Nothing,
            ),
            None => (
                self.with_gesture(GestureState { completed_edit: None, ..gesture }),
                match gesture.completed_edit {
                    Some(Ok(command)) => ClosingEdit::Send(command),
                    Some(Err(error)) => ClosingEdit::Failed(error),
                    None => ClosingEdit::Nothing,
                },
            ),
        }
    }

    pub open spec fn closing_save(self, workspace_failed: bool) -> (Self, ClosingSave) {
        (
            CanvasState { pending_save: None, ..self },
            match self.pending_save {
                Some(generation) => if workspace_failed {
                    ClosingSave::FailExport
                } else if self.has_export_path {
                    ClosingSave::Export { generation }
                } else {
                    ClosingSave::Nothing
                },
                None => ClosingSave::Nothing,
            },
        )
    }
}

impl<P: Copy, D, A> ActiveCanvas<P, D, A> {
    /// Controls may have changed after the last drain; what is still queued
    /// uses the accepted ones.
    pub fn begin_close(&mut self, tree: &LayerTree)
        ensures
            final(self)@ == old(self)@.shutdown_begun(*tree),
            old(self)@.wf() ==> final(self)@.wf(),
    {
        self.stroke.focus = tree.layer_focus(self.active_layer);
        self.stroke.drawing = self.drawing;
    }

    /// The edit of a gesture that ended before the close. It reaches the
    /// writer before the export does.
    pub fn take_closing_edit(&mut self) -> (r: ClosingEdit)
        ensures
            (final(self)@, r) == old(self)@.closing_edit(),
    {
        let gesture = self.stroke.gesture;
        if let Some(sequence) = gesture.completed_temporary_picker {
            self.stroke.gesture = GestureState {
                completed_temporary_picker: None,
                completed_edit: None,
                ..gesture
            };
            self.stroke.effects.push(InkEffect::CompleteTemporaryPick(sequence));
            return ClosingEdit::Nothing;
        }
        self.stroke.gesture = GestureState { completed_edit: None, ..gesture };
        match gesture.completed_edit {
            Some(Ok(command)) => ClosingEdit::Send(command),
            Some(Err(error)) => ClosingEdit::Failed(error),
            None => ClosingEdit::Nothing,
        }
    }

    /// The save that was still waiting, after all ink and edits.
    pub fn take_closing_save(&mut self, workspace_failed: bool) -> (r: ClosingSave)
        ensures
            (final(self)@, r) == old(self)@.closing_save(workspace_failed),
    {
        let pending = self.pending_save;
        self.pending_save = None;
        match pending {
            Some(generation) => {
                if workspace_failed {
                    ClosingSave::FailExport
                } else if self.has_export_path {
                    ClosingSave::Export { generation }
                } else {
                    ClosingSave::Nothing
                }
            },
            None => ClosingSave::Nothing,
        }
    }
}

/// Closing leaves neither an edit nor a save behind, and every temporary pick
/// is answered.
pub proof fn closing_leaves_nothing_waiting<P, D, A>(
    state: CanvasState<P, D, A>,
    workspace_failed: bool,
)
    ensures
        ({
            let edited = state.closing_edit().0;
            let closed = edited.closing_save(workspace_failed).0;
            &&& closed.stroke.gesture.completed_edit is None
            &&& closed.stroke.gesture.completed_temporary_picker is None
            &&& closed.pending_save is None
            &&& state.stroke.gesture.completed_temporary_picker matches Some(sequence)
                ==> closed.stroke.effects.last() == InkEffect::CompleteTemporaryPick(sequence)
        }),
{
}

} // verus!
