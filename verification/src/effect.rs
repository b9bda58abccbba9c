//! What the core asks of the host: notices, failures and bridge calls.
use vstd::prelude::*;

use crate::command::CommandRejectReason;
use crate::document::LayerId;
use crate::input::PickSequence;
use crate::transform::TransformRefusal;

verus! {

/// A failure that latches the workspace.
#[derive(Clone, Copy, Debug, PartialEq, Eq, Structural)]
pub enum WorkspaceFailure {
    BacklogFull,
    SealLimit,
    SealWriterStopped,
    WriterStopped,
    AtlasExhausted,
}

impl WorkspaceFailure {
    pub fn message(self) -> (r: String)
        ensures
            self is BacklogFull ==> r@
                == "Drawing stopped because the durable stroke backlog is full"@,
            self is SealLimit ==> r@
                == "The active stroke exceeded its safe recording limits and could not be sealed on close"@,
            self is SealWriterStopped ==> r@
                == "The project writer stopped before the active stroke could be saved on close"@,
            self is WriterStopped ==> r@
                == "The project writer stopped before all accepted artwork was saved"@,
            self is AtlasExhausted ==> r@
                == "Visible workspace tiles exceeded the GPU atlas capacity; drawing was stopped to prevent invisible edits"@,
    {
        let text = match self {
            WorkspaceFailure::BacklogFull =>
                "Drawing stopped because the durable stroke backlog is full",
            WorkspaceFailure::SealLimit =>
                "The active stroke exceeded its safe recording limits and could not be sealed on close",
            WorkspaceFailure::SealWriterStopped =>
                "The project writer stopped before the active stroke could be saved on close",
            WorkspaceFailure::WriterStopped =>
                "The project writer stopped before all accepted artwork was saved",
            WorkspaceFailure::AtlasExhausted =>
                "Visible workspace tiles exceeded the GPU atlas capacity; drawing was stopped to prevent invisible edits",
        };
        text.to_owned()
    }
}

/// A message for the person drawing that latches nothing.
#[derive(Clone, Copy, Debug, PartialEq, Eq, Structural)]
pub enum Notice {
    InvalidPosition,
    InputGapTooLarge,
    TransformPending,
}

impl Notice {
    pub fn message(self) -> (r: String)
        ensures
            self is InvalidPosition ==> r@
                == "잘못된 입력 좌표로 현재 선을 취소했습니다. 다시 그려주세요."@,
            self is InputGapTooLarge ==> r@
                == "입력 간격이 너무 커 현재 선을 취소했습니다. 다시 그려주세요."@,
            self is TransformPending ==> r@ == "변형을 확정하거나 취소한 뒤 작업하세요."@,
    {
        let text = match self {
            Notice::InvalidPosition =>
                "잘못된 입력 좌표로 현재 선을 취소했습니다. 다시 그려주세요.",
            Notice::InputGapTooLarge =>
                "입력 간격이 너무 커 현재 선을 취소했습니다. 다시 그려주세요.",
            Notice::TransformPending => "변형을 확정하거나 취소한 뒤 작업하세요.",
        };
        text.to_owned()
    }
}

/// A call that the host makes on the live-ink bridge or the brush engine, in
/// the order in which the core asked for it.
#[derive(Clone, Copy, Debug, PartialEq, Eq, Structural)]
pub enum InkEffect {
    /// A temporary pick has been answered or given up.
    CompleteTemporaryPick(PickSequence),
    /// The picker overlay disappears.
    ClearPickerSnapshot,
    PublishWorkspaceFailure(WorkspaceFailure),
    PublishNotice(Notice),
    PublishTransformRefusal(TransformRefusal),
    /// The latest transform could not be brought to the worker.
    PublishTransformFailure(CommandRejectReason),
    /// The brush engine drops the stroke of this generation.
    DiscardStroke(u64),
    RequestRedraw,
    SetNavigationTool(bool),
    SetAdmissionLayer(LayerId),
    ResumeAfterEdit,
}

} // verus!
