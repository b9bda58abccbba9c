//! Exports: one generation gate, the order in which an image is replaced, and
//! what closing reports of it.
use vstd::prelude::*;
use vstd::string::*;

use crate::canvas::{ActiveCanvas, CanvasState, ExportStatus};
use crate::closed_queue::{offered, queued, WriterReply};
use crate::decimal::to_decimal;
use crate::file_path::FilePath;
use crate::stroke::ClosedStroke;

verus! {

/// Serialises export requests with the final replacement: an image accepted
/// before the check is never overwritten by an older one, and one accepted
/// afterwards replaces it in turn.
#[derive(Clone, Copy, Debug, PartialEq, Eq, Structural)]
pub struct ExportGenerationGate {
    pub next: u64,
    pub latest: u64,
}

impl ExportGenerationGate {
    pub open spec fn wf(self) -> bool {
        self.latest <= self.next
    }

    pub open spec fn accepting(self, generation: u64) -> ExportGenerationGate {
        ExportGenerationGate { next: generation, latest: generation }
    }

    pub fn new() -> (r: Self)
        ensures
            r == (ExportGenerationGate { next: 0, latest: 0 }),
            r.wf(),
    {
        ExportGenerationGate { next: 0, latest: 0 }
    }

    pub fn next_generation(&self) -> (r: Result<u64, ()>)
        ensures
            match r {
                Ok(generation) => generation == self.next + 1,
                Err(_) => self.next == u64::MAX,
            },
    {
        match self.next.checked_add(1) {
            Some(generation) => Ok(generation),
            None => Err(()),
        }
    }

    pub fn accept_submission(&mut self, generation: u64)
        requires
            generation > old(self).latest,
        ensures
            *final(self) == old(self).accepting(generation),
            final(self).wf(),
    {
        self.next = generation;
        self.latest = generation;
    }

    pub fn is_current(&self, generation: u64) -> (r: bool)
        ensures
            r == (generation == self.latest),
    {
        generation == self.latest
    }

    /// Takes the next generation and makes it the latest at once, even while
    /// its request still waits. The status to show is returned with it.
    pub fn reserve_export(&mut self) -> (r: Result<ExportStatus, ()>)
        requires
            old(self).wf(),
        ensures
            final(self).wf(),
            match r {
                Ok(status) => {
                    &&& old(self).next < u64::MAX
                    &&& *final(self) == old(self).accepting((old(self).next + 1) as u64)
                    &&& status == (ExportStatus::Waiting { generation: final(self).latest })
                },
                Err(_) => old(self).next == u64::MAX && *final(self) == *old(self),
            },
    {
        match self.next_generation() {
            Ok(generation) => {
                self.accept_submission(generation);
                Ok(ExportStatus::Waiting { generation })
            },
            Err(_) => Err(()),
        }
    }
}

/// Generations rise with every accepted submission, and an older one is never
/// current again.
pub proof fn superseded_exports_stay_superseded(
    gate: ExportGenerationGate,
    older: u64,
    newer: u64,
    later: u64,
)
    requires
        gate.wf(),
        older <= gate.latest,
        gate.latest < newer,
        newer <= later,
    ensures
        gate.accepting(newer).latest != older,
        gate.accepting(newer).accepting(later).latest != older,
        gate.accepting(newer).next > gate.latest,
{
}

/// How far the replacement of an image has come.
#[derive(Clone, Copy, Debug, PartialEq, Eq, Structural)]
pub enum ExportProgress {
    Start,
    Composited(bool),
    Encoded(bool),
    Synced(bool),
    /// Under the lock on the generations: the latest accepted one.
    GateHeld { latest: u64 },
    Replaced(bool),
}

#[derive(Clone, Copy, Debug, PartialEq, Eq, Structural)]
pub enum ExportFailure {
    Composite,
    Encode,
    Sync,
    Replace,
}

impl ExportFailure {
    /// What precedes the host's message.
    pub fn lead(self) -> (r: &'static str)
        ensures
            r@ == (match self {
                ExportFailure::Composite => "composite:"@,
                ExportFailure::Encode => "encode:"@,
                ExportFailure::Sync => "sync:"@,
                ExportFailure::Replace => "replace:"@,
            }),
    {
        match self {
            ExportFailure::Composite => "composite:",
            ExportFailure::Encode => "encode:",
            ExportFailure::Sync => "sync:",
            ExportFailure::Replace => "replace:",
        }
    }
}

#[derive(Clone, Copy, Debug, PartialEq, Eq, Structural)]
pub enum ExportPngOutcome {
    Replaced,
    Superseded { latest: u64 },
    Failed(ExportFailure),
}

#[derive(Clone, Copy, Debug, PartialEq, Eq, Structural)]
pub enum ExportStep {
    Composite,
    Encode,
    Sync,
    /// Take the lock on the generations and keep it until the replacement is done.
    HoldGate,
    Replace,
    /// Remove the unfinished file, then report.
    RemoveAndFinish(ExportPngOutcome),
    Finish(ExportPngOutcome),
}

pub open spec fn export_stepped(generation: u64, progress: ExportProgress) -> ExportStep {
    match progress {
        ExportProgress::Start => ExportStep::Composite,
        ExportProgress::Composited(ok) => if ok {
            ExportStep::Encode
        } else {
            ExportStep::Finish(ExportPngOutcome::Failed(ExportFailure::Composite))
        },
        ExportProgress::Encoded(ok) => if ok {
            ExportStep::Sync
        } else {
            ExportStep::RemoveAndFinish(ExportPngOutcome::Failed(ExportFailure::Encode))
        },
        ExportProgress::Synced(ok) => if ok {
            ExportStep::HoldGate
        } else {
            ExportStep::RemoveAndFinish(ExportPngOutcome::Failed(ExportFailure::Sync))
        },
        ExportProgress::GateHeld { latest } => if latest == generation {
            ExportStep::Replace
        } else {
            ExportStep::RemoveAndFinish(ExportPngOutcome::Superseded { latest })
        },
        ExportProgress::Replaced(ok) => if ok {
            ExportStep::Finish(ExportPngOutcome::Replaced)
        } else {
            ExportStep::RemoveAndFinish(ExportPngOutcome::Failed(ExportFailure::Replace))
        },
    }
}

/// One step of an export. The image is replaced only under the lock on the
/// generations and only by the latest one.
pub fn export_current_png(generation: u64, progress: ExportProgress) -> (r: ExportStep)
    ensures
        r == export_stepped(generation, progress),
{
    match progress {
        ExportProgress::Start => ExportStep::Composite,
        ExportProgress::Composited(ok) => {
            if ok {
                ExportStep::Encode
            } else {
                ExportStep::Finish(ExportPngOutcome::Failed(ExportFailure::Composite))
            }
        },
        ExportProgress::Encoded(ok) => {
            if ok {
                ExportStep::Sync
            } else {
                ExportStep::RemoveAndFinish(ExportPngOutcome::Failed(ExportFailure::Encode))
            }
        },
        ExportProgress::Synced(ok) => {
            if ok {
                ExportStep::HoldGate
            } else {
                ExportStep::RemoveAndFinish(ExportPngOutcome::Failed(ExportFailure::Sync))
            }
        },
        ExportProgress::GateHeld { latest } => {
            if latest == generation {
                ExportStep::Replace
            } else {
                ExportStep::RemoveAndFinish(ExportPngOutcome::Superseded { latest })
            }
        },
        ExportProgress::Replaced(ok) => {
            if ok {
                ExportStep::Finish(ExportPngOutcome::Replaced)
            } else {
                ExportStep::RemoveAndFinish(ExportPngOutcome::Failed(ExportFailure::Replace))
            }
        },
    }
}

/// A superseded export never replaces the image, whatever came before.
pub proof fn only_the_latest_export_replaces(generation: u64, progress: ExportProgress)
    ensures
        export_stepped(generation, progress) is Replace <==> progress
            == (ExportProgress::GateHeld { latest: generation }),
{
}

/// The status that an export ends with; a superseded one leaves the status of
/// its successor alone.
pub fn finished_export_status(generation: u64, outcome: ExportPngOutcome) -> (r: Option<
    ExportStatus,
>)
    ensures
        r == (match outcome {
            ExportPngOutcome::Replaced => Some(ExportStatus::Current { generation }),
            ExportPngOutcome::Superseded { latest } => None,
            ExportPngOutcome::Failed(_) => Some(ExportStatus::Failed { generation }),
        }),
{
    match outcome {
        ExportPngOutcome::Replaced => Some(ExportStatus::Current { generation }),
        ExportPngOutcome::Superseded { .. } => None,
        ExportPngOutcome::Failed(_) => Some(ExportStatus::Failed { generation }),
    }
}

/// The name of the unfinished file next to the image.
pub open spec fn temporary_name(
    file_name: Option<Seq<char>>,
    process: u128,
    sequence: u128,
) -> Seq<char> {
    "."@ + (match file_name {
        Some(name) => name,
        None => "export.png"@,
    }) + ".~tmp-"@ + crate::decimal::decimal(process as nat) + "-"@ + crate::decimal::decimal(
        sequence as nat,
    )
}

pub fn export_temporary_name(file_name: Option<String>, process: u128, sequence: u128) -> (r:
    String)
    ensures
        r@ == temporary_name(
            match file_name {
                Some(name) => Some(name@),
                None => None,
            },
            process,
            sequence,
        ),
{
    let mut name = ".".to_owned();
    match &file_name {
        Some(given) => {
            name.append(given.as_str());
        },
        None => {
            name.append("export.png");
        },
    }
    name.append(".~tmp-");
    name.append(to_decimal(process).as_str());
    name.append("-");
    name.append(to_decimal(sequence).as_str());
    name
}

/// What the file system tells of an exported file.
#[derive(Clone, Copy, Debug, PartialEq, Eq, Structural)]
pub struct FileFacts {
    pub is_file: bool,
    pub bytes: u64,
    pub modified_ns: u128,
}

/// Which snapshot a file was exported from, and what it looked like then.
pub struct ExportReceipt {
    pub snapshot: u128,
    pub path: FilePath,
    pub bytes: u64,
    pub modified_ns: u128,
}

impl ExportReceipt {
    pub fn capture(snapshot: u128, path: &FilePath, facts: Option<FileFacts>) -> (r: Option<Self>)
        ensures
            match r {
                Some(receipt) => {
                    &&& facts matches Some(found) && found.is_file && receipt.bytes == found.bytes
                        && receipt.modified_ns == found.modified_ns
                    &&& receipt.snapshot == snapshot
                    &&& receipt.path@ == path@
                },
                None => facts matches Some(found) ==> !found.is_file,
            },
    {
        match facts {
            Some(found) => {
                if found.is_file {
                    Some(
                        ExportReceipt {
                            snapshot,
                            path: path.copy(),
                            bytes: found.bytes,
                            modified_ns: found.modified_ns,
                        },
                    )
                } else {
                    None
                }
            },
            None => None,
        }
    }

    /// The file is still the one that was exported from this snapshot.
    pub fn matches(&self, snapshot: u128, path: &FilePath, facts: Option<FileFacts>) -> (r: bool)
        ensures
            r == (self.snapshot == snapshot && self.path@.same(path@) && (facts matches Some(found)
                && found.is_file && found.bytes == self.bytes && found.modified_ns
                == self.modified_ns)),
    {
        self.snapshot == snapshot && self.path.same(path) && match facts {
            Some(found) => found.is_file && found.bytes == self.bytes && found.modified_ns
                == self.modified_ns,
            None => false,
        }
    }
}

/// What closing reports.
#[derive(Clone, Copy, Debug, PartialEq, Eq, Structural)]
pub enum CloseResult {
    Ready,
    Failed { project_saved: bool },
}

pub open spec fn closing(workspace_failed: bool, export: ExportStatus) -> CloseResult {
    if workspace_failed || export is Failed {
        CloseResult::Failed { project_saved: !workspace_failed }
    } else {
        CloseResult::Ready
    }
}

/// Closing is ready exactly where the project is saved and no export failed.
pub fn close_result(workspace_failed: bool, export: ExportStatus) -> (r: CloseResult)
    ensures
        r == closing(workspace_failed, export),
{
    let export_failed = matches!(export, ExportStatus::Failed { .. });
    if workspace_failed || export_failed {
        CloseResult::Failed { project_saved: !workspace_failed }
    } else {
        CloseResult::Ready
    }
}

/// Why an export request found no place.
#[derive(Clone, Copy, Debug, PartialEq, Eq, Structural)]
pub enum ExportEnqueueError {
    Busy,
    Disconnected,
}

impl<P, D, A> CanvasState<P, D, A> {
    /// A save waits for the current stroke, for waiting closed strokes and for
    /// the artwork job, so that its image holds all of them.
    pub open spec fn save_ready(self) -> bool {
        &&& self.pending_save is Some
        &&& self.artwork_job is None
        &&& self.stroke.active is None
        &&& self.stroke.backlog.len() == 0
        &&& self.has_export_path
    }

    /// The save that goes to the writer now.
    pub open spec fn save_flushed(self) -> Option<u64> {
        if self.save_ready() { self.pending_save } else { None }
    }
}

impl<P: Copy, D, A> ActiveCanvas<P, D, A> {
    /// The save to bring to the writer now, if it may go.
    pub fn flush_pending_save(&self) -> (r: Option<u64>)
        ensures
            r == self@.save_flushed(),
    {
        let generation: u64 = match self.pending_save {
            Some(generation) => generation,
            None => {
                return None;
            },
        };
        if self.artwork_job.is_some() || self.stroke.active.is_some()
            || self.stroke.pending_materializations.len() > 0 || !self.has_export_path {
            return None;
        }
        Some(generation)
    }

    /// Takes the writer's answer. An accepted save makes the document clean; a
    /// busy writer is asked again; a lost one fails the export. Returns the
    /// status to show, if it changed.
    pub fn save_enqueued(&mut self, generation: u64, result: Result<(), ExportEnqueueError>) -> (r:
        Option<ExportStatus>)
        ensures
            match result {
                Ok(_) => r == Some(ExportStatus::Queued { generation }) && final(self)@ == (
                CanvasState { pending_save: None, ..old(self)@ }),
                Err(ExportEnqueueError::Busy) => r is None && final(self)@ == old(self)@,
                Err(ExportEnqueueError::Disconnected) => r == Some(
                    ExportStatus::Failed { generation },
                ) && final(self)@ == (CanvasState { pending_save: None, ..old(self)@ }),
            },
    {
        match result {
            Ok(_) => {
                self.pending_save = None;
                Some(ExportStatus::Queued { generation })
            },
            Err(ExportEnqueueError::Busy) => None,
            Err(ExportEnqueueError::Disconnected) => {
                self.pending_save = None;
                Some(ExportStatus::Failed { generation })
            },
        }
    }
}

/// A save never goes before a stroke that is open or waits for the writer: not
/// while a stroke is drawn, not after one closed behind others, and not after
/// the writer refused one.
pub proof fn saves_follow_closed_strokes<P, D, A>(
    state: CanvasState<P, D, A>,
    closed: ClosedStroke<P, A>,
    refusal: WriterReply<P, A>,
)
    requires
        !(refusal is Enqueued),
    ensures
        state.stroke.active is Some ==> state.save_flushed() is None,
        state.stroke.backlog.len() > 0 ==> (CanvasState {
            stroke: state.stroke.with_backlog(queued(state.stroke.backlog, closed).0),
            ..state
        }).save_flushed() is None,
        (CanvasState { stroke: state.stroke.replied(refusal), ..state }).save_flushed() is None,
        state.save_flushed() is Some ==> offered(state.stroke.backlog).1 is None,
{
}

} // verus!
