//! The document that the window shows, and how it is closed, copied and
//! exchanged without ever leaving a durable one behind.
use vstd::prelude::*;

use crate::canvas::ExportStatus;
use crate::export::{close_result, CloseResult};
use crate::project_location::{ActivationError, Location, ProjectLocation};

verus! {

/// What the window holds of a canvas.
#[derive(Clone, Copy, Debug, PartialEq, Eq, Structural)]
pub enum CanvasSlot {
    Suspended,
    Active,
    Failed,
}

/// Work that the window waits for.
#[derive(Clone, Copy, Debug, PartialEq, Eq, Structural)]
pub struct WindowWork {
    pub close_worker: bool,
    pub save_as_worker: bool,
    pub performance_probe: bool,
}

pub struct SharedGpuCanvas {
    pub location: ProjectLocation,
    /// The document that may take over.
    pub candidate: Option<ProjectLocation>,
    pub slot: CanvasSlot,
    pub work: WindowWork,
    pub save_failure: Option<SaveAsFailure>,
    pub rendered_frames: u64,
    pub geometry_epoch: u64,
}

/// The mathematical content of a [`SharedGpuCanvas`].
pub struct WindowState {
    pub location: Location,
    pub candidate: Option<Location>,
    pub slot: CanvasSlot,
    pub work: WindowWork,
    pub save_failure: Option<SaveAsFailure>,
    pub rendered_frames: u64,
    pub geometry_epoch: u64,
}

pub open spec fn optional_location(location: Option<ProjectLocation>) -> Option<Location> {
    match location {
        Some(location) => Some(location@),
        None => None,
    }
}

impl View for SharedGpuCanvas {
    type V = WindowState;

    open spec fn view(&self) -> WindowState {
        WindowState {
            location: self.location@,
            candidate: optional_location(self.candidate),
            slot: self.slot,
            work: self.work,
            save_failure: self.save_failure,
            rendered_frames: self.rendered_frames,
            geometry_epoch: self.geometry_epoch,
        }
    }
}

/// Why the worker that closes the canvas failed.
#[derive(Clone, Copy, Debug, PartialEq, Eq, Structural)]
pub enum CloseFailure {
    NotStarted,
    Panicked,
}

impl CloseFailure {
    /// The workspace error; before the system's own words where the worker was
    /// not started.
    pub fn text(self) -> (r: &'static str)
        ensures
            self is NotStarted ==> r@ == "Close worker could not start: "@,
            self is Panicked ==> r@ == "Close worker panicked before completion"@,
    {
        match self {
            CloseFailure::NotStarted => "Close worker could not start: ",
            CloseFailure::Panicked => "Close worker panicked before completion",
        }
    }
}

/// Whether the close is over.
#[derive(Clone, Copy, Debug, PartialEq, Eq, Structural)]
pub enum ClosePoll {
    Wait,
    Publish { failure: Option<CloseFailure> },
}

/// What precedes the error where the source could not be opened again.
pub fn source_lost_lead() -> (r: &'static str)
    ensures
        r@ == "원본 다시 열기 실패: "@,
{
    "원본 다시 열기 실패: "
}

/// What closing asks of the host.
#[derive(Clone, Copy, Debug, PartialEq, Eq, Structural)]
pub enum CloseStep {
    /// A close is under way already.
    Wait,
    /// Apply the commands that were accepted before, then drop the canvas on a
    /// worker.
    DropCanvas,
    Publish(CloseResult),
}

pub open spec fn opened_slot(opened: bool) -> CanvasSlot {
    if opened { CanvasSlot::Active } else { CanvasSlot::Failed }
}

fn slot_for(opened: bool) -> (r: CanvasSlot)
    ensures
        r == opened_slot(opened),
{
    if opened {
        CanvasSlot::Active
    } else {
        CanvasSlot::Failed
    }
}

impl WindowState {
    pub open spec fn with_slot(self, slot: CanvasSlot) -> WindowState {
        WindowState { slot, ..self }
    }

    pub open spec fn with_work(self, work: WindowWork) -> WindowState {
        WindowState { work, ..self }
    }

    pub open spec fn without_probe(self) -> WindowState {
        self.with_work(WindowWork { performance_probe: false, ..self.work })
    }
}

impl SharedGpuCanvas {
    pub fn new(location: ProjectLocation) -> (r: Self)
        ensures
            r@ == (WindowState {
                location: location@,
                candidate: None,
                slot: CanvasSlot::Suspended,
                work: WindowWork {
                    close_worker: false,
                    save_as_worker: false,
                    performance_probe: false,
                },
                save_failure: None,
                rendered_frames: 0,
                geometry_epoch: 0,
            }),
    {
        SharedGpuCanvas {
            location,
            candidate: None,
            slot: CanvasSlot::Suspended,
            work: WindowWork {
                close_worker: false,
                save_as_worker: false,
                performance_probe: false,
            },
            save_failure: None,
            rendered_frames: 0,
            geometry_epoch: 0,
        }
    }

    pub fn set_geometry_epoch(&mut self, epoch: u64)
        ensures
            final(self)@ == (WindowState { geometry_epoch: epoch, ..old(self)@ }),
    {
        self.geometry_epoch = epoch;
    }

    /// A canvas was made for a device, or could not be made.
    pub fn resume(&mut self, opened: bool)
        ensures
            final(self)@ == old(self)@.with_slot(opened_slot(opened)),
    {
        self.slot = slot_for(opened);
    }

    /// Drops the canvas. Returns the work that has to be joined first; a copy
    /// that was joined reopens admission.
    pub fn suspend(&mut self) -> (joined: WindowWork)
        ensures
            joined == old(self)@.work,
            final(self)@ == old(self)@.with_slot(CanvasSlot::Suspended).with_work(
                WindowWork { close_worker: false, save_as_worker: false, ..old(self)@.work },
            ),
    {
        let joined = self.work;
        self.work = WindowWork { close_worker: false, save_as_worker: false, ..joined };
        self.slot = CanvasSlot::Suspended;
        joined
    }

    pub fn begin_close(&mut self, workspace_failed: bool, export: ExportStatus) -> (r: CloseStep)
        ensures
            old(self)@.work.close_worker ==> r is Wait && final(self)@ == old(
                self,
            )@.without_probe(),
            !old(self)@.work.close_worker ==> final(self)@ == old(
                self,
            )@.without_probe().with_slot(CanvasSlot::Suspended) && r == (if old(
                self,
            )@.slot is Active {
                CloseStep::DropCanvas
            } else {
                CloseStep::Publish(crate::export::closing(workspace_failed, export))
            }),
    {
        self.work = WindowWork { performance_probe: false, ..self.work };
        if self.work.close_worker {
            return CloseStep::Wait;
        }
        let active = self.slot == CanvasSlot::Active;
        self.slot = CanvasSlot::Suspended;
        if active {
            CloseStep::DropCanvas
        } else {
            CloseStep::Publish(close_result(workspace_failed, export))
        }
    }

    /// Whether the worker that drops the canvas could be started. Without it
    /// the workspace has failed and the close is published at once.
    pub fn close_worker_started(&mut self, started: bool) -> (failure: Option<CloseFailure>)
        ensures
            failure == (if started { None } else { Some(CloseFailure::NotStarted) }),
            final(self)@ == old(self)@.with_work(
                WindowWork {
                    close_worker: started || old(self)@.work.close_worker,
                    ..old(self)@.work
                },
            ),
    {
        if started {
            self.work = WindowWork { close_worker: true, ..self.work };
            return None;
        }
        Some(CloseFailure::NotStarted)
    }

    /// The close may be published once its worker has finished. A worker that
    /// panicked fails the workspace first.
    pub fn poll_close(&mut self, finished: bool, panicked: bool) -> (r: ClosePoll)
        ensures
            r == (if old(self)@.work.close_worker && finished {
                ClosePoll::Publish {
                    failure: if panicked { Some(CloseFailure::Panicked) } else { None },
                }
            } else {
                ClosePoll::Wait
            }),
            final(self)@ == (if r is Publish {
                old(self)@.with_work(WindowWork { close_worker: false, ..old(self)@.work })
            } else {
                old(self)@
            }),
    {
        if self.work.close_worker && finished {
            self.work = WindowWork { close_worker: false, ..self.work };
            return ClosePoll::Publish {
                failure: if panicked {
                    Some(CloseFailure::Panicked)
                } else {
                    None
                },
            };
        }
        ClosePoll::Wait
    }

    /// A failed close may be taken back once its worker is gone.
    pub fn may_reopen(&self, close_failed: bool) -> (r: bool)
        ensures
            r == (close_failed && !self@.work.close_worker),
    {
        close_failed && !self.work.close_worker
    }

    /// The canvas after a failed close was taken back. Where it cannot be
    /// opened the close is published again.
    pub fn reopen_after_close_failure(&mut self, opened: bool) -> (publish: bool)
        ensures
            publish == !opened,
            final(self)@ == (if opened {
                old(self)@.with_slot(CanvasSlot::Active)
            } else {
                old(self)@
            }),
    {
        if opened {
            self.slot = CanvasSlot::Active;
        }
        !opened
    }

    /// Counts a submitted frame. Returns whether it is the first one of a
    /// stored project, which starts the performance probe.
    pub fn frame_submitted(&mut self) -> (first: bool)
        ensures
            first == (old(self)@.rendered_frames == 0 && old(self)@.location is Explicit),
            final(self)@ == (WindowState {
                rendered_frames: crate::stroke_pipeline::saturating_next(
                    old(self)@.rendered_frames,
                ),
                ..old(self)@
            }),
    {
        self.rendered_frames = self.rendered_frames.saturating_add(1);
        self.rendered_frames == 1 && matches!(self.location, ProjectLocation::Explicit { .. })
    }
}

/// Why a copy under another name did not start. `Target` is the host's own
/// message.
#[derive(Clone, Copy, Debug, PartialEq, Eq, Structural)]
pub enum SaveAsRefusal {
    Target,
    Busy,
    NotReady,
    TransformPending,
    NotStarted,
}

impl SaveAsRefusal {
    /// The message, or what precedes the host's.
    pub fn text(self) -> (r: &'static str)
        ensures
            self is Target ==> r@ == ""@,
            self is Busy ==> r@ == "저장 중이거나 원본 저장에 실패했습니다"@,
            self is NotReady ==> r@ == "캔버스가 준비되지 않았습니다"@,
            self is TransformPending ==> r@
                == "변형을 확정하거나 취소한 뒤 저장하세요."@,
            self is NotStarted ==> r@ == "저장 작업 시작 실패: "@,
    {
        match self {
            SaveAsRefusal::Target => "",
            SaveAsRefusal::Busy => "저장 중이거나 원본 저장에 실패했습니다",
            SaveAsRefusal::NotReady => "캔버스가 준비되지 않았습니다",
            SaveAsRefusal::TransformPending =>
                "변형을 확정하거나 취소한 뒤 저장하세요.",
            SaveAsRefusal::NotStarted => "저장 작업 시작 실패: ",
        }
    }
}

/// What became of a copy that had started. A number is the host's message.
#[derive(Clone, Copy, Debug, PartialEq, Eq, Structural)]
pub enum SaveAsFailure {
    SourceNotSaved,
    CopyPanicked,
    WorkerGone,
    SourceFailed,
    Refused(u64),
    /// The copy is complete but could not be opened.
    CopyNotOpened,
}

impl SaveAsFailure {
    pub fn text(self) -> (r: &'static str)
        ensures
            self is SourceNotSaved ==> r@
                == "원본 프로젝트 저장에 실패해 다른 이름으로 저장을 중단했습니다"@,
            self is CopyPanicked ==> r@
                == "저장 작업이 예기치 않게 종료됐습니다. 원본을 확인해주세요"@,
            self is WorkerGone ==> r@ == "저장 작업이 예기치 않게 종료됐습니다"@,
            self is SourceFailed ==> r@ == "원본 저장 실패"@,
            self is Refused ==> r@ == ""@,
            self is CopyNotOpened ==> r@ == "복사본 열기 실패 (완료된 파일 유지): "@,
    {
        match self {
            SaveAsFailure::SourceNotSaved =>
                "원본 프로젝트 저장에 실패해 다른 이름으로 저장을 중단했습니다",
            SaveAsFailure::CopyPanicked =>
                "저장 작업이 예기치 않게 종료됐습니다. 원본을 확인해주세요",
            SaveAsFailure::WorkerGone => "저장 작업이 예기치 않게 종료됐습니다",
            SaveAsFailure::SourceFailed => "원본 저장 실패",
            SaveAsFailure::Refused(_) => "",
            SaveAsFailure::CopyNotOpened => "복사본 열기 실패 (완료된 파일 유지): ",
        }
    }
}

#[derive(Clone, Copy, Debug, PartialEq, Eq, Structural)]
pub enum SaveAsProgress {
    Start { target_valid: bool, workspace_failed: bool },
    /// The admitted samples and commands have been taken in.
    Rendered { transform_active: bool },
    Spawned { started: bool, workspace_failed: bool },
    Reopened(bool),
}

#[derive(Clone, Copy, Debug, PartialEq, Eq, Structural)]
pub enum SaveAsStep {
    RenderCanvas,
    /// Drop the canvas on a worker, then copy its closed project.
    SpawnCopy,
    /// Open the current document again, keeping a failed export.
    ReopenCurrent,
    Started,
    Refuse(SaveAsRefusal),
}

impl WindowState {
    pub open spec fn save_as_stepped(self, progress: SaveAsProgress) -> (WindowState, SaveAsStep) {
        match progress {
            SaveAsProgress::Start { target_valid, workspace_failed } => (
                self,
                if !target_valid {
                    SaveAsStep::Refuse(SaveAsRefusal::Target)
                } else if self.work.save_as_worker || workspace_failed {
                    SaveAsStep::Refuse(SaveAsRefusal::Busy)
                } else if !(self.slot is Active) {
                    SaveAsStep::Refuse(SaveAsRefusal::NotReady)
                } else {
                    SaveAsStep::RenderCanvas
                },
            ),
            SaveAsProgress::Rendered { transform_active } => if transform_active {
                (self, SaveAsStep::Refuse(SaveAsRefusal::TransformPending))
            } else {
                (
                    self.without_probe().with_slot(CanvasSlot::Suspended),
                    SaveAsStep::SpawnCopy,
                )
            },
            SaveAsProgress::Spawned { started, workspace_failed } => if started {
                (
                    self.with_work(WindowWork { save_as_worker: true, ..self.work }),
                    SaveAsStep::Started,
                )
            } else if workspace_failed {
                (self, SaveAsStep::Refuse(SaveAsRefusal::NotStarted))
            } else {
                (self, SaveAsStep::ReopenCurrent)
            },
            SaveAsProgress::Reopened(opened) => (
                self.with_slot(opened_slot(opened)),
                SaveAsStep::Refuse(SaveAsRefusal::NotStarted),
            ),
        }
    }
}

/// The copy worker's first decision: a source that was not saved is not copied.
pub fn copy_refusal(workspace_failed: bool) -> (r: Option<SaveAsFailure>)
    ensures
        r == (if workspace_failed { Some(SaveAsFailure::SourceNotSaved) } else { None }),
{
    if workspace_failed {
        Some(SaveAsFailure::SourceNotSaved)
    } else {
        None
    }
}

/// What the copy worker sent.
pub enum SaveAsAnswer {
    Empty,
    Disconnected,
    /// The copy is complete at this place.
    Copied(ProjectLocation),
    Refused(u64),
}

pub enum SaveAsEvent {
    Answer { answer: SaveAsAnswer, workspace_failed: bool },
    /// The document that was asked for was opened, or not.
    Opened(bool),
    Reopened(bool),
}

#[derive(Clone, Copy, Debug, PartialEq, Eq, Structural)]
pub enum SaveAsPoll {
    Idle,
    /// Reset the session and open the candidate.
    OpenCandidate,
    /// Reset the session and open the current document.
    OpenCurrent,
    /// The window has a document again. A failed export is kept where the
    /// store is the same. `source_lost` fails the workspace.
    Finish { keep_export_failure: bool, notice: Option<SaveAsFailure>, source_lost: bool },
    /// The source was not saved: nothing is reset or opened.
    Stop(SaveAsFailure),
}

impl WindowState {
    pub open spec fn copy_answered(self, answer: SaveAsAnswer, workspace_failed: bool) -> (
        WindowState,
        SaveAsPoll,
    ) {
        let joined = self.with_work(WindowWork { save_as_worker: false, ..self.work });
        if !self.work.save_as_worker || answer is Empty {
            (self, SaveAsPoll::Idle)
        } else {
            let failure = match answer {
                SaveAsAnswer::Refused(message) => Some(SaveAsFailure::Refused(message)),
                SaveAsAnswer::Disconnected => Some(SaveAsFailure::WorkerGone),
                _ => None,
            };
            if workspace_failed {
                (
                    joined.with_slot(CanvasSlot::Failed),
                    SaveAsPoll::Stop(
                        match failure {
                            Some(failure) => failure,
                            None => SaveAsFailure::SourceFailed,
                        },
                    ),
                )
            } else {
                match answer {
                    SaveAsAnswer::Copied(location) => (
                        WindowState {
                            candidate: Some(location@),
                            save_failure: None,
                            ..joined
                        },
                        SaveAsPoll::OpenCandidate,
                    ),
                    _ => (
                        WindowState { candidate: None, save_failure: failure, ..joined },
                        SaveAsPoll::OpenCurrent,
                    ),
                }
            }
        }
    }

    pub open spec fn save_as_polled(self, event: SaveAsEvent) -> (WindowState, SaveAsPoll) {
        match event {
            SaveAsEvent::Answer { answer, workspace_failed } => self.copy_answered(
                answer,
                workspace_failed,
            ),
            SaveAsEvent::Opened(opened) => if opened {
                match self.candidate {
                    Some(location) => (
                        WindowState {
                            location,
                            candidate: None,
                            save_failure: None,
                            slot: CanvasSlot::Active,
                            ..self
                        },
                        SaveAsPoll::Finish {
                            keep_export_failure: location.shares_storage(self.location),
                            notice: self.save_failure,
                            source_lost: false,
                        },
                    ),
                    None => (
                        WindowState { save_failure: None, slot: CanvasSlot::Active, ..self },
                        SaveAsPoll::Finish {
                            keep_export_failure: true,
                            notice: self.save_failure,
                            source_lost: false,
                        },
                    ),
                }
            } else {
                (
                    WindowState {
                        candidate: None,
                        save_failure: Some(SaveAsFailure::CopyNotOpened),
                        ..self
                    },
                    SaveAsPoll::OpenCurrent,
                )
            },
            SaveAsEvent::Reopened(opened) => (
                WindowState { save_failure: None, slot: opened_slot(opened), ..self },
                SaveAsPoll::Finish {
                    keep_export_failure: true,
                    notice: self.save_failure,
                    source_lost: !opened,
                },
            ),
        }
    }
}

impl SharedGpuCanvas {
    /// One step towards a copy under another name. The host starts with
    /// [`SaveAsProgress::Start`] and reports back until the copy has started
    /// or is refused.
    pub fn save_as(&mut self, progress: SaveAsProgress) -> (r: SaveAsStep)
        ensures
            (final(self)@, r) == old(self)@.save_as_stepped(progress),
    {
        match progress {
            SaveAsProgress::Start { target_valid, workspace_failed } => {
                if !target_valid {
                    SaveAsStep::Refuse(SaveAsRefusal::Target)
                } else if self.work.save_as_worker || workspace_failed {
                    SaveAsStep::Refuse(SaveAsRefusal::Busy)
                } else if self.slot != CanvasSlot::Active {
                    SaveAsStep::Refuse(SaveAsRefusal::NotReady)
                } else {
                    SaveAsStep::RenderCanvas
                }
            },
            SaveAsProgress::Rendered { transform_active } => {
                if transform_active {
                    return SaveAsStep::Refuse(SaveAsRefusal::TransformPending);
                }
                self.slot = CanvasSlot::Suspended;
                self.work = WindowWork { performance_probe: false, ..self.work };
                SaveAsStep::SpawnCopy
            },
            SaveAsProgress::Spawned { started, workspace_failed } => {
                if started {
                    self.work = WindowWork { save_as_worker: true, ..self.work };
                    SaveAsStep::Started
                } else if workspace_failed {
                    SaveAsStep::Refuse(SaveAsRefusal::NotStarted)
                } else {
                    SaveAsStep::ReopenCurrent
                }
            },
            SaveAsProgress::Reopened(opened) => {
                self.slot = slot_for(opened);
                SaveAsStep::Refuse(SaveAsRefusal::NotStarted)
            },
        }
    }

    fn take_copy_answer(&mut self, answer: SaveAsAnswer, workspace_failed: bool) -> (r: SaveAsPoll)
        ensures
            (final(self)@, r) == old(self)@.copy_answered(answer, workspace_failed),
    {
        if !self.work.save_as_worker || matches!(answer, SaveAsAnswer::Empty) {
            return SaveAsPoll::Idle;
        }
        self.work = WindowWork { save_as_worker: false, ..self.work };
        let failure = match answer {
            SaveAsAnswer::Refused(message) => Some(SaveAsFailure::Refused(message)),
            SaveAsAnswer::Disconnected => Some(SaveAsFailure::WorkerGone),
            _ => None,
        };
        // A failed durable write keeps its latch; the copy is never claimed.
        if workspace_failed {
            self.slot = CanvasSlot::Failed;
            return SaveAsPoll::Stop(
                match failure {
                    Some(failure) => failure,
                    None => SaveAsFailure::SourceFailed,
                },
            );
        }
        match answer {
            SaveAsAnswer::Copied(location) => {
                self.candidate = Some(location);
                self.save_failure = None;
                SaveAsPoll::OpenCandidate
            },
            _ => {
                self.candidate = None;
                self.save_failure = failure;
                SaveAsPoll::OpenCurrent
            },
        }
    }

    /// Takes what happened to a copy. The window moves to the copy only once
    /// it was opened; otherwise the source stays its document.
    pub fn poll_save_as(&mut self, event: SaveAsEvent) -> (r: SaveAsPoll)
        ensures
            (final(self)@, r) == old(self)@.save_as_polled(event),
    {
        match event {
            SaveAsEvent::Answer { answer, workspace_failed } => self.take_copy_answer(
                answer,
                workspace_failed,
            ),
            SaveAsEvent::Opened(opened) => {
                if !opened {
                    self.candidate = None;
                    self.save_failure = Some(SaveAsFailure::CopyNotOpened);
                    return SaveAsPoll::OpenCurrent;
                }
                let notice = self.save_failure;
                self.save_failure = None;
                self.slot = CanvasSlot::Active;
                let keep_export_failure = match self.candidate.take() {
                    Some(location) => {
                        let same = location.same_storage(&self.location);
                        self.location = location;
                        same
                    },
                    None => true,
                };
                SaveAsPoll::Finish { keep_export_failure, notice, source_lost: false }
            },
            SaveAsEvent::Reopened(opened) => {
                let notice = self.save_failure;
                self.save_failure = None;
                self.slot = slot_for(opened);
                SaveAsPoll::Finish { keep_export_failure: true, notice, source_lost: !opened }
            },
        }
    }
}

/// Why another document was not opened.
#[derive(Clone, Copy, Debug, PartialEq, Eq, Structural)]
pub enum ActivationRefusal {
    Busy,
    Unreadable,
    Unsupported,
    Preflight,
    Admission,
    SourceNotSaved,
    SourceExportFailed,
    /// The target could not be opened; the source is back.
    TargetNotOpened,
    /// Neither could be opened.
    NothingOpened,
}

impl ActivationRefusal {
    /// The message, where it is not the host's own.
    pub fn text(self) -> (r: Option<&'static str>)
        ensures
            match self {
                ActivationRefusal::Busy => r matches Some(text) && text@
                    == "저장 작업 또는 원본 저장 오류를 먼저 확인해주세요"@,
                ActivationRefusal::Unsupported => r matches Some(text) && text@
                    == "unsupported activation extension"@,
                ActivationRefusal::SourceNotSaved => r matches Some(text) && text@
                    == "원본 프로젝트 저장에 실패했습니다. 원본 경로와 오류를 유지합니다"@,
                ActivationRefusal::SourceExportFailed => r matches Some(text) && text@
                    == "원본 PNG 저장에 실패했습니다. 재시도하거나 다른 이름으로 저장해주세요"@,
                _ => r is None,
            },
    {
        match self {
            ActivationRefusal::Busy => Some(
                "저장 작업 또는 원본 저장 오류를 먼저 확인해주세요",
            ),
            ActivationRefusal::Unsupported => Some("unsupported activation extension"),
            ActivationRefusal::SourceNotSaved => Some(
                "원본 프로젝트 저장에 실패했습니다. 원본 경로와 오류를 유지합니다",
            ),
            ActivationRefusal::SourceExportFailed => Some(
                "원본 PNG 저장에 실패했습니다. 재시도하거나 다른 이름으로 저장해주세요",
            ),
            _ => None,
        }
    }
}

pub enum ActivationEvent {
    Start {
        saving_as: bool,
        workspace_failed: bool,
        target: Result<Option<ProjectLocation>, ActivationError>,
    },
    Preflighted(bool),
    /// Whether admission could be closed.
    Admitted(bool),
    /// The source was drained, its writer joined and its store released.
    Drained { workspace_failed: bool, export: ExportStatus },
    /// The source was opened again for its failed export.
    ExportRestored(bool),
    Opened(bool),
    Reopened(bool),
}

#[derive(Clone, Copy, Debug, PartialEq, Eq, Structural)]
pub enum ActivationStep {
    /// The document is shown already.
    Reused,
    Preflight,
    CloseAdmission,
    /// Take in what was admitted, then drop the canvas.
    DrainCanvas,
    /// Open the source again, keeping its failed export.
    RestoreForExport,
    OpenTarget,
    ReopenSource,
    Activated,
    Refuse(ActivationRefusal),
}

impl WindowState {
    pub open spec fn without_candidate(self) -> WindowState {
        WindowState { candidate: None, ..self }
    }

    /// The two documents change places.
    pub open spec fn exchanged(self) -> WindowState {
        match self.candidate {
            Some(target) => WindowState {
                location: target,
                candidate: Some(self.location),
                ..self
            },
            None => self,
        }
    }

    pub open spec fn activation_started(
        self,
        saving_as: bool,
        workspace_failed: bool,
        target: Result<Option<ProjectLocation>, ActivationError>,
    ) -> (WindowState, ActivationStep) {
        if saving_as || workspace_failed {
            (self, ActivationStep::Refuse(ActivationRefusal::Busy))
        } else {
            match target {
                Err(_) => (self, ActivationStep::Refuse(ActivationRefusal::Unreadable)),
                Ok(None) => (self, ActivationStep::Refuse(ActivationRefusal::Unsupported)),
                Ok(Some(target)) => if self.location.shares_storage(target@) {
                    (self, ActivationStep::Reused)
                } else {
                    (
                        WindowState { candidate: Some(target@), ..self },
                        ActivationStep::Preflight,
                    )
                },
            }
        }
    }

    pub open spec fn activation_stepped(self, event: ActivationEvent) -> (
        WindowState,
        ActivationStep,
    ) {
        match event {
            ActivationEvent::Start { saving_as, workspace_failed, target } =>
                self.activation_started(saving_as, workspace_failed, target),
            ActivationEvent::Preflighted(valid) => if valid {
                (self, ActivationStep::CloseAdmission)
            } else {
                (
                    self.without_candidate(),
                    ActivationStep::Refuse(ActivationRefusal::Preflight),
                )
            },
            ActivationEvent::Admitted(closed) => if closed {
                (
                    self.without_probe().with_slot(CanvasSlot::Suspended),
                    ActivationStep::DrainCanvas,
                )
            } else {
                (
                    self.without_candidate(),
                    ActivationStep::Refuse(ActivationRefusal::Admission),
                )
            },
            ActivationEvent::Drained { workspace_failed, export } => if workspace_failed {
                (
                    self.without_candidate().with_slot(CanvasSlot::Failed),
                    ActivationStep::Refuse(ActivationRefusal::SourceNotSaved),
                )
            } else if export is Failed {
                (self.without_candidate(), ActivationStep::RestoreForExport)
            } else {
                (self.exchanged(), ActivationStep::OpenTarget)
            },
            ActivationEvent::ExportRestored(opened) => (
                self.with_slot(opened_slot(opened)),
                ActivationStep::Refuse(ActivationRefusal::SourceExportFailed),
            ),
            ActivationEvent::Opened(opened) => if opened {
                (
                    self.without_candidate().with_slot(CanvasSlot::Active),
                    ActivationStep::Activated,
                )
            } else {
                (
                    self.exchanged().without_candidate(),
                    ActivationStep::ReopenSource,
                )
            },
            ActivationEvent::Reopened(opened) => (
                self.with_slot(opened_slot(opened)),
                ActivationStep::Refuse(
                    if opened {
                        ActivationRefusal::TargetNotOpened
                    } else {
                        ActivationRefusal::NothingOpened
                    },
                ),
            ),
        }
    }
}

impl SharedGpuCanvas {
    fn exchange(&mut self)
        ensures
            final(self)@ == old(self)@.exchanged(),
    {
        if let Some(target) = self.candidate.take() {
            let mut source = target;
            std::mem::swap(&mut source, &mut self.location);
            self.candidate = Some(source);
        }
    }

    fn start_activation(
        &mut self,
        saving_as: bool,
        workspace_failed: bool,
        target: Result<Option<ProjectLocation>, ActivationError>,
    ) -> (r: ActivationStep)
        ensures
            (final(self)@, r) == old(self)@.activation_started(
                saving_as,
                workspace_failed,
                target,
            ),
    {
        if saving_as || workspace_failed {
            return ActivationStep::Refuse(ActivationRefusal::Busy);
        }
        match target {
            Err(_) => ActivationStep::Refuse(ActivationRefusal::Unreadable),
            Ok(None) => ActivationStep::Refuse(ActivationRefusal::Unsupported),
            Ok(Some(target)) => {
                if self.location.same_storage(&target) {
                    return ActivationStep::Reused;
                }
                self.candidate = Some(target);
                ActivationStep::Preflight
            },
        }
    }

    /// One step towards another document. The target is checked while the
    /// source is still live, the source is drained before the target is
    /// opened, and a target that cannot be opened gives its place back.
    pub fn activate_project(&mut self, event: ActivationEvent) -> (r: ActivationStep)
        ensures
            (final(self)@, r) == old(self)@.activation_stepped(event),
    {
        match event {
            ActivationEvent::Start { saving_as, workspace_failed, target } => self.start_activation(
                saving_as,
                workspace_failed,
                target,
            ),
            ActivationEvent::Preflighted(valid) => {
                if valid {
                    return ActivationStep::CloseAdmission;
                }
                self.candidate = None;
                ActivationStep::Refuse(ActivationRefusal::Preflight)
            },
            ActivationEvent::Admitted(closed) => {
                if !closed {
                    self.candidate = None;
                    return ActivationStep::Refuse(ActivationRefusal::Admission);
                }
                self.work = WindowWork { performance_probe: false, ..self.work };
                self.slot = CanvasSlot::Suspended;
                ActivationStep::DrainCanvas
            },
            ActivationEvent::Drained { workspace_failed, export } => {
                if workspace_failed {
                    self.candidate = None;
                    self.slot = CanvasSlot::Failed;
                    return ActivationStep::Refuse(ActivationRefusal::SourceNotSaved);
                }
                if matches!(export, ExportStatus::Failed { .. }) {
                    self.candidate = None;
                    return ActivationStep::RestoreForExport;
                }
                self.exchange();
                ActivationStep::OpenTarget
            },
            ActivationEvent::ExportRestored(opened) => {
                self.slot = slot_for(opened);
                ActivationStep::Refuse(ActivationRefusal::SourceExportFailed)
            },
            ActivationEvent::Opened(opened) => {
                if opened {
                    self.candidate = None;
                    self.slot = CanvasSlot::Active;
                    return ActivationStep::Activated;
                }
                self.exchange();
                self.candidate = None;
                ActivationStep::ReopenSource
            },
            ActivationEvent::Reopened(opened) => {
                self.slot = slot_for(opened);
                ActivationStep::Refuse(
                    if opened {
                        ActivationRefusal::TargetNotOpened
                    } else {
                        ActivationRefusal::NothingOpened
                    },
                )
            },
        }
    }
}

/// A source that was not saved keeps its place: neither a copy nor another
/// document is claimed.
pub proof fn unsaved_sources_keep_their_place(
    state: WindowState,
    answer: SaveAsAnswer,
    export: ExportStatus,
)
    ensures
        state.copy_answered(answer, true).0.location == state.location,
        state.activation_stepped(
            ActivationEvent::Drained { workspace_failed: true, export },
        ).0.location == state.location,
        !(state.copy_answered(answer, true).1 is OpenCandidate),
        !(state.activation_stepped(
            ActivationEvent::Drained { workspace_failed: true, export },
        ).1 is OpenTarget),
{
}

/// Only an opened copy becomes the document of the window.
pub proof fn only_opened_copies_are_adopted(state: WindowState, event: SaveAsEvent)
    ensures
        state.save_as_polled(event).0.location != state.location ==> event == SaveAsEvent::Opened(
            true,
        ) && state.candidate == Some(state.save_as_polled(event).0.location),
{
}

/// A target that cannot be opened leaves the source as the document.
pub proof fn failed_activations_restore_the_source(
    state: WindowState,
    target: Location,
    export: ExportStatus,
    reopened: bool,
)
    requires
        state.candidate == Some(target),
        !(export is Failed),
    ensures
        ({
            let drained = state.activation_stepped(
                ActivationEvent::Drained { workspace_failed: false, export },
            ).0;
            let failed = drained.activation_stepped(ActivationEvent::Opened(false)).0;
            let restored = failed.activation_stepped(ActivationEvent::Reopened(reopened)).0;
            &&& drained.location == target
            &&& failed.location == state.location
            &&& restored.location == state.location
            &&& restored.candidate is None
            &&& restored.slot == opened_slot(reopened)
        }),
{
}

/// A document that is already shown is never closed for itself.
pub proof fn current_documents_are_reused(state: WindowState, target: ProjectLocation)
    requires
        state.location.shares_storage(target@),
    ensures
        state.activation_started(false, false, Ok(Some(target))) == (state, ActivationStep::Reused),
{
}

} // verus!
