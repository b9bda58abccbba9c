//! The paced input of performance runs on marked scratch documents.
use vstd::prelude::*;

use crate::canvas::ExportStatus;
use crate::document::CanvasSpec;
use crate::performance_workload::STROKES;

verus! {

#[derive(Clone, Copy, Debug, PartialEq, Eq, Structural)]
pub enum Scenario {
    Baseline,
    Export,
}

#[derive(Clone, Copy, Debug, PartialEq, Eq, Structural)]
pub enum ProbeError {
    CancelledOrFailed,
    StartMarkerTimeout,
    ConditionTimeout,
    NotFresh,
    /// The canvas took no tool command, no save or no sample.
    ToolAdmission,
    SaveAdmission,
    InputAdmission,
}

impl ProbeError {
    /// The reason, or what precedes the host's.
    pub fn text(self) -> (r: &'static str)
        ensures
            self is CancelledOrFailed ==> r@ == "cancelled-or-workspace-failed"@,
            self is StartMarkerTimeout ==> r@ == "start-marker-timeout"@,
            self is ConditionTimeout ==> r@ == "condition-timeout"@,
            self is NotFresh ==> r@ == "requires-fresh-initial-fixture"@,
            self is ToolAdmission ==> r@ == "tool-admission:"@,
            self is SaveAdmission ==> r@ == "save-admission:"@,
            self is InputAdmission ==> r@ == "input-admission:"@,
    {
        match self {
            ProbeError::CancelledOrFailed => "cancelled-or-workspace-failed",
            ProbeError::StartMarkerTimeout => "start-marker-timeout",
            ProbeError::ConditionTimeout => "condition-timeout",
            ProbeError::NotFresh => "requires-fresh-initial-fixture",
            ProbeError::ToolAdmission => "tool-admission:",
            ProbeError::SaveAdmission => "save-admission:",
            ProbeError::InputAdmission => "input-admission:",
        }
    }
}

/// What has to hold before a probe may touch a document.
#[derive(Clone, Copy, Debug, PartialEq, Eq, Structural)]
pub struct ProbeFacts {
    pub scenario: Option<Scenario>,
    pub measuring: bool,
    /// The project has the scratch name and lies beside the scratch mark.
    pub scratch_name: bool,
    pub scratch_mark: bool,
    pub canvas: CanvasSpec,
    /// A probe already ran in this process.
    pub used: bool,
}

pub open spec fn may_start(facts: ProbeFacts) -> bool {
    &&& facts.scenario is Some
    &&& facts.measuring
    &&& facts.scratch_name
    &&& facts.scratch_mark
    &&& facts.canvas == crate::performance_workload::workload_page()
    &&& !facts.used
}

/// Whether a probe starts. It runs once, and only on a marked scratch document.
pub fn start(facts: ProbeFacts) -> (r: Option<Scenario>)
    ensures
        r == (if may_start(facts) { facts.scenario } else { None }),
{
    let page = crate::performance_workload::canvas();
    if facts.measuring && facts.scratch_name && facts.scratch_mark && facts.canvas == page
        && !facts.used {
        facts.scenario
    } else {
        None
    }
}

/// The probe goes on only while nothing was cancelled or has failed.
pub fn healthy(stopped: bool, closing: bool, workspace_failed: bool) -> (r: Result<(), ProbeError>)
    ensures
        r is Ok <==> !stopped && !closing && !workspace_failed,
        r matches Err(error) ==> error is CancelledOrFailed,
{
    if stopped || closing || workspace_failed {
        return Err(ProbeError::CancelledOrFailed);
    }
    Ok(())
}

/// Nanoseconds after which the start marker is given up.
pub const START_TIMEOUT_NS: u128 = 120_000_000_000;

/// Nanoseconds after which a condition is given up.
pub const CONDITION_TIMEOUT_NS: u128 = 20_000_000_000;

pub open spec fn waited(
    health: Result<(), ProbeError>,
    ready: bool,
    elapsed_ns: u128,
    limit_ns: u128,
    timeout: ProbeError,
) -> Result<bool, ProbeError> {
    match health {
        Err(error) => Err(error),
        Ok(_) => if ready {
            Ok(true)
        } else if elapsed_ns > limit_ns {
            Err(timeout)
        } else {
            Ok(false)
        },
    }
}

/// One look at the start marker: done, not yet, or given up.
pub fn await_start(health: Result<(), ProbeError>, marked: bool, elapsed_ns: u128) -> (r: Result<
    bool,
    ProbeError,
>)
    ensures
        r == waited(health, marked, elapsed_ns, START_TIMEOUT_NS, ProbeError::StartMarkerTimeout),
{
    match health {
        Err(error) => Err(error),
        Ok(_) => {
            if marked {
                Ok(true)
            } else if elapsed_ns > START_TIMEOUT_NS {
                Err(ProbeError::StartMarkerTimeout)
            } else {
                Ok(false)
            }
        },
    }
}

/// One look at a condition: done, not yet, or given up.
pub fn wait(health: Result<(), ProbeError>, ready: bool, elapsed_ns: u128) -> (r: Result<
    bool,
    ProbeError,
>)
    ensures
        r == waited(health, ready, elapsed_ns, CONDITION_TIMEOUT_NS, ProbeError::ConditionTimeout),
{
    match health {
        Err(error) => Err(error),
        Ok(_) => {
            if ready {
                Ok(true)
            } else if elapsed_ns > CONDITION_TIMEOUT_NS {
                Err(ProbeError::ConditionTimeout)
            } else {
                Ok(false)
            }
        },
    }
}

impl ExportStatus {
    pub open spec fn numbered(self) -> u64 {
        match self {
            ExportStatus::Idle => 0,
            ExportStatus::Waiting { generation } => generation,
            ExportStatus::Queued { generation } => generation,
            ExportStatus::Running { generation } => generation,
            ExportStatus::Current { generation } => generation,
            ExportStatus::Failed { generation } => generation,
        }
    }

    /// The generation that the status speaks of.
    pub fn generation(self) -> (r: u64)
        ensures
            r == self.numbered(),
    {
        match self {
            ExportStatus::Idle => 0,
            ExportStatus::Waiting { generation } => generation,
            ExportStatus::Queued { generation } => generation,
            ExportStatus::Running { generation } => generation,
            ExportStatus::Current { generation } => generation,
            ExportStatus::Failed { generation } => generation,
        }
    }
}

/// Whether a save that was asked for has come far enough: it runs, or it is
/// done.
pub fn save(status: ExportStatus, old_generation: u64, wait_for_start: bool) -> (ready: bool)
    ensures
        ready == (status.numbered() > old_generation && (if wait_for_start {
            status is Running
        } else {
            status is Current
        })),
{
    let newer = status.generation() > old_generation;
    if wait_for_start {
        newer && matches!(status, ExportStatus::Running { .. })
    } else {
        newer && matches!(status, ExportStatus::Current { .. })
    }
}

/// The steps of a run.
#[derive(Clone, Copy, Debug, PartialEq, Eq, Structural)]
pub enum RunStage {
    CheckFresh,
    SelectBrush,
    SetSize,
    SetOpacity,
    SetColor,
    /// Save, and go on once the export runs.
    SaveBeforeStroke(u32),
    Stroke(u32),
    /// Wait until the history holds the stroke.
    AwaitHistory(u32),
    FinalSave,
    Done,
}

pub open spec fn begun_stroke(stroke: u32, scenario: Scenario) -> RunStage {
    if stroke >= STROKES {
        RunStage::FinalSave
    } else if scenario is Export {
        RunStage::SaveBeforeStroke(stroke)
    } else {
        RunStage::Stroke(stroke)
    }
}

impl RunStage {
    pub open spec fn followed_by(self, scenario: Scenario) -> RunStage {
        match self {
            RunStage::CheckFresh => RunStage::SelectBrush,
            RunStage::SelectBrush => RunStage::SetSize,
            RunStage::SetSize => RunStage::SetOpacity,
            RunStage::SetOpacity => RunStage::SetColor,
            RunStage::SetColor => begun_stroke(0, scenario),
            RunStage::SaveBeforeStroke(stroke) => RunStage::Stroke(stroke),
            RunStage::Stroke(stroke) => RunStage::AwaitHistory(stroke),
            RunStage::AwaitHistory(stroke) => if stroke < STROKES {
                begun_stroke((stroke + 1) as u32, scenario)
            } else {
                RunStage::FinalSave
            },
            RunStage::FinalSave => RunStage::Done,
            RunStage::Done => RunStage::Done,
        }
    }
}

fn begin_stroke(stroke: u32, scenario: Scenario) -> (r: RunStage)
    ensures
        r == begun_stroke(stroke, scenario),
{
    if stroke >= STROKES {
        RunStage::FinalSave
    } else {
        match scenario {
            Scenario::Export => RunStage::SaveBeforeStroke(stroke),
            Scenario::Baseline => RunStage::Stroke(stroke),
        }
    }
}

/// What follows a finished step of a run.
pub fn run(stage: RunStage, scenario: Scenario) -> (r: RunStage)
    ensures
        r == stage.followed_by(scenario),
{
    match stage {
        RunStage::CheckFresh => RunStage::SelectBrush,
        RunStage::SelectBrush => RunStage::SetSize,
        RunStage::SetSize => RunStage::SetOpacity,
        RunStage::SetOpacity => RunStage::SetColor,
        RunStage::SetColor => begin_stroke(0, scenario),
        RunStage::SaveBeforeStroke(stroke) => RunStage::Stroke(stroke),
        RunStage::Stroke(stroke) => RunStage::AwaitHistory(stroke),
        RunStage::AwaitHistory(stroke) => {
            if stroke < STROKES {
                begin_stroke(stroke + 1, scenario)
            } else {
                RunStage::FinalSave
            }
        },
        RunStage::FinalSave => RunStage::Done,
        RunStage::Done => RunStage::Done,
    }
}

/// A run needs a fresh fixture: two history entries and no branch to redo.
pub fn is_fresh(history_entries: usize, redo_branches: usize) -> (r: bool)
    ensures
        r == (history_entries == 2 && redo_branches == 0),
{
    history_entries == 2 && redo_branches == 0
}

/// The history entries after a stroke of the run.
pub fn expected_entries(stroke: u32) -> (r: usize)
    requires
        stroke + 3 <= usize::MAX,
    ensures
        r == stroke + 3,
{
    stroke as usize + 3
}

/// Documents of users are never touched by a probe.
pub proof fn probes_touch_only_scratch(facts: ProbeFacts)
    requires
        !(facts.scratch_name && facts.scratch_mark),
    ensures
        !may_start(facts),
{
}

} // verus!
