//! What an export leaves behind: when the image is replaced, what becomes of
//! the unfinished file, and what is reported of it.
use vstd::prelude::*;

use crate::canvas::{ActiveCanvas, CanvasState, ExportStatus};
use crate::export::{
    closing, export_stepped, finished_export_status, CloseResult, ExportEnqueueError, ExportFailure,
    ExportGenerationGate, ExportPngOutcome, ExportProgress, ExportReceipt, ExportStep, FileFacts,
};
use crate::file_path::FilePath;

verus! {

/// The report that a step ends the export with.
pub open spec fn reported(step: ExportStep) -> Option<ExportPngOutcome> {
    match step {
        ExportStep::Finish(outcome) => Some(outcome),
        ExportStep::RemoveAndFinish(outcome) => Some(outcome),
        _ => None,
    }
}

/// The progress answers the step: what was asked for was done, or failed.
pub open spec fn answers(step: ExportStep, progress: ExportProgress) -> bool {
    match step {
        ExportStep::Composite => progress is Composited,
        ExportStep::Encode => progress is Encoded,
        ExportStep::Sync => progress is Synced,
        ExportStep::HoldGate => progress is GateHeld,
        ExportStep::Replace => progress is Replaced,
        ExportStep::RemoveAndFinish(_) => false,
        ExportStep::Finish(_) => false,
    }
}

/// An export as it ran: from the start, each progress answers the step before.
pub open spec fn export_run(generation: u64, run: Seq<ExportProgress>) -> bool {
    &&& run.len() > 0
    &&& run[0] is Start
    &&& forall|i: int|
        1 <= i < run.len() ==> answers(
            export_stepped(generation, run[i - 1]),
            #[trigger] run[i],
        )
}

/// The progress reports success.
pub open spec fn succeeded(progress: ExportProgress) -> bool {
    match progress {
        ExportProgress::Start => true,
        ExportProgress::Composited(ok) => ok,
        ExportProgress::Encoded(ok) => ok,
        ExportProgress::Synced(ok) => ok,
        ExportProgress::GateHeld { latest } => true,
        ExportProgress::Replaced(ok) => ok,
    }
}

/// An export reports the image as replaced exactly where the replacement was
/// performed and succeeded; where it failed, the unfinished file is removed and
/// the failure is the replacement's.
pub proof fn replaced_means_replaced(generation: u64, progress: ExportProgress)
    ensures
        reported(export_stepped(generation, progress)) == Some(ExportPngOutcome::Replaced)
            <==> progress == ExportProgress::Replaced(true),
        export_stepped(generation, ExportProgress::Replaced(true)) is Finish,
        export_stepped(generation, ExportProgress::Replaced(false)) is RemoveAndFinish,
        reported(export_stepped(generation, ExportProgress::Replaced(false))) == Some(
            ExportPngOutcome::Failed(ExportFailure::Replace),
        ),
{
}

/// A step that failed ends the export with its own failure; one that succeeded
/// never does. Nothing is left behind once a file was begun.
pub proof fn failures_end_the_export(generation: u64, progress: ExportProgress)
    ensures
        reported(export_stepped(generation, progress)) matches Some(ExportPngOutcome::Failed(_))
            <==> !succeeded(progress),
        !succeeded(progress) ==> reported(export_stepped(generation, progress)) == Some(
            ExportPngOutcome::Failed(
                match progress {
                    ExportProgress::Composited(_) => ExportFailure::Composite,
                    ExportProgress::Encoded(_) => ExportFailure::Encode,
                    ExportProgress::Synced(_) => ExportFailure::Sync,
                    _ => ExportFailure::Replace,
                },
            ),
        ),
        !succeeded(progress) ==> (export_stepped(generation, progress) is RemoveAndFinish <==> !(
        progress is Composited)),
        reported(export_stepped(generation, progress)) matches Some(
            ExportPngOutcome::Superseded { latest },
        ) ==> progress == (ExportProgress::GateHeld { latest }) && latest != generation
            && export_stepped(generation, progress) is RemoveAndFinish,
        progress matches ExportProgress::GateHeld { latest } ==> latest != generation ==> reported(
            export_stepped(generation, progress),
        ) == Some(ExportPngOutcome::Superseded { latest }),
{
}

/// Up to any point of a run that still goes on, each stage came in its place
/// and succeeded.
proof fn lemma_run_positions(generation: u64, run: Seq<ExportProgress>, index: int)
    requires
        export_run(generation, run),
        0 <= index < run.len(),
    ensures
        index <= 5,
        index == 1 ==> run[1] is Composited,
        index == 2 ==> run[2] is Encoded,
        index == 3 ==> run[3] is Synced,
        index == 4 ==> run[4] is GateHeld,
        index == 5 ==> run[5] is Replaced,
        forall|i: int| 0 <= i < index ==> #[trigger] succeeded(run[i]),
        index == 5 ==> run[4] == (ExportProgress::GateHeld { latest: generation }),
    decreases index,
{
    if index > 0 {
        lemma_run_positions(generation, run, index - 1);
        assert(answers(export_stepped(generation, run[index - 1]), run[index]));
    }
}

/// A whole export ends as replaced if and only if the image was composited,
/// encoded and synced, the generation was the latest under the lock, and the
/// replacement then succeeded.
pub proof fn whole_exports_end_replaced_or_not(generation: u64, run: Seq<ExportProgress>)
    requires
        export_run(generation, run),
    ensures
        reported(export_stepped(generation, run.last())) == Some(ExportPngOutcome::Replaced) <==> (
        run == seq![
            ExportProgress::Start,
            ExportProgress::Composited(true),
            ExportProgress::Encoded(true),
            ExportProgress::Synced(true),
            ExportProgress::GateHeld { latest: generation },
            ExportProgress::Replaced(true),
        ]),
        run.len() <= 6,
{
    let index = run.len() - 1;
    lemma_run_positions(generation, run, index);
    let whole = seq![
        ExportProgress::Start,
        ExportProgress::Composited(true),
        ExportProgress::Encoded(true),
        ExportProgress::Synced(true),
        ExportProgress::GateHeld { latest: generation },
        ExportProgress::Replaced(true),
    ];
    if reported(export_stepped(generation, run.last())) == Some(ExportPngOutcome::Replaced) {
        assert(index == 5);
        lemma_run_positions(generation, run, 1);
        lemma_run_positions(generation, run, 2);
        lemma_run_positions(generation, run, 3);
        assert(succeeded(run[1]) && succeeded(run[2]) && succeeded(run[3]));
        assert(run =~= whole);
    }
    if run == whole {
        assert(run.last() == ExportProgress::Replaced(true));
    }
}

/// Every stage that succeeded asks for the next one, in this order.
pub proof fn exports_go_on_in_order(generation: u64)
    ensures
        export_run(
            generation,
            seq![
                ExportProgress::Start,
                ExportProgress::Composited(true),
                ExportProgress::Encoded(true),
                ExportProgress::Synced(true),
                ExportProgress::GateHeld { latest: generation },
                ExportProgress::Replaced(true),
            ],
        ),
{
}

/// The status follows the report: current where the image was replaced, failed
/// where anything failed, and left alone where a later export took over.
pub proof fn statuses_follow_the_report(
    generation: u64,
    outcome: ExportPngOutcome,
    status: Option<ExportStatus>,
)
    requires
        call_ensures(finished_export_status, (generation, outcome), status),
    ensures
        status == Some(ExportStatus::Current { generation }) <==> outcome is Replaced,
        status == Some(ExportStatus::Failed { generation }) <==> outcome is Failed,
        status is None <==> outcome is Superseded,
{
}

/// A reserved generation is new, current at once and the only current one.
pub proof fn reserved_generations_are_current(gate: ExportGenerationGate, generation: u64)
    ensures
        gate.accepting(generation).latest == generation,
        gate.accepting(generation).next == generation,
        gate.accepting(generation).wf(),
{
}

/// Asking for an export takes the next generation, makes it the latest at once
/// and shows it as waiting; where none is left nothing changes.
pub proof fn asking_takes_the_next_generation()
    ensures
        forall|gate: &mut ExportGenerationGate, shown: Result<ExportStatus, ()>|
            #[trigger] call_ensures(ExportGenerationGate::reserve_export, (gate,), shown) ==> {
                &&& shown is Ok <==> gate.next < u64::MAX
                &&& shown matches Ok(status) ==> final(gate).latest == gate.next + 1
                    && final(gate).next == final(gate).latest && status == (
                ExportStatus::Waiting { generation: final(gate).latest })
                &&& shown is Err ==> *final(gate) == *gate
            },
{
}

/// A save that the writer took is no longer pending and shows as queued; a busy
/// writer is asked again; without a writer the export has failed. The artwork
/// is untouched.
pub proof fn enqueued_saves_are_settled<P: Copy, D, A>(
    generation: u64,
    result: Result<(), ExportEnqueueError>,
)
    ensures
        forall|canvas: &mut ActiveCanvas<P, D, A>, shown: Option<ExportStatus>|
            #[trigger] call_ensures(
                ActiveCanvas::<P, D, A>::save_enqueued,
                (canvas, generation, result),
                shown,
            ) ==> {
                &&& result is Ok ==> shown == Some(ExportStatus::Queued { generation })
                &&& result == Err::<(), _>(ExportEnqueueError::Disconnected) ==> shown == Some(
                    ExportStatus::Failed { generation },
                )
                &&& result == Err::<(), _>(ExportEnqueueError::Busy) ==> shown is None
                    && final(canvas)@.pending_save == canvas@.pending_save
                &&& result != Err::<(), _>(ExportEnqueueError::Busy)
                    ==> final(canvas)@.pending_save is None
                &&& final(canvas)@.stroke == canvas@.stroke
                &&& final(canvas)@.artwork_job == canvas@.artwork_job
            },
{
}

/// The only current generation is the latest that was accepted.
pub proof fn only_the_latest_is_current(gate: ExportGenerationGate, generation: u64, current: bool)
    requires
        call_ensures(ExportGenerationGate::is_current, (&gate, generation), current),
    ensures
        current <==> gate.latest == generation,
{
}

/// The next generation is one more than the last, while there is one.
pub proof fn generations_rise_by_one(gate: ExportGenerationGate, next: Result<u64, ()>)
    requires
        call_ensures(ExportGenerationGate::next_generation, (&gate,), next),
    ensures
        next is Ok <==> gate.next < u64::MAX,
        next matches Ok(generation) ==> generation > gate.next && generation - gate.next == 1,
{
}

/// A receipt holds what was found of a file, and then knows exactly that file:
/// the same snapshot, the same path, the same length and the same time.
pub proof fn receipts_know_their_file(
    snapshot: u128,
    path: FilePath,
    facts: Option<FileFacts>,
    receipt: Option<ExportReceipt>,
    other: u128,
    later: Option<FileFacts>,
    known: bool,
)
    requires
        call_ensures(ExportReceipt::capture, (snapshot, &path, facts), receipt),
        receipt matches Some(taken) ==> call_ensures(
            ExportReceipt::matches,
            (&taken, other, &path, later),
            known,
        ),
    ensures
        receipt is Some <==> (facts matches Some(found) && found.is_file),
        receipt is Some ==> (known <==> other == snapshot && later is Some && later->0.is_file
            && later->0.bytes == facts->0.bytes && later->0.modified_ns == facts->0.modified_ns
            && path@.same(path@)),
{
}

/// Closing is ready exactly where nothing failed; otherwise it tells whether
/// the project itself is safe.
pub proof fn closing_reports_what_failed(workspace_failed: bool, export: ExportStatus)
    ensures
        closing(workspace_failed, export) is Ready <==> !workspace_failed && !(export is Failed),
        closing(workspace_failed, export) == (CloseResult::Failed { project_saved: true })
            <==> !workspace_failed && export is Failed,
        closing(workspace_failed, export) == (CloseResult::Failed { project_saved: false })
            <==> workspace_failed,
{
}

/// A save goes out under the generation it was asked for, as soon as nothing
/// that belongs into its image is still on the way, and not before.
pub proof fn saves_go_out_when_nothing_is_left<P, D, A>(state: CanvasState<P, D, A>)
    ensures
        state.save_flushed() is Some <==> state.pending_save is Some && state.artwork_job is None
            && state.stroke.active is None && state.stroke.backlog.len() == 0
            && state.has_export_path,
        state.save_flushed() matches Some(generation) ==> state.pending_save == Some(generation),
{
}

} // verus!
