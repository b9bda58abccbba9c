//! What becomes of a window's document: closing, copies under another name,
//! other documents, and the names and lists that projects are found by.
use vstd::prelude::*;

use crate::canvas::ExportStatus;
use crate::file_path::{spells, FilePath, PathParts};
use crate::project_location::{ActivationError, ProjectLocation};
use crate::project_switch::{
    copy_refusal, ActivationEvent, ActivationRefusal, ActivationStep, CloseFailure, ClosePoll,
    CloseStep, SaveAsAnswer, SaveAsEvent, SaveAsFailure, SaveAsPoll, SaveAsProgress, SaveAsRefusal,
    SaveAsStep, SharedGpuCanvas, WindowState, WindowWork,
};
use crate::recent_projects::{differs_from, entry, opened, stored};
use crate::save_as::{
    image_beside, target_verdict, validate_target, CopyStage, CopyStep, TargetEntry, TargetError,
    TargetFile,
};
use crate::sketchbook::{digit_units, probed, reserve_new_drawing, NameProbe, ReserveError, ReserveStep};
use crate::windows_path::same_path;

verus! {

/// A canvas that could be made is active, one that could not has failed; the
/// document stays the same.
pub proof fn resumed_windows_have_a_canvas(opened: bool)
    ensures
        forall|window: &mut SharedGpuCanvas|
            #[trigger] call_ensures(SharedGpuCanvas::resume, (window, opened), ()) ==> {
                &&& opened <==> final(window)@.slot is Active
                &&& !opened <==> final(window)@.slot is Failed
                &&& final(window)@.location == window@.location
                &&& final(window)@.work == window@.work
                &&& final(window)@.candidate == window@.candidate
            },
{
}

/// A suspended window has no canvas and waits for no worker; the work that was
/// under way is handed back to be joined.
pub proof fn suspended_windows_hand_work_back(joined: WindowWork)
    ensures
        forall|window: &mut SharedGpuCanvas|
            #[trigger] call_ensures(SharedGpuCanvas::suspend, (window,), joined) ==> {
                &&& joined == window@.work
                &&& final(window)@.slot is Suspended
                &&& !final(window)@.work.close_worker
                &&& !final(window)@.work.save_as_worker
                &&& final(window)@.location == window@.location
            },
{
}

/// Closing drops an active canvas once; without one it reports at once, ready
/// only where nothing failed; a close that is under way is waited for.
pub proof fn closing_drops_the_canvas_once(
    workspace_failed: bool,
    export: ExportStatus,
    step: CloseStep,
)
    ensures
        forall|window: &mut SharedGpuCanvas|
            #[trigger] call_ensures(
                SharedGpuCanvas::begin_close,
                (window, workspace_failed, export),
                step,
            ) ==> {
                &&& step is Wait <==> window@.work.close_worker
                &&& step is DropCanvas <==> !window@.work.close_worker && window@.slot is Active
                &&& step matches CloseStep::Publish(result) ==> (result is Ready
                    <==> !workspace_failed && !(export is Failed))
                &&& !(step is Wait) ==> final(window)@.slot is Suspended
                &&& step is Wait ==> final(window)@.slot == window@.slot
                &&& !final(window)@.work.performance_probe
                &&& final(window)@.location == window@.location
            },
{
}

/// A close is published when its worker has finished, with its failure where it
/// panicked; a worker that could not start is a failure too.
pub proof fn closes_are_published_when_finished(finished: bool, panicked: bool, started: bool)
    ensures
        forall|window: &mut SharedGpuCanvas, poll: ClosePoll|
            #[trigger] call_ensures(SharedGpuCanvas::poll_close, (window, finished, panicked), poll)
                ==> {
                &&& poll is Publish <==> window@.work.close_worker && finished
                &&& poll matches ClosePoll::Publish { failure } ==> (failure is Some <==> panicked)
                    && !final(window)@.work.close_worker
                &&& poll is Wait ==> final(window)@ == window@
                &&& final(window)@.slot == window@.slot
            },
        forall|window: &mut SharedGpuCanvas, failure: Option<CloseFailure>|
            #[trigger] call_ensures(
                SharedGpuCanvas::close_worker_started,
                (window, started),
                failure,
            ) ==> {
                &&& failure is None <==> started
                &&& started ==> final(window)@.work.close_worker
                &&& !started ==> final(window)@.work == window@.work
            },
{
}

/// A failed close can be taken back once its worker is gone; the canvas is then
/// active where it could be opened, and the close is published again where not.
pub proof fn failed_closes_can_be_taken_back(close_failed: bool, opened: bool)
    ensures
        forall|window: SharedGpuCanvas, may: bool|
            #[trigger] call_ensures(SharedGpuCanvas::may_reopen, (&window, close_failed), may) ==> (
            may <==> close_failed && !window@.work.close_worker),
        forall|window: &mut SharedGpuCanvas, publish: bool|
            #[trigger] call_ensures(
                SharedGpuCanvas::reopen_after_close_failure,
                (window, opened),
                publish,
            ) ==> {
                &&& publish <==> !opened
                &&& opened ==> final(window)@.slot is Active
                &&& !opened ==> final(window)@ == window@
                &&& final(window)@.location == window@.location
            },
{
}

/// Frames are counted one by one; only the first of a stored project starts
/// the probe.
pub proof fn frames_are_counted(first: bool)
    ensures
        forall|window: &mut SharedGpuCanvas|
            #[trigger] call_ensures(SharedGpuCanvas::frame_submitted, (window,), first) ==> {
                &&& first <==> window@.rendered_frames == 0 && window@.location is Explicit
                &&& window@.rendered_frames < u64::MAX ==> final(window)@.rendered_frames
                    == window@.rendered_frames + 1
                &&& final(window)@.slot == window@.slot
            },
{
}

/// A copy starts on an active canvas with a valid target and nothing failed;
/// each thing that speaks against it is named, the target first.
pub proof fn copies_start_on_a_sound_canvas(
    state: WindowState,
    target_valid: bool,
    workspace_failed: bool,
)
    ensures
        ({
            let (after, step) = state.save_as_stepped(
                SaveAsProgress::Start { target_valid, workspace_failed },
            );
            let busy = state.work.save_as_worker || workspace_failed;
            &&& after == state
            &&& step is RenderCanvas <==> target_valid && !busy && state.slot is Active
            &&& !target_valid <==> step == SaveAsStep::Refuse(SaveAsRefusal::Target)
            &&& target_valid && busy <==> step == SaveAsStep::Refuse(SaveAsRefusal::Busy)
            &&& target_valid && !busy && !(state.slot is Active) <==> step == SaveAsStep::Refuse(
                SaveAsRefusal::NotReady,
            )
        }),
{
}

/// An unsettled transform stops a copy; otherwise the canvas is dropped for it,
/// and the copy is under way once its worker has started. A worker that did not
/// start gives the document back.
pub proof fn copies_run_on_their_worker(state: WindowState, workspace_failed: bool, opened: bool)
    ensures
        state.save_as_stepped(SaveAsProgress::Rendered { transform_active: true }) == (
            state,
            SaveAsStep::Refuse(SaveAsRefusal::TransformPending),
        ),
        ({
            let (after, step) = state.save_as_stepped(
                SaveAsProgress::Rendered { transform_active: false },
            );
            step is SpawnCopy && after.slot is Suspended && !after.work.performance_probe
                && after.location == state.location
        }),
        ({
            let (after, step) = state.save_as_stepped(
                SaveAsProgress::Spawned { started: true, workspace_failed },
            );
            step is Started && after.work.save_as_worker && after.location == state.location
        }),
        ({
            let (after, step) = state.save_as_stepped(
                SaveAsProgress::Spawned { started: false, workspace_failed },
            );
            &&& after == state
            &&& step is ReopenCurrent <==> !workspace_failed
            &&& workspace_failed <==> step == SaveAsStep::Refuse(SaveAsRefusal::NotStarted)
        }),
        ({
            let (after, step) = state.save_as_stepped(SaveAsProgress::Reopened(opened));
            &&& step == SaveAsStep::Refuse(SaveAsRefusal::NotStarted)
            &&& opened <==> after.slot is Active
            &&& after.location == state.location
        }),
{
}

/// A source that was not saved is not copied.
pub proof fn unsaved_sources_are_not_copied(workspace_failed: bool, refusal: Option<SaveAsFailure>)
    requires
        call_ensures(copy_refusal, (workspace_failed,), refusal),
    ensures
        refusal is Some <==> workspace_failed,
        refusal matches Some(failure) ==> failure is SourceNotSaved,
{
}

/// A complete copy is opened next; anything else opens the source again, with
/// its reason; without a worker or an answer nothing happens.
pub proof fn finished_copies_are_opened(
    state: WindowState,
    location: ProjectLocation,
    message: u64,
    answer: SaveAsAnswer,
    workspace_failed: bool,
)
    ensures
        !state.work.save_as_worker ==> state.copy_answered(answer, workspace_failed) == (
            state,
            SaveAsPoll::Idle,
        ),
        state.copy_answered(SaveAsAnswer::Empty, workspace_failed) == (state, SaveAsPoll::Idle),
        state.work.save_as_worker ==> {
            let (after, step) = state.copy_answered(SaveAsAnswer::Copied(location), false);
            &&& step is OpenCandidate
            &&& after.candidate == Some(location@)
            &&& after.save_failure is None
            &&& !after.work.save_as_worker
            &&& after.location == state.location
        },
        state.work.save_as_worker ==> {
            let (after, step) = state.copy_answered(SaveAsAnswer::Refused(message), false);
            &&& step is OpenCurrent
            &&& after.candidate is None
            &&& after.save_failure == Some(SaveAsFailure::Refused(message))
            &&& !after.work.save_as_worker
        },
        state.work.save_as_worker ==> {
            let (after, step) = state.copy_answered(SaveAsAnswer::Disconnected, false);
            &&& step is OpenCurrent
            &&& after.save_failure == Some(SaveAsFailure::WorkerGone)
        },
        state.work.save_as_worker && !(answer is Empty) ==> {
            let (after, step) = state.copy_answered(answer, true);
            &&& after.slot is Failed
            &&& step is Stop
            &&& !after.work.save_as_worker
        },
{
}

/// An opened copy becomes the document and its failure is told; one that could
/// not be opened gives the source its place back, and the source is lost only
/// where it cannot be opened either.
pub proof fn opened_copies_take_the_place(state: WindowState, reopened: bool)
    ensures
        ({
            let (after, step) = state.save_as_polled(SaveAsEvent::Opened(true));
            &&& after.slot is Active
            &&& after.candidate is None
            &&& after.save_failure is None
            &&& state.candidate matches Some(copy) ==> after.location == copy
            &&& state.candidate is None ==> after.location == state.location
            &&& step matches SaveAsPoll::Finish { keep_export_failure, notice, source_lost }
                && notice == state.save_failure && !source_lost && (state.candidate is None
                ==> keep_export_failure) && (state.candidate matches Some(copy)
                ==> keep_export_failure == copy.shares_storage(state.location))
        }),
        ({
            let (after, step) = state.save_as_polled(SaveAsEvent::Opened(false));
            &&& step is OpenCurrent
            &&& after.candidate is None
            &&& after.save_failure == Some(SaveAsFailure::CopyNotOpened)
            &&& after.location == state.location
        }),
        ({
            let (after, step) = state.save_as_polled(SaveAsEvent::Reopened(reopened));
            &&& reopened <==> after.slot is Active
            &&& after.save_failure is None
            &&& after.location == state.location
            &&& step matches SaveAsPoll::Finish { keep_export_failure, notice, source_lost }
                && keep_export_failure && notice == state.save_failure && source_lost == !reopened
        }),
{
}

/// Another document is checked before anything is closed, and refused for what
/// speaks against it.
pub proof fn other_documents_are_checked_first(
    state: WindowState,
    saving_as: bool,
    workspace_failed: bool,
    target: Result<Option<ProjectLocation>, ActivationError>,
)
    ensures
        ({
            let (after, step) = state.activation_started(saving_as, workspace_failed, target);
            let busy = saving_as || workspace_failed;
            &&& busy <==> step == ActivationStep::Refuse(ActivationRefusal::Busy)
            &&& !busy && target is Err <==> step == ActivationStep::Refuse(
                ActivationRefusal::Unreadable,
            )
            &&& !busy && (target matches Ok(found) && found is None) <==> step
                == ActivationStep::Refuse(ActivationRefusal::Unsupported)
            &&& !busy && (target matches Ok(Some(found)) && state.location.shares_storage(found@))
                <==> step is Reused
            &&& step is Preflight ==> (target matches Ok(Some(found)) && after.candidate == Some(
                found@,
            ) && !state.location.shares_storage(found@))
            &&& !(step is Preflight) ==> after == state
            &&& after.location == state.location
            &&& after.slot == state.slot
        }),
{
}

/// The source is drained before the target is opened, and gives its place only
/// to a target that was checked and admitted.
pub proof fn sources_are_drained_first(state: WindowState, export: ExportStatus)
    ensures
        state.activation_stepped(ActivationEvent::Preflighted(true)) == (
            state,
            ActivationStep::CloseAdmission,
        ),
        ({
            let (after, step) = state.activation_stepped(ActivationEvent::Preflighted(false));
            step == ActivationStep::Refuse(ActivationRefusal::Preflight) && after.candidate is None
                && after.slot == state.slot && after.location == state.location
        }),
        ({
            let (after, step) = state.activation_stepped(ActivationEvent::Admitted(true));
            step is DrainCanvas && after.slot is Suspended && after.candidate == state.candidate
                && after.location == state.location
        }),
        ({
            let (after, step) = state.activation_stepped(ActivationEvent::Admitted(false));
            step == ActivationStep::Refuse(ActivationRefusal::Admission) && after.candidate is None
                && after.slot == state.slot
        }),
        ({
            let (after, step) = state.activation_stepped(
                ActivationEvent::Drained { workspace_failed: false, export },
            );
            &&& export is Failed ==> step is RestoreForExport && after.candidate is None
                && after.location == state.location
            &&& !(export is Failed) ==> step is OpenTarget && (state.candidate matches Some(target)
                ==> after.location == target && after.candidate == Some(state.location))
        }),
        ({
            let (after, step) = state.activation_stepped(
                ActivationEvent::Drained { workspace_failed: true, export },
            );
            step == ActivationStep::Refuse(ActivationRefusal::SourceNotSaved) && after.slot
                is Failed && after.candidate is None
        }),
{
}

/// An opened target is the document; a failed one leaves the source, and the
/// reason tells whether the source is back.
pub proof fn opened_targets_are_shown(state: WindowState, opened: bool)
    ensures
        ({
            let (after, step) = state.activation_stepped(ActivationEvent::Opened(true));
            step is Activated && after.slot is Active && after.candidate is None && after.location
                == state.location
        }),
        ({
            let (after, step) = state.activation_stepped(ActivationEvent::Opened(false));
            step is ReopenSource && after.candidate is None && (
            state.candidate matches Some(source) ==> after.location == source)
        }),
        ({
            let (after, step) = state.activation_stepped(ActivationEvent::Reopened(opened));
            &&& opened <==> step == ActivationStep::Refuse(ActivationRefusal::TargetNotOpened)
            &&& !opened <==> step == ActivationStep::Refuse(ActivationRefusal::NothingOpened)
            &&& opened <==> after.slot is Active
        }),
        ({
            let (after, step) = state.activation_stepped(ActivationEvent::ExportRestored(opened));
            &&& step == ActivationStep::Refuse(ActivationRefusal::SourceExportFailed)
            &&& opened <==> after.slot is Active
            &&& after.location == state.location
        }),
{
}

/// A destination is refused for its extension first, then for the project, then
/// for the image beside it.
pub proof fn targets_are_refused_for_a_reason(
    is_project: bool,
    project: TargetEntry,
    image: TargetEntry,
)
    ensures
        ({
            let verdict = target_verdict(is_project, project, image);
            &&& !is_project <==> verdict == Err::<(), _>(TargetError::Extension)
            &&& is_project && project is Taken <==> verdict == Err::<(), _>(
                TargetError::Taken(TargetFile::Project),
            )
            &&& is_project && project is Unknown <==> verdict == Err::<(), _>(
                TargetError::Unknown(TargetFile::Project),
            )
            &&& is_project && project is Free && image is Taken <==> verdict == Err::<(), _>(
                TargetError::Taken(TargetFile::Image),
            )
            &&& is_project && project is Free && image is Unknown <==> verdict == Err::<(), _>(
                TargetError::Unknown(TargetFile::Image),
            )
        }),
{
}

/// The image of a project stands in the same directory under the same stem.
pub proof fn images_stand_beside_their_project(path: FilePath, image: FilePath)
    requires
        call_ensures(image_beside, (&path,), image),
    ensures
        image@.directory == path@.directory,
        image@.name is Some <==> path@.name is Some,
        path@.name matches Some(name) ==> image@.name->0.stem == name.stem && (
        image@.extension() matches Some(extension) && extension == seq![112u16, 110u16, 103u16]),
{
}

/// A copy goes through every stage: each that succeeds leads to the next, and
/// the project is published behind its image, last of all.
pub proof fn copies_go_through_every_stage(stage: CopyStage, next: CopyStage)
    requires
        next.number() == stage.number() + 1,
    ensures
        stage.followed_by(true) == CopyStep::Do(next),
        CopyStage::PublishProject.followed_by(true) is Copied,
        stage.followed_by(false) == CopyStep::Failed(stage),
{
}

/// The search for a name begins at one, passes taken names, and keeps a created
/// one.
pub proof fn names_are_tried_in_turn(index: u32, has_directory: bool, created: bool, step: ReserveStep)
    requires
        call_ensures(reserve_new_drawing, (has_directory, created), step),
    ensures
        step == ReserveStep::Try(1) <==> has_directory && created,
        !has_directory <==> step == ReserveStep::Failed(ReserveError::NoDirectory),
        has_directory && !created <==> step == ReserveStep::Failed(
            ReserveError::DirectoryNotCreated,
        ),
        probed(index, NameProbe::Created) == ReserveStep::Reserved(index),
        probed(index, NameProbe::NotCreated) == ReserveStep::Failed(ReserveError::NotCreated),
        probed(index, NameProbe::ImageUnknown) == ReserveStep::Failed(ReserveError::ImageUnknown),
        index < 100_000 ==> probed(index, NameProbe::ImageExists) == ReserveStep::Try(
            (index + 1) as u32,
        ),
        index < 100_000 ==> probed(index, NameProbe::ProjectExists) == ReserveStep::Try(
            (index + 1) as u32,
        ),
        index >= 100_000 ==> probed(index, NameProbe::ProjectExists) == ReserveStep::Failed(
            ReserveError::NoName,
        ),
{
}

/// The number that units of digits stand for.
pub open spec fn units_value(units: Seq<u16>) -> int
    decreases units.len(),
{
    if units.len() == 0 {
        0
    } else {
        units_value(units.drop_last()) * 10 + (units.last() - 48)
    }
}

/// A drawing's number is written in digits that stand for it, so that two
/// drawings never share a name.
pub proof fn drawing_numbers_read_back(value: nat)
    ensures
        units_value(digit_units(value)) == value,
        digit_units(value).len() > 0,
        forall|i: int|
            0 <= i < digit_units(value).len() ==> 48 <= #[trigger] digit_units(value)[i] <= 57,
    decreases value,
{
    if value >= 10 {
        drawing_numbers_read_back(value / 10);
        let head = digit_units(value / 10);
        let whole = digit_units(value);
        assert(whole.drop_last() =~= head);
        assert forall|i: int| 0 <= i < whole.len() implies 48 <= #[trigger] whole[i] <= 57 by {
            if i < head.len() {
                assert(whole[i] == head[i]);
            }
        }
    } else {
        let whole = digit_units(value);
        assert(whole.drop_last() =~= Seq::empty());
        assert(units_value(whole.drop_last()) == 0);
    }
}

/// Another extension replaces only the extension.
pub proof fn extensions_are_replaced(path: PathParts, extension: Seq<u16>)
    ensures
        path.with_extension(extension).directory == path.directory,
        path.name is None ==> path.with_extension(extension) == path,
        path.name matches Some(name) ==> path.with_extension(extension).name->0.stem == name.stem
            && path.with_extension(extension).extension() == Some(extension)
            && path.with_extension(extension).name->0.units() == name.stem.push(46) + extension,
{
}

/// A word is spelled in either case of its letters and in no other way.
pub proof fn words_are_spelled_in_either_case(units: Seq<u16>, word: Seq<u16>)
    requires
        forall|i: int| 0 <= i < word.len() ==> 97 <= #[trigger] word[i] <= 122,
    ensures
        spells(word, word),
        spells(units, word) <==> units.len() == word.len() && forall|i: int|
            0 <= i < units.len() ==> (#[trigger] units[i]) == word[i] || units[i] + 32 == word[i],
{
    if spells(units, word) {
        assert forall|i: int| 0 <= i < units.len() implies (#[trigger] units[i]) == word[i]
            || units[i] + 32 == word[i] by {
            assert(97 <= word[i] <= 122);
        }
    }
    if units.len() == word.len() && forall|i: int|
        0 <= i < units.len() ==> (#[trigger] units[i]) == word[i] || units[i] + 32 == word[i] {
        assert forall|i: int| 0 <= i < units.len() implies crate::file_path::ascii_lower(
            #[trigger] units[i],
        ) == word[i] by {
            assert(97 <= word[i] <= 122);
        }
    }
}

/// Opening a project puts it first; every other project stays in the list, and
/// nothing else comes into it. A list that is full loses its last.
pub proof fn opened_projects_push_the_last_out(
    paths: Seq<Seq<u16>>,
    path: Seq<u16>,
    other: Seq<u16>,
)
    ensures
        opened(paths, path).len() > 0,
        opened(paths, path)[0] == path,
        opened(paths, path).len() <= 20,
        opened(paths, path).contains(other) ==> other == path || paths.contains(other)
            && !same_path(other, path),
        paths.len() < 20 && paths.contains(other) && !same_path(other, path) ==> opened(
            paths,
            path,
        ).contains(other),
        (forall|i: int| 0 <= i < paths.len() ==> !same_path(#[trigger] paths[i], path)) ==> {
            &&& paths.len() < 20 ==> opened(paths, path) == seq![path] + paths
            &&& paths.len() == 20 ==> opened(paths, path) == seq![path] + paths.drop_last()
        },
{
    let kept = paths.filter(differs_from(path));
    let list = seq![path] + kept;
    paths.lemma_filter_len(differs_from(path));
    if opened(paths, path).contains(other) {
        let i = choose|i: int|
            0 <= i < opened(paths, path).len() && opened(paths, path)[i] == other;
        if i > 0 {
            assert(kept[i - 1] == other);
            paths.lemma_filter_pred(differs_from(path), i - 1);
            paths.lemma_filter_contains_rev(differs_from(path), other);
        }
    }
    if paths.len() < 20 && paths.contains(other) && !same_path(other, path) {
        let i = choose|i: int| 0 <= i < paths.len() && paths[i] == other;
        paths.lemma_filter_contains(differs_from(path), i);
        let j = choose|j: int| 0 <= j < kept.len() && kept[j] == other;
        assert(list[j + 1] == other);
    }
    if forall|i: int| 0 <= i < paths.len() ==> !same_path(#[trigger] paths[i], path) {
        lemma_all_kept(paths, path);
        assert(paths.len() == 20 ==> list.take(20) =~= seq![path] + paths.drop_last());
    }
}

proof fn lemma_all_kept(paths: Seq<Seq<u16>>, path: Seq<u16>)
    requires
        forall|i: int| 0 <= i < paths.len() ==> !same_path(#[trigger] paths[i], path),
    ensures
        paths.filter(differs_from(path)) == paths,
    decreases paths.len(),
{
    reveal(Seq::filter);
    if paths.len() > 0 {
        let before = paths.drop_last();
        assert forall|i: int| 0 <= i < before.len() implies !same_path(
            #[trigger] before[i],
            path,
        ) by {
            assert(before[i] == paths[i]);
        }
        lemma_all_kept(before, path);
        assert(!same_path(paths[paths.len() - 1], path));
        assert(paths.filter(differs_from(path)) =~= paths);
    } else {
        assert(paths.filter(differs_from(path)) =~= paths);
    }
}

/// A stored list begins with its mark and the number of its paths; each path
/// follows as its length and its units, low byte first.
pub proof fn stored_lists_have_their_form(paths: Seq<Seq<u16>>, units: Seq<u16>, i: int)
    requires
        paths.len() <= 20,
        0 <= i < units.len() <= 32_768,
    ensures
        stored(paths).len() >= 10,
        stored(paths).take(8) == seq![78u8, 89, 82, 69, 67, 48, 48, 49],
        stored(paths)[8] == paths.len(),
        stored(paths)[9] == 0,
        entry(units).len() == 4 + 2 * units.len(),
        entry(units)[0] as int + 256 * entry(units)[1] as int == units.len(),
        entry(units)[2] == 0 && entry(units)[3] == 0,
        entry(units)[4 + 2 * i] as int + 256 * entry(units)[5 + 2 * i] as int == units[i],
{
    crate::little_endian::lemma_unit_bytes(units);
    crate::little_endian::lemma_u16_parts(units[i]);
    assert(stored(paths).take(8) =~= seq![78u8, 89, 82, 69, 67, 48, 48, 49]);
}

/// A destination is accepted where it spells the extension of a project and
/// nothing stands at it or at its image.
pub proof fn free_targets_are_accepted(
    path: FilePath,
    project: TargetEntry,
    image: TargetEntry,
    verdict: Result<(), TargetError>,
)
    requires
        call_ensures(validate_target, (&path, project, image), verdict),
    ensures
        verdict is Ok <==> project is Free && image is Free && (path@.extension() matches Some(
            extension,
        ) && spells(extension, seq![110u16, 116u16, 100u16, 114u16])),
{
}

/// A drawing stands in the sketchbook under its number, as a project.
pub proof fn drawings_stand_under_their_number(directory: Vec<u16>, index: u32, path: FilePath)
    requires
        call_ensures(crate::sketchbook::drawing_path, (&directory, index), path),
    ensures
        path@.directory == directory@,
        path@.name matches Some(name) && name.stem.skip(5) == digit_units(index as nat)
            && name.extension == Some(seq![110u16, 116u16, 100u16, 114u16]),
{
    let stem = crate::sketchbook::drawing_units() + digit_units(index as nat);
    assert(stem.skip(5) =~= digit_units(index as nat));
}

} // verus!
