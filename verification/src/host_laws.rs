//! What the host is asked for over the life of a document and a process:
//! finding and opening a project, shutting its ink down, handing activations
//! over, and running the actor that renders.
use vstd::prelude::*;

use crate::canvas::ActiveCanvas;
use crate::document::LayerId;
use crate::file_path::{FilePath, PathParts};
use crate::layer_tree::LayerTree;
use crate::project_location::{
    absolute_activation_path, activated, ends_pair, leads_pair, preflight, utf16_lossy, Location,
    PreflightFailure, PreflightProgress, PreflightStep, ProjectFile, ProjectLocation,
};
use crate::render_host::{
    actor_wait, ActivationFull, ActorStage, ActorWait, BatchFacts, Pending, RenderActor,
};
use crate::session_open::{
    highest_used, initial_active_layer, HistoryCursor, OpenAction, OpenEvent, OpenFailure,
    ProjectOpening,
};
use crate::shutdown::{shuts_down, ShutdownAction, ShutdownEvent, ShutdownStage};
use crate::single_instance::{
    acquire_or_route, activation_listener, announced, char_units, frame, operation_cancelled,
    pipe_stepped, route_secondary_invocation, transferred, utf16, ActivationInbox, Dispatch,
    FrameBody, FrameError, InboxFull, InstanceEvent, InstanceStep, ListenerEvent, ListenerStep,
    PipeEvent, PipeFailure, PipeStep, RouteStep, TransferStep,
};
use crate::stroke_pipeline::PipelineState;

verus! {

/// A path that spells the extension of a project names that project; one that
/// spells an image names the project beside it, whose pixels come from the
/// image only where it has none; any other names no document.
pub proof fn activated_paths_name_projects(path: PathParts, project: ProjectFile)
    ensures
        path.extension() is None ==> activated(path, project) == Ok::<
            _,
            crate::project_location::ActivationError,
        >(None::<Location>),
        path.extension() matches Some(extension) ==> {
            let ntdr = crate::file_path::spells(extension, seq![110u16, 116u16, 100u16, 114u16]);
            let png = crate::file_path::spells(extension, seq![112u16, 110u16, 103u16]);
            &&& ntdr ==> (activated(path, project) matches Ok(Some(location)) && location
                is Explicit && location.storage() == path && location->bootstrap_png is None)
            &&& !ntdr && png && project is Unreadable ==> activated(path, project) is Err
            &&& !ntdr && png && !(project is Unreadable) ==> (activated(path, project) matches Ok(
                Some(location),
            ) && location is Explicit && location.storage() == path.with_extension(
                seq![110u16, 116u16, 100u16, 114u16],
            ) && (location->bootstrap_png is Some <==> project is Empty || project is Missing) && (
            location->bootstrap_png matches Some(image) ==> image == path))
            &&& !ntdr && !png ==> (activated(path, project) matches Ok(found) && found is None)
        },
{
}

/// Two documents share a store exactly where both are of one kind and name the
/// same file.
pub proof fn stores_are_shared_by_path(a: Location, b: Location)
    ensures
        a.shares_storage(b) == b.shares_storage(a),
        a.shares_storage(a),
        a is Explicit && b is UntitledRecovery ==> !a.shares_storage(b),
        a is Explicit && b is Explicit ==> (a.shares_storage(b) <==> a->path.same(b->path)),
{
}

/// A launch opens the activated document, else the configured one, else the
/// sketchbook, else a recovery.
pub proof fn launches_open_the_first_choice(
    activated: Option<ProjectLocation>,
    configured: Option<FilePath>,
    sketchbook: Option<FilePath>,
    recovery: FilePath,
    chosen: ProjectLocation,
)
    requires
        call_ensures(
            ProjectLocation::from_environment_or_args,
            (activated, configured, sketchbook, recovery),
            chosen,
        ),
    ensures
        activated matches Some(location) ==> chosen@ == location@,
        activated is None && configured is Some ==> chosen@ is Explicit && chosen@.storage()
            == configured->0@,
        activated is None && configured is None && sketchbook is Some ==> chosen@ is Explicit
            && chosen@.storage() == sketchbook->0@,
        activated is None && configured is None && sketchbook is None ==> chosen@
            is UntitledRecovery && chosen@.storage() == recovery@,
{
}

/// A stored document exports to the image beside it; a recovery to nothing.
pub proof fn exports_go_beside_the_project(location: ProjectLocation, image: Option<FilePath>)
    requires
        call_ensures(ProjectLocation::export_path, (&location,), image),
    ensures
        image is Some <==> location@ is Explicit,
        image matches Some(found) ==> found@.directory == location@.storage().directory && (
        location@.storage().name matches Some(name) ==> found@.name->0.stem == name.stem
            && found@.extension() == Some(seq![112u16, 110u16, 103u16])),
{
}

/// A path is opened by its canonical form where it has one; a relative one
/// otherwise below the current directory.
pub proof fn paths_are_made_absolute(
    path: FilePath,
    canonical: Option<FilePath>,
    is_absolute: bool,
    below: Option<FilePath>,
    opened: FilePath,
)
    requires
        call_ensures(absolute_activation_path, (path, canonical, is_absolute, below), opened),
    ensures
        canonical matches Some(found) ==> opened@ == found@,
        canonical is None && is_absolute ==> opened@ == path@,
        canonical is None && !is_absolute && below is Some ==> opened@ == below->0@,
        canonical is None && below is None ==> opened@ == path@,
{
}

/// A title without halves of pairs reads as its units; a pair is one character
/// and half a pair is replaced.
pub proof fn titles_read_as_their_units(units: Seq<u16>, rest: Seq<u16>, lead: u16, end: u16)
    requires
        leads_pair(lead),
        ends_pair(end),
    ensures
        (forall|i: int|
            0 <= i < units.len() ==> !leads_pair(#[trigger] units[i]) && !ends_pair(units[i]))
            ==> utf16_lossy(units).len() == units.len() && forall|i: int|
            0 <= i < units.len() ==> #[trigger] utf16_lossy(units)[i] == units[i] as char,
        utf16_lossy(seq![lead, end] + rest) == seq![
            (0x10000 + (lead - 0xd800) * 0x400 + (end - 0xdc00)) as char,
        ] + utf16_lossy(rest),
        utf16_lossy(seq![end] + rest) == seq!['\u{fffd}'] + utf16_lossy(rest),
    decreases units.len(),
{
    assert((seq![lead, end] + rest).skip(2) =~= rest);
    assert((seq![end] + rest).skip(1) =~= rest);
    if units.len() > 0 && forall|i: int|
        0 <= i < units.len() ==> !leads_pair(#[trigger] units[i]) && !ends_pair(units[i]) {
        let later = units.skip(1);
        assert forall|i: int| 0 <= i < later.len() implies !leads_pair(#[trigger] later[i])
            && !ends_pair(later[i]) by {
            assert(later[i] == units[i + 1]);
        }
        titles_read_as_their_units(later, rest, lead, end);
        assert(!leads_pair(units[0]) && !ends_pair(units[0]));
        assert forall|i: int| 0 <= i < units.len() implies #[trigger] utf16_lossy(units)[i]
            == units[i] as char by {
            if i > 0 {
                assert(utf16_lossy(later)[i - 1] == later[i - 1] as char);
            }
        }
    }
}

/// The progress reports success.
pub open spec fn sound(progress: PreflightProgress) -> bool {
    match progress {
        PreflightProgress::Start => true,
        PreflightProgress::ImageDecoded(ok) => ok,
        PreflightProgress::Metadata(file) => !(file is Unreadable),
        PreflightProgress::Opened(ok) => ok,
        PreflightProgress::TreeLoaded(ok) => ok,
        PreflightProgress::CanvasLoaded(ok) => ok,
        PreflightProgress::HistoryLoaded(ok) => ok,
    }
}

/// A target is refused for the first part that cannot be read and for nothing
/// else; it is accepted once all of it was read, or where there is nothing to
/// read.
pub proof fn targets_are_read_before_they_are_accepted(
    location: Location,
    progress: PreflightProgress,
)
    ensures
        ({
            let step = preflight(location, progress);
            &&& !(progress is Start) ==> (step is Refuse <==> !sound(progress))
            &&& progress is Start ==> (step is Refuse <==> location is UntitledRecovery)
            &&& step is Accept <==> progress == PreflightProgress::HistoryLoaded(true)
                || progress == PreflightProgress::Metadata(ProjectFile::Empty) || progress
                == PreflightProgress::Metadata(ProjectFile::Missing)
            &&& progress == PreflightProgress::Metadata(ProjectFile::NonEmpty) ==> step
                is OpenProject
            &&& progress == PreflightProgress::Opened(true) ==> step is LoadTree
            &&& progress == PreflightProgress::TreeLoaded(true) ==> step is LoadCanvas
            &&& progress == PreflightProgress::CanvasLoaded(true) ==> step is LoadHistory
            &&& progress == PreflightProgress::ImageDecoded(true) ==> step is ReadMetadata
            &&& progress == PreflightProgress::Opened(false) ==> step == PreflightStep::Refuse(
                PreflightFailure::Project,
            )
            &&& progress == PreflightProgress::ImageDecoded(false) ==> step
                == PreflightStep::Refuse(PreflightFailure::Image)
            &&& progress == PreflightProgress::TreeLoaded(false) ==> step == PreflightStep::Refuse(
                PreflightFailure::LayerTree,
            )
            &&& progress == PreflightProgress::CanvasLoaded(false) ==> step
                == PreflightStep::Refuse(PreflightFailure::Canvas)
            &&& progress == PreflightProgress::HistoryLoaded(false) ==> step
                == PreflightStep::Refuse(PreflightFailure::History)
        }),
{
}

/// Opening reads the image, the project, its tree, its page and its history, in
/// this order.
pub proof fn projects_are_read_in_order(opening: ProjectOpening, found: bool)
    ensures
        opening.stepped(OpenEvent::Start).1 is DecodeImage <==> opening.has_image,
        opening.stepped(OpenEvent::Start).1 is OpenProject <==> !opening.has_image,
        opening.stepped(OpenEvent::ImageDecoded(true)).1 is OpenProject,
        opening.stepped(OpenEvent::Opened(true)).1 is LoadTree,
        opening.stepped(OpenEvent::TreeLoaded(Some(found))).1 is LoadCanvas,
        opening.stepped(OpenEvent::TreeLoaded(Some(found))).0.stored_tree == found,
        opening.stepped(OpenEvent::CanvasLoaded(true)).1 is LoadHistory,
        opening.stepped(OpenEvent::HistoryLoaded(Some(found))).0.reopened == found,
        opening.stepped(OpenEvent::TreeLoaded(Some(found))).0.has_image == opening.has_image,
        opening.stepped(OpenEvent::HistoryLoaded(Some(found))).0.stored_tree
            == opening.stored_tree,
{
}

/// A project with a history goes on from it with its own tree; a new one is
/// given its tree, then its image where it has one, and starts with the first
/// free identifier.
pub proof fn opened_projects_go_on_or_start(opening: ProjectOpening)
    ensures
        ({
            let known = ProjectOpening { reopened: true, ..opening };
            &&& opening.stepped(OpenEvent::HistoryLoaded(Some(true))).1 is FindNextId
            &&& known.stepped(OpenEvent::NextIdFound(true)).1 matches OpenAction::FinishReopened(
                tree,
            ) && (tree is Stored <==> known.stored_tree) && !(tree is Default)
        }),
        ({
            let fresh = ProjectOpening { reopened: false, ..opening };
            let next = fresh.stepped(OpenEvent::HistoryLoaded(Some(false))).1;
            let persisted = fresh.stepped(OpenEvent::TreePersisted(true)).1;
            &&& !fresh.stored_tree ==> (next matches OpenAction::PersistTree(tree) && (tree
                is Legacy <==> fresh.probing) && (tree is Default <==> !fresh.probing))
            &&& fresh.stored_tree ==> next == persisted
            &&& fresh.has_image <==> persisted is PrepareImport
            &&& !fresh.has_image ==> (persisted matches OpenAction::FinishNew {
                tree,
                imported,
                next_id,
            } && !imported && next_id == 1 && (tree is Stored <==> fresh.stored_tree))
        }),
{
}

/// An image is imported as the first snapshot: page, tree, commit and
/// acceptance in turn; the session then starts with the second identifier.
pub proof fn images_are_imported_in_order(opening: ProjectOpening)
    ensures
        opening.stepped(OpenEvent::ImportPrepared(true)).1 is PersistImportCanvas,
        opening.stepped(OpenEvent::ImportCanvasPersisted(true)).1 is PersistImportTree,
        opening.stepped(OpenEvent::ImportTreePersisted(true)).1 is CommitImport,
        opening.stepped(OpenEvent::ImportCommitted(true)).1 is AcceptImport,
        opening.stepped(OpenEvent::ImportAccepted(true)).1 matches OpenAction::FinishNew {
            tree,
            imported,
            next_id,
        } && imported && next_id == 2,
{
}

/// Every part that fails ends the opening with its own failure, and nothing
/// else does.
pub proof fn failed_openings_say_where(opening: ProjectOpening)
    ensures
        opening.stepped(OpenEvent::ImageDecoded(false)).1 == OpenAction::Fail(OpenFailure::Image),
        opening.stepped(OpenEvent::Opened(false)).1 == OpenAction::Fail(OpenFailure::Project),
        opening.stepped(OpenEvent::TreeLoaded(None)).1 == OpenAction::Fail(OpenFailure::LayerTree),
        opening.stepped(OpenEvent::CanvasLoaded(false)).1 == OpenAction::Fail(OpenFailure::Canvas),
        opening.stepped(OpenEvent::HistoryLoaded(None)).1 == OpenAction::Fail(
            OpenFailure::History,
        ),
        opening.stepped(OpenEvent::TreePersisted(false)).1 == OpenAction::Fail(
            OpenFailure::InitialTree,
        ),
        opening.stepped(OpenEvent::NextIdFound(false)).1 == OpenAction::Fail(
            OpenFailure::Identifiers,
        ),
        opening.stepped(OpenEvent::ImportPrepared(false)).1 == OpenAction::Fail(
            OpenFailure::ImportPrepare,
        ),
        opening.stepped(OpenEvent::ImportCanvasPersisted(false)).1 == OpenAction::Fail(
            OpenFailure::ImportCanvas,
        ),
        opening.stepped(OpenEvent::ImportTreePersisted(false)).1 == OpenAction::Fail(
            OpenFailure::ImportLayers,
        ),
        opening.stepped(OpenEvent::ImportCommitted(false)).1 == OpenAction::Fail(
            OpenFailure::ImportCommit,
        ),
        opening.stepped(OpenEvent::ImportAccepted(false)).1 == OpenAction::Fail(
            OpenFailure::ImportAccept,
        ),
{
}

/// The highest used identifier is one that was used.
pub proof fn the_highest_identifier_was_used(current: u128, cursors: Seq<HistoryCursor>)
    ensures
        highest_used(current, cursors) == current || exists|i: int|
            0 <= i < cursors.len() && ((#[trigger] cursors[i]).snapshot == highest_used(
                current,
                cursors,
            ) || cursors[i].head == Some(highest_used(current, cursors) as u128)),
        0 <= highest_used(current, cursors) <= u128::MAX,
    decreases cursors.len(),
{
    if cursors.len() > 0 {
        let before = cursors.drop_last();
        the_highest_identifier_was_used(current, before);
        let highest = highest_used(current, cursors);
        let last = cursors.len() - 1;
        assert(cursors[last] == cursors.last());
        if highest == highest_used(current, before) && highest != current {
            let i = choose|i: int|
                0 <= i < before.len() && ((#[trigger] before[i]).snapshot == highest_used(
                    current,
                    before,
                ) || before[i].head == Some(highest_used(current, before) as u128));
            assert(cursors[i] == before[i]);
        }
    }
}

/// A canvas starts on the restored layer where the tree has it, and always on
/// one that the tree has.
pub proof fn canvases_start_on_a_layer(
    tree: LayerTree,
    restored: Option<LayerId>,
    layer: LayerId,
)
    requires
        call_ensures(initial_active_layer, (&tree, restored), layer),
    ensures
        restored matches Some(kept) ==> tree.has_raster(kept) ==> layer == kept,
        tree.rasters().len() > 0 ==> tree.has_raster(layer),
{
    crate::layer_laws::surviving_layers_exist(tree, LayerId(1));
}

/// The first view is fitted once it may be, and asked for again where it found
/// no room.
pub proof fn first_views_are_fitted<P: Copy, D, A>(
    pending: bool,
    saving_as: bool,
    closing: bool,
    may: bool,
    accepted: bool,
    workspace_failed: bool,
)
    requires
        call_ensures(
            ActiveCanvas::<P, D, A>::may_queue_initial_fit,
            (pending, saving_as, closing),
            may,
        ),
    ensures
        may <==> pending && !saving_as && !closing,
        forall|canvas: &mut ActiveCanvas<P, D, A>, left: bool|
            #[trigger] call_ensures(
                ActiveCanvas::<P, D, A>::initial_fit_queued,
                (canvas, accepted, workspace_failed),
                left,
            ) ==> {
                &&& left <==> !accepted
                &&& accepted || workspace_failed ==> final(canvas)@ == canvas@
                &&& !accepted && !workspace_failed ==> final(canvas)@.stroke.effects
                    == canvas@.stroke.effects.push(crate::effect::InkEffect::RequestRedraw)
            },
{
}

/// A sealed stroke goes to the writer last, with all its samples and the time
/// of its last one; a writer that is gone changes nothing of what waits.
pub proof fn sealed_strokes_go_last<P, D, A>(
    before: PipelineState<P, D, A>,
    stage: ShutdownStage,
    event: ShutdownEvent<A>,
    after: PipelineState<P, D, A>,
    next: ShutdownStage,
    action: ShutdownAction<P, A>,
)
    requires
        shuts_down(before, stage, event, after, next, action),
    ensures
        stage is Seal && event is Recorded && before.active is Some ==> {
            &&& next is SendSealed
            &&& after.active is None
            &&& before.count.closed < u64::MAX ==> after.count.closed == before.count.closed + 1
            &&& action matches ShutdownAction::Enqueue(request) && {
                &&& request@.samples == before.active->0.samples
                &&& request@.layer == before.active->0.layer
                &&& request@.color == before.active->0.color
                &&& request@.brush == before.active->0.brush
                &&& request@.selection == before.active->0.selection
                &&& request@.stroke_generation == before.active->0.generation
                &&& request@.end_timestamp_ns == before.active->0.samples.last().timestamp_ns
                &&& request@.record == event->Recorded_0
            }
        },
        stage is FlushBacklog && event == ShutdownEvent::<A>::Enqueued(false) ==> next is Drain
            && action is Drain && after == before,
        stage is Drain && event is Drained && before.backlog.len() > 0 ==> next is FlushDrained,
        stage is Begin && event is Start && !before.shutdown_prepared ==> action is RetireDisplay
            && after.shutdown_prepared && after.active == before.active,
        stage is RetireDisplay && event is DisplayRetired && before.backlog.len() > 0 ==> (
        action matches ShutdownAction::Enqueue(request) && request@ == before.backlog[0]
            && after.backlog == before.backlog.drop_first()),
        stage is RetireDisplay && event is DisplayRetired && before.backlog.len() == 0 ==> action
            is Drain,
{
}

/// A frame begins with its mark, its version and the number of its units, and a
/// header that differs in any of them is refused for that.
pub proof fn frames_have_their_form(units: Seq<u16>, header: Seq<u8>)
    requires
        units.len() <= 32_768,
        header.len() == 10,
    ensures
        frame(units).take(4) == seq![78u8, 84, 68, 65],
        frame(units)[4] == 1,
        frame(units)[5] == 0,
        frame(units)[6] as int + 256 * frame(units)[7] as int == units.len(),
        announced(header) == Err::<FrameBody, _>(FrameError::MagicMismatch) <==> header.take(4)
            != seq![78u8, 84, 68, 65],
        announced(header) matches Err(FrameError::VersionUnsupported(version)) ==> version != 1,
        header.take(4) == seq![78u8, 84, 68, 65] && !(header[4] == 1 && header[5] == 0) ==> (
        announced(header) matches Err(FrameError::VersionUnsupported(version)) && version
            == header[4] as int + 256 * header[5] as int),
        announced(header) matches Ok(FrameBody::Path { byte_len }) ==> 0 < byte_len <= 65_536
            && byte_len % 2 == 0 && byte_len == 2 * (header[6] as int + 256 * header[7] as int
            + 65_536 * header[8] as int),
        announced(header) matches Err(FrameError::LengthAboveLimit(count)) ==> count > 32_768,
{
    assert(frame(units).take(4) =~= seq![78u8, 84, 68, 65]);
}

/// The units of a text: one for each plain character, two for each beyond, and
/// every text keeps its order.
pub proof fn texts_become_units(text: Seq<char>, c: char)
    ensures
        utf16(text.push(c)) == utf16(text) + char_units(c),
        (c as u32) < 0x10000 ==> char_units(c) == seq![c as u16],
        (c as u32) >= 0x10000 ==> char_units(c).len() == 2 && leads_pair(char_units(c)[0])
            && ends_pair(char_units(c)[1]) && 0x10000 + (char_units(c)[0] - 0xd800) * 0x400 + (
        char_units(c)[1] - 0xdc00) == c as u32,
{
    assert(text.push(c).drop_last() =~= text);
}

/// An operation is given up on a shutdown or past its deadline, and only then.
pub proof fn operations_end_in_time(
    shutdown: bool,
    deadline: Option<u128>,
    now: u128,
    cancelled: bool,
)
    requires
        call_ensures(operation_cancelled, (shutdown, deadline, now), cancelled),
    ensures
        shutdown ==> cancelled,
        cancelled && !shutdown ==> deadline is Some && deadline->0 <= now,
        deadline is None && !shutdown ==> !cancelled,
        deadline matches Some(end) ==> end <= now ==> cancelled,
{
}

/// A transfer goes on from where it came to, until all of it has moved; one
/// that moves nothing is over.
pub proof fn transfers_go_on_to_the_end(
    offset: usize,
    length: usize,
    moved: usize,
    step: TransferStep,
)
    requires
        call_ensures(transferred, (offset, length, moved), step),
    ensures
        step is Closed <==> moved == 0,
        step is Done <==> moved > 0 && offset + moved >= length,
        step matches TransferStep::Continue(next) ==> next - offset == moved && next < length,
{
}

/// A pipe operation ends with the number of bytes that moved, or with what
/// failed of it.
pub proof fn pipe_operations_end_as_they_went(count: u32, waited: bool)
    ensures
        pipe_stepped(PipeEvent::Transferred(count)) == PipeStep::Done(count),
        pipe_stepped(PipeEvent::Result(Some(count))) == PipeStep::Done(count),
        pipe_stepped(PipeEvent::Result(None)) == PipeStep::Fail(PipeFailure::Result),
        pipe_stepped(PipeEvent::IssueFailed) == PipeStep::Fail(PipeFailure::Issue),
        pipe_stepped(PipeEvent::Start { cancelled: true }) == PipeStep::Fail(
            PipeFailure::Cancelled,
        ),
        pipe_stepped(PipeEvent::Start { cancelled: false }) is Issue,
        pipe_stepped(PipeEvent::Completed) is AskResult,
        pipe_stepped(PipeEvent::Signaled) is AskResult,
        pipe_stepped(PipeEvent::Pending) is CheckCancelled,
        pipe_stepped(PipeEvent::TimedOut) is CheckCancelled,
        pipe_stepped(PipeEvent::Watch { cancelled: false }) is Wait,
        pipe_stepped(PipeEvent::Watch { cancelled: true }) == (PipeStep::Cancel { waited: false }),
        pipe_stepped(PipeEvent::WaitFailed) == (PipeStep::Cancel { waited: true }),
        waited <==> pipe_stepped(PipeEvent::CancelRetired { waited }) == PipeStep::Fail(
            PipeFailure::Wait,
        ),
        !waited <==> pipe_stepped(PipeEvent::CancelRetired { waited }) == PipeStep::Fail(
            PipeFailure::Cancelled,
        ),
{
}

/// A second invocation tries twenty times to reach the first, notes the first
/// refusal, and then gives up.
pub proof fn second_invocations_try_again(attempt: u32, succeeded: bool, step: RouteStep)
    requires
        call_ensures(route_secondary_invocation, (attempt, succeeded), step),
    ensures
        succeeded <==> step is Routed,
        step is Failed <==> !succeeded && attempt >= 20,
        step matches RouteStep::Retry { attempt: next, note } ==> next == attempt + 1 && (note
            <==> attempt == 1),
{
}

/// The first invocation listens and becomes the instance; a second one hands
/// over and never becomes one.
pub proof fn one_instance_remains(event: InstanceEvent, step: InstanceStep)
    requires
        call_ensures(acquire_or_route, (event,), step),
    ensures
        step is Primary <==> event == InstanceEvent::ListenerStarted(true),
        step is ListenerFailed <==> event == InstanceEvent::ListenerStarted(false),
        step is SecondaryRouted <==> event == InstanceEvent::Routed(true),
        step is RouteFailed <==> event == InstanceEvent::Routed(false),
        step is Route <==> event == (InstanceEvent::Mutex { created: true, already_exists: true }),
        step is StartListener <==> event == (InstanceEvent::Mutex {
            created: true,
            already_exists: false,
        }),
        step is MutexFailed <==> (event matches InstanceEvent::Mutex { created, already_exists }
            && !created),
{
}

/// The listener takes one frame after another until the shutdown, and accepts
/// only what was read before it.
pub proof fn listeners_take_frames(event: ListenerEvent, shutdown: bool, step: ListenerStep)
    requires
        call_ensures(activation_listener, (event, shutdown), step),
    ensures
        step is Accept <==> event == ListenerEvent::FrameRead(true) && !shutdown,
        step is ReadFrame <==> event == ListenerEvent::Connected(true) && !shutdown,
        step is Connect <==> event == ListenerEvent::PipeCreated(true),
        step is CreatePipe <==> (event is Round || event is Disconnected) && !shutdown,
        step is Stop <==> (event is Round || event is Disconnected) && shutdown || event
            == ListenerEvent::PipeCreated(false),
{
}

/// The inbox keeps eight paths in order; what finds no room is refused, and the
/// windows are told of the rest.
pub proof fn inboxes_keep_paths_in_order<T>(path: T, parent: u64, child: u64)
    ensures
        forall|inbox: &mut ActivationInbox<T>, result: Result<Option<u64>, InboxFull>|
            #[trigger] call_ensures(ActivationInbox::<T>::open_from_dialog, (inbox, path), result)
                ==> {
                &&& result is Ok <==> inbox@.pending.len() < 8
                &&& result matches Ok(notify) ==> notify == inbox@.child && final(inbox)@.pending
                    == inbox@.pending.push(path)
                &&& result is Err ==> final(inbox)@.pending == inbox@.pending
                &&& final(inbox)@.parent == inbox@.parent && final(inbox)@.child == inbox@.child
            },
        forall|inbox: &mut ActivationInbox<T>, result: (bool, Dispatch)|
            #[trigger] call_ensures(ActivationInbox::<T>::accept, (inbox, Some(path)), result) ==> {
                &&& result.0 <==> inbox@.pending.len() < 8
                &&& result.0 ==> final(inbox)@.pending == inbox@.pending.push(path)
                &&& !result.0 ==> final(inbox)@.pending == inbox@.pending
                &&& result.1.foreground == inbox@.parent && result.1.notify == inbox@.child
            },
        forall|inbox: &mut ActivationInbox<T>, result: (bool, Dispatch)|
            #[trigger] call_ensures(ActivationInbox::<T>::accept, (inbox, None::<T>), result) ==> {
                &&& result.0
                &&& final(inbox)@ == inbox@
                &&& result.1.foreground == inbox@.parent
            },
        forall|inbox: &mut ActivationInbox<T>, taken: Option<T>|
            #[trigger] call_ensures(ActivationInbox::<T>::take_activation, (inbox,), taken) ==> {
                &&& taken is Some <==> inbox@.pending.len() > 0
                &&& taken matches Some(oldest) ==> oldest == inbox@.pending[0] && seq![oldest]
                    + final(inbox)@.pending == inbox@.pending
            },
        forall|inbox: &mut ActivationInbox<T>, dispatch: Dispatch|
            #[trigger] call_ensures(
                ActivationInbox::<T>::attach_windows,
                (inbox, parent, child),
                dispatch,
            ) ==> {
                &&& dispatch.foreground == Some(parent) && dispatch.notify == Some(child)
                &&& final(inbox)@.parent == Some(parent) && final(inbox)@.child == Some(child)
                &&& final(inbox)@.pending == inbox@.pending
            },
{
    assert forall|inbox: &mut ActivationInbox<T>, taken: Option<T>|
        #[trigger] call_ensures(ActivationInbox::<T>::take_activation, (inbox,), taken) implies ({
        &&& taken is Some <==> inbox@.pending.len() > 0
        &&& taken matches Some(oldest) ==> oldest == inbox@.pending[0] && seq![oldest]
            + final(inbox)@.pending == inbox@.pending
    }) by {
        if taken is Some {
            assert(seq![taken->0] + inbox@.pending.drop_first() =~= inbox@.pending);
        }
    }
}

/// A mailbox takes paths in order while the actor is there for them, and hands
/// everything over once.
pub proof fn mailboxes_hand_everything_over<G: Copy, T>(path: T, geometry: G)
    ensures
        forall|pending: &mut Pending<G, T>, result: Result<(), ActivationFull>|
            #[trigger] call_ensures(Pending::<G, T>::activate, (pending, path), result) ==> {
                &&& result is Ok <==> !pending@.retire && !pending@.controls.close
                    && pending@.activations.len() < 8
                &&& result is Ok ==> final(pending)@.activations == pending@.activations.push(path)
                    && final(pending)@.wake
                &&& result is Err ==> final(pending)@ == pending@
                &&& final(pending)@.controls == pending@.controls
            },
        forall|pending: &mut Pending<G, T>, batch: Pending<G, T>|
            #[trigger] call_ensures(Pending::<G, T>::take_batch, (pending,), batch) ==> {
                &&& batch@ == pending@
                &&& final(pending)@.activations.len() == 0
                &&& !final(pending)@.wake
                &&& !final(pending)@.controls.close && !final(pending)@.controls.reopen
                    && !final(pending)@.controls.save_as
                &&& final(pending)@.geometry == pending@.geometry
                &&& final(pending)@.retire == pending@.retire
            },
        forall|pending: &mut Pending<G, T>|
            #[trigger] call_ensures(Pending::<G, T>::geometry, (pending, geometry), ())
                ==> final(pending)@.geometry == geometry && final(pending)@.wake
                && final(pending)@.activations == pending@.activations
                && final(pending)@.controls == pending@.controls,
{
}

/// Each control is left on its own, wakes the actor, and takes no other back.
pub proof fn controls_are_left_one_by_one<G: Copy, T>()
    ensures
        forall|pending: &mut Pending<G, T>|
            #[trigger] call_ensures(Pending::<G, T>::close, (pending,), ()) ==> {
                &&& final(pending)@.controls.close && final(pending)@.wake
                &&& final(pending)@.controls.reopen == pending@.controls.reopen
                &&& final(pending)@.controls.save_as == pending@.controls.save_as
                &&& final(pending)@.retire == pending@.retire
            },
        forall|pending: &mut Pending<G, T>|
            #[trigger] call_ensures(Pending::<G, T>::reopen, (pending,), ()) ==> {
                &&& final(pending)@.controls.reopen && final(pending)@.wake
                &&& final(pending)@.controls.close == pending@.controls.close
                &&& final(pending)@.controls.save_as == pending@.controls.save_as
            },
        forall|pending: &mut Pending<G, T>|
            #[trigger] call_ensures(Pending::<G, T>::save_as, (pending,), ()) ==> {
                &&& final(pending)@.controls.save_as && final(pending)@.wake
                &&& final(pending)@.controls.close == pending@.controls.close
                &&& final(pending)@.controls.reopen == pending@.controls.reopen
            },
        forall|pending: &mut Pending<G, T>|
            #[trigger] call_ensures(Pending::<G, T>::retire, (pending,), ()) ==> {
                &&& final(pending)@.retire && final(pending)@.wake
                &&& final(pending)@.controls == pending@.controls
                &&& final(pending)@.activations == pending@.activations
            },
        forall|pending: &mut Pending<G, T>|
            #[trigger] call_ensures(Pending::<G, T>::wake, (pending,), ()) ==> {
                &&& final(pending)@.wake
                &&& final(pending)@.controls == pending@.controls
                &&& final(pending)@.geometry == pending@.geometry
            },
        forall|pending: Pending<G, T>, boundary: bool|
            #[trigger] call_ensures(Pending::<G, T>::is_control_boundary, (&pending,), boundary)
                ==> (boundary <==> pending@.retire || pending@.controls.close
                || pending@.controls.reopen || pending@.controls.save_as
                || pending@.activations.len() > 0),
{
}

/// The actor sleeps only where nothing waits and nothing is watched.
pub proof fn actors_wait_for_their_mail(
    wake: bool,
    closing: bool,
    saving_as: bool,
    wait: ActorWait,
)
    requires
        call_ensures(actor_wait, (wake, closing, saving_as), wait),
    ensures
        wait is Nothing <==> wake,
        wait is Sleep <==> !wake && !closing && !saving_as,
        wait is Poll <==> !wake && (closing || saving_as),
{
}

/// Everything that a batch asks for has its stage: a copy, the activations, a
/// retirement, a reopening, a close; what is left is shown.
pub proof fn batches_do_what_they_ask(facts: BatchFacts)
    ensures
        ActorStage::Resize.followed_by(facts) is SaveAs <==> facts.controls.save_as,
        ActorStage::SaveAs.followed_by(facts) is Activate <==> facts.has_activations,
        ActorStage::Activate.followed_by(facts) is Retire <==> facts.retire,
        ActorStage::Activate.followed_by(facts) is Reopen <==> !facts.retire
            && facts.controls.reopen,
        ActorStage::Reopen.followed_by(facts) is Close <==> facts.controls.close,
        ActorStage::Reopen.followed_by(facts) is Render <==> !facts.controls.close
            && !facts.closing,
        ActorStage::Reopen.followed_by(facts) is PollClose <==> !facts.controls.close
            && facts.closing,
        ActorStage::Close.followed_by(facts) is PollClose,
        !facts.controls.save_as ==> ActorStage::Resize.followed_by(facts)
            == ActorStage::SaveAs.followed_by(facts),
        !facts.has_activations ==> ActorStage::SaveAs.followed_by(facts)
            == ActorStage::Activate.followed_by(facts),
        !facts.retire && !facts.controls.reopen ==> ActorStage::Activate.followed_by(facts)
            == ActorStage::Reopen.followed_by(facts),
{
}

/// The actor's thread is started once, for a window that is there, and joined
/// once it has ended.
pub proof fn actors_run_once(alive: bool, retired: bool, succeeded: bool, ended: bool)
    ensures
        forall|actor: &mut RenderActor, spawn: bool|
            #[trigger] call_ensures(RenderActor::start, (actor, alive, retired), spawn) ==> {
                &&& spawn <==> !actor.started && alive && !retired
                &&& final(actor).started
                &&& spawn ==> !final(actor).finished && !final(actor).surface_retired
                &&& !spawn ==> final(actor).finished == actor.finished
                    && final(actor).surface_retired == actor.surface_retired
                &&& final(actor).worker == actor.worker
            },
        forall|actor: &mut RenderActor|
            #[trigger] call_ensures(RenderActor::spawned, (actor, succeeded), ()) ==> {
                &&& succeeded ==> final(actor).worker && final(actor).finished == actor.finished
                &&& !succeeded ==> final(actor).finished && final(actor).surface_retired
                    && final(actor).worker == actor.worker
            },
        forall|actor: &mut RenderActor|
            #[trigger] call_ensures(RenderActor::run_ended, (actor,), ()) ==> {
                &&& final(actor).finished && final(actor).surface_retired
                &&& final(actor).worker == actor.worker && final(actor).started == actor.started
            },
        forall|actor: &mut RenderActor, over: bool|
            #[trigger] call_ensures(RenderActor::finished, (actor, ended), over) ==> {
                &&& over <==> actor.finished && (!actor.worker || ended)
                &&& over ==> !final(actor).worker
                &&& !over ==> final(actor).worker == actor.worker
                &&& final(actor).finished == actor.finished
            },
{
}

/// A sealed stroke that the writer took ends the shutdown; one that it could not
/// take is said to be lost.
pub proof fn sealed_strokes_end_the_shutdown<P, D, A>(
    before: PipelineState<P, D, A>,
    taken: bool,
    after: PipelineState<P, D, A>,
    next: ShutdownStage,
    action: ShutdownAction<P, A>,
)
    requires
        shuts_down(
            before,
            ShutdownStage::SendSealed,
            ShutdownEvent::<A>::Enqueued(taken),
            after,
            next,
            action,
        ),
    ensures
        next is Done,
        action is Done,
        taken ==> after == before,
        !taken ==> after.effects == before.effects.push(
            crate::effect::InkEffect::PublishWorkspaceFailure(
                crate::effect::WorkspaceFailure::SealWriterStopped,
            ),
        ),
        after.backlog == before.backlog,
{
}

/// The drain of a shutdown is followed by the strokes it closed, and those by
/// the stroke in progress, sealed where it is healthy.
pub proof fn shutdowns_seal_after_their_drain<P, D, A>(
    before: PipelineState<P, D, A>,
    after: PipelineState<P, D, A>,
    next: ShutdownStage,
    action: ShutdownAction<P, A>,
)
    requires
        shuts_down(
            before,
            ShutdownStage::Drain,
            ShutdownEvent::<A>::Drained,
            after,
            next,
            action,
        ),
    ensures
        before.backlog.len() > 0 ==> (action matches ShutdownAction::Enqueue(request) && request@
            == before.backlog[0]) && after.active == before.active,
        before.backlog.len() == 0 && before.active is None ==> action is Done && after == before,
        before.backlog.len() == 0 && before.active is Some && (before.recovery.fatal
            || before.recovery.awaiting_clean_begin) ==> action is Done && after.active is None,
        action matches ShutdownAction::EndStroke(end) ==> next is Seal && end.phase is End && (
        before.active matches Some(active) && after.active matches Some(sealed) && sealed.samples
            == active.samples.push(end)),
{
}

} // verus!
