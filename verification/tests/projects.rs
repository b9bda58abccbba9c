use nyatidraw_desktop::canvas::ExportStatus;
use nyatidraw_desktop::document::LayerId;
use nyatidraw_desktop::export::{
    close_result, export_current_png, export_temporary_name, finished_export_status, CloseResult,
    ExportFailure, ExportGenerationGate, ExportPngOutcome, ExportProgress, ExportReceipt,
    ExportStep, FileFacts,
};
use nyatidraw_desktop::file_path::{FileName, FilePath};
use nyatidraw_desktop::layer_tree::default_layer_tree;
use nyatidraw_desktop::project_location::{
    absolute_activation_path, preflight_project_activation, ActivationError, PreflightFailure,
    PreflightProgress, PreflightStep, ProjectFile, ProjectLocation,
};
use nyatidraw_desktop::project_switch::{
    copy_refusal, ActivationEvent, ActivationRefusal, ActivationStep, CanvasSlot, CloseFailure,
    ClosePoll, CloseStep,
    SaveAsAnswer, SaveAsEvent, SaveAsFailure, SaveAsPoll, SaveAsProgress, SaveAsRefusal,
    SaveAsStep, SharedGpuCanvas,
};
use nyatidraw_desktop::render_host::{
    actor_wait, ActorStage, ActorWait, BatchFacts, Controls, Pending, RenderActor,
    ACTIVATION_CAPACITY,
};
use nyatidraw_desktop::save_as::{
    copied_tree, copy_closed_project, image_beside, staging_name, validate_target, CopyStage,
    CopyStep, TargetEntry, TargetError, TargetFile,
};
use nyatidraw_desktop::session_open::{
    initial_active_layer, next_project_id, HistoryCursor, OpenAction, OpenEvent, OpenFailure,
    ProjectOpening, TreeChoice,
};
use nyatidraw_desktop::single_instance::{
    absolute_invocation_path, acquire_or_route, activation_listener, activation_message,
    encode_frame, frame_path, operation_cancelled, pipe_operation, read_frame,
    route_secondary_invocation, transferred, wide_null, ActivationInbox, FrameBody, FrameError,
    InstanceEvent, InstanceStep, ListenerEvent, ListenerStep, PipeEvent, PipeFailure, PipeStep,
    RouteStep, TransferStep, MAX_PATH_UTF16_UNITS, WIRE_VERSION,
};
use nyatidraw_desktop::sketchbook::{
    directory, drawing_path, reserve_in, reserve_new_drawing, NameProbe, ReserveError,
    ReserveStep,
};

fn units(text: &str) -> Vec<u16> {
    text.encode_utf16().collect()
}

fn file(stem: &str, extension: &str) -> FilePath {
    FilePath {
        directory: units("C:\\art"),
        name: Some(FileName { stem: units(stem), extension: Some(units(extension)) }),
    }
}

fn stored(stem: &str) -> ProjectLocation {
    ProjectLocation::Explicit { path: file(stem, "ntdr"), bootstrap_png: None }
}

#[test]
fn newer_export_generation_blocks_a_stale_final_replacement() {
    let mut generations = ExportGenerationGate::new();
    generations.accept_submission(1);
    generations.accept_submission(2);

    assert!(!generations.is_current(1));
    assert!(generations.is_current(2));
}

#[test]
fn bounded_actor_batches_preserve_activation_order_and_retirement() {
    let mut pending: Pending<u64, String> = Pending::new(0);
    for index in 0..ACTIVATION_CAPACITY {
        pending.activate(format!("{index}.ntdr")).unwrap();
    }
    assert!(pending.activate("overflow.ntdr".to_string()).is_err());
    let batch = pending.take_batch();
    assert!(batch.wake);
    assert!(!pending.wake);
    for (index, path) in batch.activations.iter().enumerate() {
        assert_eq!(path, &format!("{index}.ntdr"));
    }
    pending.wake = true;
    pending.controls.close = true;
    pending.retire = true;
    let closing = pending.take_batch();
    assert!(closing.wake && closing.controls.close && closing.retire);
    assert!(pending.retire);
    assert!(pending.activate("late.ntdr".to_string()).is_err());
}

#[test]
fn activation_frame_keeps_non_ascii_utf16_path_units() {
    let path = units(r"E:\게임\player.png");
    let count = path.len();
    let frame = encode_frame(&Some(path)).expect("short path encodes");
    assert_eq!(&frame[..4], b"NTDA");
    assert_eq!(u16::from_le_bytes([frame[4], frame[5]]), WIRE_VERSION);
    assert_eq!(u32::from_le_bytes([frame[6], frame[7], frame[8], frame[9]]) as usize, count);
}

#[test]
fn activation_frame_rejects_unbounded_path_before_pipe_io() {
    let oversized = vec![u16::from(b'x'); MAX_PATH_UTF16_UNITS + 1];
    assert!(encode_frame(&Some(oversized)).is_err());
}

#[test]
fn frames_are_read_back() {
    let path = units("E:\\새 그림.ntdr");
    let frame = encode_frame(&Some(path.clone())).unwrap();
    let header = frame[..10].to_vec();
    assert_eq!(read_frame(&header), Ok(FrameBody::Path { byte_len: 24 }));
    assert_eq!(frame_path(&frame[10..].to_vec()), path);
    let bare = encode_frame(&None).unwrap();
    assert_eq!(bare, vec![78, 84, 68, 65, 1, 0, 0, 0, 0, 0]);
    assert_eq!(read_frame(&bare), Ok(FrameBody::Empty));
    let mut magic = bare.clone();
    magic[3] = 0;
    assert_eq!(read_frame(&magic), Err(FrameError::MagicMismatch));
    let mut version = bare.clone();
    version[4] = 2;
    assert_eq!(read_frame(&version), Err(FrameError::VersionUnsupported(2)));
    let mut long = bare;
    long[8] = 1;
    assert_eq!(read_frame(&long), Err(FrameError::LengthAboveLimit(65_536)));
    assert_eq!(
        encode_frame(&Some(vec![1; MAX_PATH_UTF16_UNITS + 1])),
        Err(FrameError::PathTooLong)
    );
    assert_eq!(wide_null("aé"), vec![97, 233, 0]);
    assert_eq!(activation_message(), 0x8000 + 0x4e2);
}

#[test]
fn pipe_operations_are_retired_before_they_fail() {
    assert_eq!(
        pipe_operation(PipeEvent::Start { cancelled: true }),
        PipeStep::Fail(PipeFailure::Cancelled)
    );
    assert_eq!(pipe_operation(PipeEvent::Start { cancelled: false }), PipeStep::Issue);
    assert_eq!(pipe_operation(PipeEvent::Transferred(5)), PipeStep::Done(5));
    assert_eq!(pipe_operation(PipeEvent::IssueFailed), PipeStep::Fail(PipeFailure::Issue));
    assert_eq!(pipe_operation(PipeEvent::Pending), PipeStep::CheckCancelled);
    assert_eq!(
        pipe_operation(PipeEvent::Watch { cancelled: true }),
        PipeStep::Cancel { waited: false }
    );
    assert_eq!(
        pipe_operation(PipeEvent::CancelRetired { waited: false }),
        PipeStep::Fail(PipeFailure::Cancelled)
    );
    assert_eq!(pipe_operation(PipeEvent::WaitFailed), PipeStep::Cancel { waited: true });
    assert_eq!(
        pipe_operation(PipeEvent::CancelRetired { waited: true }),
        PipeStep::Fail(PipeFailure::Wait)
    );
    assert_eq!(pipe_operation(PipeEvent::Signaled), PipeStep::AskResult);
    assert_eq!(pipe_operation(PipeEvent::Result(Some(9))), PipeStep::Done(9));
    assert_eq!(pipe_operation(PipeEvent::Result(None)), PipeStep::Fail(PipeFailure::Result));
    assert!(operation_cancelled(true, None, 0));
    assert!(!operation_cancelled(false, None, 99));
    assert!(operation_cancelled(false, Some(99), 99));
    assert!(!operation_cancelled(false, Some(99), 98));
    assert_eq!(transferred(0, 10, 10), TransferStep::Done);
    assert_eq!(transferred(4, 10, 3), TransferStep::Continue(7));
    assert_eq!(transferred(4, 10, 0), TransferStep::Closed);
}

#[test]
fn second_launches_are_routed_to_the_first() {
    let taken = InstanceEvent::Mutex { created: true, already_exists: true };
    assert_eq!(acquire_or_route(taken), InstanceStep::Route);
    assert_eq!(acquire_or_route(InstanceEvent::Routed(true)), InstanceStep::SecondaryRouted);
    assert_eq!(acquire_or_route(InstanceEvent::Routed(false)), InstanceStep::RouteFailed);
    let free = InstanceEvent::Mutex { created: true, already_exists: false };
    assert_eq!(acquire_or_route(free), InstanceStep::StartListener);
    assert_eq!(acquire_or_route(InstanceEvent::ListenerStarted(true)), InstanceStep::Primary);
    assert_eq!(
        acquire_or_route(InstanceEvent::ListenerStarted(false)),
        InstanceStep::ListenerFailed
    );
    let refused = InstanceEvent::Mutex { created: false, already_exists: false };
    assert_eq!(acquire_or_route(refused), InstanceStep::MutexFailed);
    assert_eq!(route_secondary_invocation(3, true), RouteStep::Routed);
    assert!(matches!(
        route_secondary_invocation(3, false),
        RouteStep::Retry { attempt: 4, .. }
    ));
    assert_eq!(
        route_secondary_invocation(1, false),
        RouteStep::Retry { attempt: 2, note: true }
    );
    assert_eq!(route_secondary_invocation(20, false), RouteStep::Failed);
}

#[test]
fn listeners_stop_between_frames() {
    assert_eq!(activation_listener(ListenerEvent::Round, true), ListenerStep::Stop);
    assert_eq!(activation_listener(ListenerEvent::Round, false), ListenerStep::CreatePipe);
    assert_eq!(
        activation_listener(ListenerEvent::Connected(true), false),
        ListenerStep::ReadFrame
    );
    assert_eq!(activation_listener(ListenerEvent::FrameRead(true), false), ListenerStep::Accept);
    assert_eq!(
        activation_listener(ListenerEvent::FrameRead(false), false),
        ListenerStep::Disconnect
    );
}

#[test]
fn activations_wait_in_order() {
    let mut inbox: ActivationInbox<u32> = ActivationInbox::new();
    for index in 0..8 {
        assert!(inbox.accept(Some(index)).0);
    }
    assert!(!inbox.accept(Some(8)).0);
    assert!(inbox.open_from_dialog(9).is_err());
    let dispatch = inbox.attach_windows(70, 71);
    assert_eq!(dispatch.foreground, Some(70));
    assert_eq!(dispatch.notify, Some(71));
    for index in 0..8 {
        assert_eq!(inbox.take_activation(), Some(index));
    }
    assert_eq!(inbox.take_activation(), None);
}

#[test]
fn invocation_paths_become_absolute() {
    let given = file("cat", "png");
    let canonical = file("CAT", "png");
    let joined = file("below", "png");
    assert_eq!(
        absolute_invocation_path(given.clone(), Some(canonical.clone()), false, None),
        canonical
    );
    assert_eq!(
        absolute_activation_path(given.clone(), None, false, Some(joined.clone())),
        joined
    );
    assert_eq!(absolute_activation_path(given.clone(), None, true, Some(joined)), given);
    assert_eq!(absolute_invocation_path(given.clone(), None, false, None), given);
}

#[test]
fn images_and_projects_are_paired() {
    let image = file("고양이", "PNG");
    let imported =
        ProjectLocation::from_positional_path(image.clone(), ProjectFile::Missing).unwrap();
    assert_eq!(
        imported,
        Some(ProjectLocation::Explicit {
            path: file("고양이", "ntdr"),
            bootstrap_png: Some(image.clone()),
        })
    );
    let paired =
        ProjectLocation::from_positional_path(image.clone(), ProjectFile::NonEmpty).unwrap();
    assert_eq!(paired, Some(stored("고양이")));
    assert!(paired.unwrap().same_storage(&imported.unwrap()));
    assert_eq!(
        ProjectLocation::from_positional_path(image, ProjectFile::Unreadable),
        Err(ActivationError::ProjectUnreadable)
    );
    assert_eq!(
        ProjectLocation::from_positional_path(file("notes", "txt"), ProjectFile::Missing),
        Ok(None)
    );
}

#[test]
fn titles_are_decoded_from_the_stored_name() {
    assert_eq!(stored("새 그림 3").title(), "새 그림 3");
    let broken = ProjectLocation::Explicit {
        path: FilePath {
            directory: Vec::new(),
            name: Some(FileName { stem: vec![97, 0xd800, 98], extension: None }),
        },
        bootstrap_png: None,
    };
    assert_eq!(broken.title(), "a\u{fffd}b");
    let torn = ProjectLocation::Explicit {
        path: FilePath {
            directory: Vec::new(),
            name: Some(FileName {
                stem: vec![0xd834, 0xd834, 0xdd1e, 0xdd1e, 98, 0xd834],
                extension: None,
            }),
        },
        bootstrap_png: None,
    };
    assert_eq!(torn.title(), "\u{fffd}\u{1d11e}\u{fffd}b\u{fffd}");
    let nameless = ProjectLocation::Explicit {
        path: FilePath { directory: units("C:\\"), name: None },
        bootstrap_png: None,
    };
    assert_eq!(nameless.title(), "Untitled");
    let recovery = ProjectLocation::UntitledRecovery(file("recovery", "ntdr"));
    assert_eq!(recovery.title(), "Untitled (Recovery)");
    assert_eq!(recovery.export_path(), None);
    assert_eq!(stored("cat").export_path(), Some(file("cat", "png")));
    assert!(!recovery.same_storage(&stored("recovery")));
    let beside = |directory: &str| ProjectLocation::Explicit {
        path: FilePath {
            directory: units(directory),
            name: Some(FileName { stem: units("cat"), extension: Some(units("ntdr")) }),
        },
        bootstrap_png: None,
    };
    assert!(beside("C:\\art").same_storage(&beside("c:/art/.")));
    assert!(!beside("C:\\art").same_storage(&beside("C:\\Art")));
}

#[test]
fn launches_prefer_the_activated_document() {
    let recovery = file("recovery", "ntdr");
    assert_eq!(
        ProjectLocation::from_environment_or_args(
            Some(stored("given")),
            Some(file("configured", "ntdr")),
            None,
            recovery.clone(),
        ),
        stored("given")
    );
    assert_eq!(
        ProjectLocation::from_environment_or_args(
            None,
            None,
            Some(file("sketch", "ntdr")),
            recovery.clone()
        ),
        stored("sketch")
    );
    assert_eq!(
        ProjectLocation::from_environment_or_args(None, None, None, recovery.clone()),
        ProjectLocation::UntitledRecovery(recovery)
    );
}

#[test]
fn targets_are_checked_before_anything_is_closed() {
    let imported = ProjectLocation::Explicit {
        path: file("cat", "ntdr"),
        bootstrap_png: Some(file("cat", "png")),
    };
    let step = |progress| preflight_project_activation(&imported, progress);
    assert_eq!(step(PreflightProgress::Start), PreflightStep::DecodeImage);
    assert_eq!(
        step(PreflightProgress::ImageDecoded(false)),
        PreflightStep::Refuse(PreflightFailure::Image)
    );
    assert_eq!(step(PreflightProgress::ImageDecoded(true)), PreflightStep::ReadMetadata);
    assert_eq!(
        step(PreflightProgress::Metadata(ProjectFile::Missing)),
        PreflightStep::Accept
    );
    assert_eq!(
        step(PreflightProgress::Metadata(ProjectFile::Unreadable)),
        PreflightStep::Refuse(PreflightFailure::Metadata)
    );
    assert_eq!(
        step(PreflightProgress::Metadata(ProjectFile::NonEmpty)),
        PreflightStep::OpenProject
    );
    assert_eq!(
        step(PreflightProgress::Opened(false)),
        PreflightStep::Refuse(PreflightFailure::Project)
    );
    assert_eq!(
        step(PreflightProgress::TreeLoaded(false)),
        PreflightStep::Refuse(PreflightFailure::LayerTree)
    );
    assert_eq!(
        step(PreflightProgress::CanvasLoaded(false)),
        PreflightStep::Refuse(PreflightFailure::Canvas)
    );
    assert_eq!(
        step(PreflightProgress::HistoryLoaded(false)),
        PreflightStep::Refuse(PreflightFailure::History)
    );
    assert_eq!(step(PreflightProgress::HistoryLoaded(true)), PreflightStep::Accept);
    let recovery = ProjectLocation::UntitledRecovery(file("r", "ntdr"));
    assert_eq!(
        preflight_project_activation(&recovery, PreflightProgress::Start),
        PreflightStep::Refuse(PreflightFailure::NotExternal)
    );
    assert_eq!(
        PreflightFailure::Project.text(),
        ("project activation preflight path=", ": invalid-non-empty-preserved=true")
    );
}

#[test]
fn existing_projects_are_reopened_unchanged() {
    let mut opening =
        ProjectOpening { has_image: false, probing: false, stored_tree: false, reopened: false };
    let mut step = |event| opening.open_materialization_session(event);
    assert_eq!(step(OpenEvent::Start), OpenAction::OpenProject);
    assert_eq!(step(OpenEvent::Opened(true)), OpenAction::LoadTree);
    assert_eq!(step(OpenEvent::TreeLoaded(Some(true))), OpenAction::LoadCanvas);
    assert_eq!(step(OpenEvent::CanvasLoaded(true)), OpenAction::LoadHistory);
    assert_eq!(step(OpenEvent::HistoryLoaded(Some(true))), OpenAction::FindNextId);
    assert_eq!(
        step(OpenEvent::NextIdFound(true)),
        OpenAction::FinishReopened(TreeChoice::Stored)
    );
    assert_eq!(
        step(OpenEvent::NextIdFound(false)),
        OpenAction::Fail(OpenFailure::Identifiers)
    );
    assert_eq!(step(OpenEvent::Opened(false)), OpenAction::Fail(OpenFailure::Project));
    assert_eq!(step(OpenEvent::TreeLoaded(None)), OpenAction::Fail(OpenFailure::LayerTree));
    assert_eq!(step(OpenEvent::CanvasLoaded(false)), OpenAction::Fail(OpenFailure::Canvas));
    assert_eq!(step(OpenEvent::HistoryLoaded(None)), OpenAction::Fail(OpenFailure::History));
    assert_eq!(
        OpenFailure::Project.lead(true),
        "project-open:mode=untitled-recovery:path="
    );
    assert!(OpenFailure::Project.names_path());
    assert_eq!(OpenFailure::History.tail(), ":original-preserved=true");
}

#[test]
fn images_are_imported_into_new_projects() {
    let mut opening =
        ProjectOpening { has_image: true, probing: false, stored_tree: false, reopened: false };
    assert_eq!(
        opening.open_materialization_session(OpenEvent::Start),
        OpenAction::DecodeImage
    );
    assert_eq!(
        opening.open_materialization_session(OpenEvent::ImageDecoded(false)),
        OpenAction::Fail(OpenFailure::Image)
    );
    opening.open_materialization_session(OpenEvent::TreeLoaded(Some(false)));
    let mut action = opening.open_materialization_session(OpenEvent::HistoryLoaded(Some(false)));
    if matches!(action, OpenAction::PersistTree(_)) {
        action = opening.open_materialization_session(OpenEvent::TreePersisted(true));
    }
    assert_eq!(action, OpenAction::PrepareImport);
    assert_eq!(
        opening.open_materialization_session(OpenEvent::ImportPrepared(true)),
        OpenAction::PersistImportCanvas
    );
    assert_eq!(
        opening.open_materialization_session(OpenEvent::ImportCanvasPersisted(false)),
        OpenAction::Fail(OpenFailure::ImportCanvas)
    );
    assert_eq!(
        opening.open_materialization_session(OpenEvent::ImportTreePersisted(false)),
        OpenAction::Fail(OpenFailure::ImportLayers)
    );
    assert_eq!(
        opening.open_materialization_session(OpenEvent::ImportCommitted(false)),
        OpenAction::Fail(OpenFailure::ImportCommit)
    );
    assert_eq!(
        opening.open_materialization_session(OpenEvent::ImportAccepted(false)),
        OpenAction::Fail(OpenFailure::ImportAccept)
    );
    assert!(matches!(
        opening.open_materialization_session(OpenEvent::ImportAccepted(true)),
        OpenAction::FinishNew { imported: true, .. }
    ));
}

#[test]
fn project_identifiers_follow_everything_stored() {
    let cursors = vec![
        HistoryCursor { head: Some(40), snapshot: 9 },
        HistoryCursor { head: None, snapshot: 12 },
    ];
    assert_eq!(next_project_id(20, &cursors), Ok(41));
    assert_eq!(next_project_id(90, &cursors), Ok(91));
    assert_eq!(next_project_id(u128::MAX, &cursors), Err(()));
    let tree = default_layer_tree();
    assert_eq!(initial_active_layer(&tree, Some(LayerId(77))), LayerId(1));
}

#[test]
fn closing_publishes_what_was_saved() {
    let mut window = SharedGpuCanvas::new(stored("cat"));
    window.resume(true);
    assert_eq!(window.begin_close(false, ExportStatus::Idle), CloseStep::DropCanvas);
    assert_eq!(window.close_worker_started(false), Some(CloseFailure::NotStarted));
    assert_eq!(window.close_worker_started(true), None);
    assert_eq!(window.poll_close(false, false), ClosePoll::Wait);
    assert_eq!(
        window.poll_close(true, true),
        ClosePoll::Publish { failure: Some(CloseFailure::Panicked) }
    );
    assert_eq!(window.poll_close(true, false), ClosePoll::Wait);
    assert_eq!(close_result(false, ExportStatus::Idle), CloseResult::Ready);
    assert_eq!(
        close_result(true, ExportStatus::Idle),
        CloseResult::Failed { project_saved: false }
    );
    assert_eq!(
        close_result(false, ExportStatus::Failed { generation: 3 }),
        CloseResult::Failed { project_saved: true }
    );
    assert!(window.may_reopen(true));
    assert!(window.reopen_after_close_failure(false));
    assert!(!window.reopen_after_close_failure(true));
    assert_eq!(window.slot, CanvasSlot::Active);
    assert!(window.frame_submitted());
    assert!(!window.frame_submitted());
}

#[test]
fn failed_activations_return_to_the_source() {
    let mut window = SharedGpuCanvas::new(stored("cat"));
    window.resume(true);
    let start = |name: &str| ActivationEvent::Start {
        saving_as: false,
        workspace_failed: false,
        target: Ok(Some(stored(name))),
    };
    assert_eq!(window.activate_project(start("cat")), ActivationStep::Reused);
    assert_eq!(window.activate_project(start("dog")), ActivationStep::Preflight);
    assert_eq!(
        window.activate_project(ActivationEvent::Preflighted(true)),
        ActivationStep::CloseAdmission
    );
    assert_eq!(
        window.activate_project(ActivationEvent::Admitted(true)),
        ActivationStep::DrainCanvas
    );
    assert_eq!(
        window.activate_project(ActivationEvent::Drained {
            workspace_failed: false,
            export: ExportStatus::Idle,
        }),
        ActivationStep::OpenTarget
    );
    assert_eq!(window.location, stored("dog"));
    assert_eq!(
        window.activate_project(ActivationEvent::Opened(false)),
        ActivationStep::ReopenSource
    );
    assert_eq!(window.location, stored("cat"));
    assert_eq!(
        window.activate_project(ActivationEvent::Reopened(true)),
        ActivationStep::Refuse(ActivationRefusal::TargetNotOpened)
    );
    assert_eq!(window.slot, CanvasSlot::Active);
    assert_eq!(
        window.activate_project(ActivationEvent::Reopened(false)),
        ActivationStep::Refuse(ActivationRefusal::NothingOpened)
    );
}

#[test]
fn unusable_activations_are_refused() {
    let mut window = SharedGpuCanvas::new(stored("cat"));
    window.resume(true);
    let busy = ActivationEvent::Start {
        saving_as: true,
        workspace_failed: false,
        target: Ok(Some(stored("dog"))),
    };
    assert_eq!(
        window.activate_project(busy),
        ActivationStep::Refuse(ActivationRefusal::Busy)
    );
    let unreadable = ActivationEvent::Start {
        saving_as: false,
        workspace_failed: false,
        target: Err(ActivationError::ProjectUnreadable),
    };
    assert_eq!(
        window.activate_project(unreadable),
        ActivationStep::Refuse(ActivationRefusal::Unreadable)
    );
    let unsupported = ActivationEvent::Start {
        saving_as: false,
        workspace_failed: false,
        target: Ok(None),
    };
    assert_eq!(
        window.activate_project(unsupported),
        ActivationStep::Refuse(ActivationRefusal::Unsupported)
    );
    assert_eq!(
        window.activate_project(ActivationEvent::Preflighted(false)),
        ActivationStep::Refuse(ActivationRefusal::Preflight)
    );
    assert_eq!(
        window.activate_project(ActivationEvent::Admitted(false)),
        ActivationStep::Refuse(ActivationRefusal::Admission)
    );
    let failed_export = ActivationEvent::Drained {
        workspace_failed: false,
        export: ExportStatus::Failed { generation: 1 },
    };
    assert_eq!(window.activate_project(failed_export), ActivationStep::RestoreForExport);
    assert_eq!(
        window.activate_project(ActivationEvent::ExportRestored(true)),
        ActivationStep::Refuse(ActivationRefusal::SourceExportFailed)
    );
    let lost =
        ActivationEvent::Drained { workspace_failed: true, export: ExportStatus::Idle };
    assert_eq!(
        window.activate_project(lost),
        ActivationStep::Refuse(ActivationRefusal::SourceNotSaved)
    );
    assert_eq!(window.location, stored("cat"));
}

#[test]
fn copies_are_adopted_only_when_they_open() {
    let mut window = SharedGpuCanvas::new(stored("cat"));
    window.resume(true);
    let start = SaveAsProgress::Start { target_valid: true, workspace_failed: false };
    assert_eq!(window.save_as(start), SaveAsStep::RenderCanvas);
    assert_eq!(
        window.save_as(SaveAsProgress::Rendered { transform_active: true }),
        SaveAsStep::Refuse(SaveAsRefusal::TransformPending)
    );
    assert_eq!(
        window.save_as(SaveAsProgress::Rendered { transform_active: false }),
        SaveAsStep::SpawnCopy
    );
    assert_eq!(
        window.save_as(SaveAsProgress::Spawned { started: true, workspace_failed: false }),
        SaveAsStep::Started
    );
    let waiting =
        SaveAsEvent::Answer { answer: SaveAsAnswer::Empty, workspace_failed: false };
    assert_eq!(window.poll_save_as(waiting), SaveAsPoll::Idle);
    let copied = SaveAsEvent::Answer {
        answer: SaveAsAnswer::Copied(stored("copy")),
        workspace_failed: false,
    };
    assert_eq!(window.poll_save_as(copied), SaveAsPoll::OpenCandidate);
    assert_eq!(window.location, stored("cat"));
    assert_eq!(window.poll_save_as(SaveAsEvent::Opened(false)), SaveAsPoll::OpenCurrent);
    assert_eq!(
        window.poll_save_as(SaveAsEvent::Reopened(true)),
        SaveAsPoll::Finish {
            keep_export_failure: true,
            notice: Some(SaveAsFailure::CopyNotOpened),
            source_lost: false,
        }
    );
    assert_eq!(window.location, stored("cat"));
}

#[test]
fn copies_that_open_become_the_document() {
    let mut window = SharedGpuCanvas::new(stored("cat"));
    window.resume(true);
    window.work.save_as_worker = true;
    let copied = SaveAsEvent::Answer {
        answer: SaveAsAnswer::Copied(stored("copy")),
        workspace_failed: false,
    };
    assert_eq!(window.poll_save_as(copied), SaveAsPoll::OpenCandidate);
    assert_eq!(
        window.poll_save_as(SaveAsEvent::Opened(true)),
        SaveAsPoll::Finish { keep_export_failure: false, notice: None, source_lost: false }
    );
    assert_eq!(window.location, stored("copy"));
}

#[test]
fn unsaved_sources_are_never_copied() {
    let mut window = SharedGpuCanvas::new(stored("cat"));
    window.resume(true);
    for (target_valid, workspace_failed, refusal) in
        [(false, false, SaveAsRefusal::Target), (true, true, SaveAsRefusal::Busy)]
    {
        assert_eq!(
            window.save_as(SaveAsProgress::Start { target_valid, workspace_failed }),
            SaveAsStep::Refuse(refusal)
        );
    }
    window.suspend();
    let start = SaveAsProgress::Start { target_valid: true, workspace_failed: false };
    assert_eq!(window.save_as(start), SaveAsStep::Refuse(SaveAsRefusal::NotReady));
    assert_eq!(
        window.save_as(SaveAsProgress::Spawned { started: false, workspace_failed: true }),
        SaveAsStep::Refuse(SaveAsRefusal::NotStarted)
    );
    assert_eq!(copy_refusal(true), Some(SaveAsFailure::SourceNotSaved));
    assert_eq!(copy_refusal(false), None);
    window.work.save_as_worker = true;
    let lost = SaveAsEvent::Answer { answer: SaveAsAnswer::Disconnected, workspace_failed: true };
    assert_eq!(window.poll_save_as(lost), SaveAsPoll::Stop(SaveAsFailure::WorkerGone));
    assert_eq!(window.location, stored("cat"));
}

#[test]
fn copies_publish_the_project_last() {
    let order = [
        CopyStage::Validate,
        CopyStage::LockSource,
        CopyStage::CreateStaging,
        CopyStage::CreateCopy,
        CopyStage::CopyBytes,
        CopyStage::SyncCopy,
        CopyStage::OpenCopy,
        CopyStage::LoadHistory,
        CopyStage::LoadCanvas,
        CopyStage::LoadTree,
        CopyStage::Flatten,
        CopyStage::EncodeImage,
        CopyStage::SyncImage,
        CopyStage::PublishImage,
        CopyStage::PublishProject,
    ];
    for pair in order.windows(2) {
        assert_eq!(copy_closed_project(pair[0], true), CopyStep::Do(pair[1]));
        assert_eq!(copy_closed_project(pair[0], false), CopyStep::Failed(pair[0]));
    }
    assert_eq!(copy_closed_project(CopyStage::PublishProject, true), CopyStep::Copied);
    assert_eq!(staging_name(7, 8), ".nyatidraw-save-as-7-8");
    assert_eq!(copied_tree(true, false), TreeChoice::Stored);
    assert_eq!(copied_tree(false, true), TreeChoice::Legacy);
    assert_eq!(copied_tree(false, false), TreeChoice::Default);
}

#[test]
fn taken_copy_targets_are_refused() {
    let target = file("copy", "ntdr");
    assert_eq!(image_beside(&target), file("copy", "png"));
    assert_eq!(validate_target(&target, TargetEntry::Free, TargetEntry::Free), Ok(()));
    assert_eq!(
        validate_target(&target, TargetEntry::Taken, TargetEntry::Free),
        Err(TargetError::Taken(TargetFile::Project))
    );
    assert_eq!(
        validate_target(&target, TargetEntry::Free, TargetEntry::Taken),
        Err(TargetError::Taken(TargetFile::Image))
    );
    assert_eq!(
        validate_target(&target, TargetEntry::Free, TargetEntry::Unknown),
        Err(TargetError::Unknown(TargetFile::Image))
    );
    assert_eq!(
        validate_target(&file("copy", "png"), TargetEntry::Free, TargetEntry::Free),
        Err(TargetError::Extension)
    );
}

#[test]
fn new_drawings_pass_over_existing_files() {
    let mut probes = vec![
        NameProbe::ProjectExists,
        NameProbe::ImageExists,
        NameProbe::Created,
    ]
    .into_iter();
    let mut step = reserve_new_drawing(true, true);
    let mut tried = Vec::new();
    while let ReserveStep::Try(index) = step {
        tried.push(index);
        step = reserve_in(index, probes.next().unwrap());
    }
    assert_eq!(tried, vec![1, 2, 3]);
    assert_eq!(step, ReserveStep::Reserved(3));
    assert_eq!(
        drawing_path(&units("C:\\art"), 3),
        FilePath {
            directory: units("C:\\art"),
            name: Some(FileName { stem: units("새 그림 3"), extension: Some(units("ntdr")) }),
        }
    );
    assert_eq!(directory(None), None);
    assert_eq!(
        reserve_new_drawing(false, true),
        ReserveStep::Failed(ReserveError::NoDirectory)
    );
    assert_eq!(
        reserve_new_drawing(true, false),
        ReserveStep::Failed(ReserveError::DirectoryNotCreated)
    );
    assert_eq!(
        reserve_in(5, NameProbe::ImageUnknown),
        ReserveStep::Failed(ReserveError::ImageUnknown)
    );
    assert_eq!(
        reserve_in(5, NameProbe::NotCreated),
        ReserveStep::Failed(ReserveError::NotCreated)
    );
    assert_eq!(
        reserve_in(100_000, NameProbe::ImageExists),
        ReserveStep::Failed(ReserveError::NoName)
    );
}

#[test]
fn exports_replace_only_while_they_are_current() {
    assert_eq!(export_current_png(2, ExportProgress::Start), ExportStep::Composite);
    assert_eq!(
        export_current_png(2, ExportProgress::Composited(false)),
        ExportStep::Finish(ExportPngOutcome::Failed(ExportFailure::Composite))
    );
    assert_eq!(
        export_current_png(2, ExportProgress::Encoded(false)),
        ExportStep::RemoveAndFinish(ExportPngOutcome::Failed(ExportFailure::Encode))
    );
    assert_eq!(
        export_current_png(2, ExportProgress::Synced(false)),
        ExportStep::RemoveAndFinish(ExportPngOutcome::Failed(ExportFailure::Sync))
    );
    assert_eq!(
        export_current_png(2, ExportProgress::GateHeld { latest: 3 }),
        ExportStep::RemoveAndFinish(ExportPngOutcome::Superseded { latest: 3 })
    );
    assert_eq!(
        export_current_png(2, ExportProgress::GateHeld { latest: 2 }),
        ExportStep::Replace
    );
    assert_eq!(
        finished_export_status(2, ExportPngOutcome::Replaced),
        Some(ExportStatus::Current { generation: 2 })
    );
    assert_eq!(finished_export_status(2, ExportPngOutcome::Superseded { latest: 3 }), None);
    assert_eq!(
        finished_export_status(2, ExportPngOutcome::Failed(ExportFailure::Replace)),
        Some(ExportStatus::Failed { generation: 2 })
    );
    assert_eq!(
        export_temporary_name(Some("cat.png".to_string()), 12, 34),
        ".cat.png.~tmp-12-34"
    );
    assert_eq!(export_temporary_name(None, 1, 2), ".export.png.~tmp-1-2");
}

#[test]
fn export_generations_run_out_visibly() {
    let mut gate = ExportGenerationGate { next: u64::MAX, latest: u64::MAX };
    assert_eq!(gate.next_generation(), Err(()));
    assert_eq!(gate.reserve_export(), Err(()));
    let mut fresh = ExportGenerationGate::new();
    assert_eq!(fresh.next_generation(), Ok(1));
    assert_eq!(fresh.reserve_export(), Ok(ExportStatus::Waiting { generation: 1 }));
    assert!(fresh.is_current(1));
}

#[test]
fn receipts_follow_the_exported_file() {
    let path = file("cat", "png");
    let facts = FileFacts { is_file: true, bytes: 10, modified_ns: 99 };
    let receipt = ExportReceipt::capture(5, &path, Some(facts)).unwrap();
    assert!(receipt.matches(5, &path, Some(facts)));
    assert!(!receipt.matches(6, &path, Some(facts)));
    assert!(!receipt.matches(5, &file("dog", "png"), Some(facts)));
    let touched = FileFacts { modified_ns: 100, ..facts };
    assert!(!receipt.matches(5, &path, Some(touched)));
    assert!(!receipt.matches(5, &path, None));
    let directory = FileFacts { is_file: false, ..facts };
    assert!(ExportReceipt::capture(5, &path, Some(directory)).is_none());
}

#[test]
fn actors_run_their_stages_in_order() {
    assert_eq!(actor_wait(true, false, false), ActorWait::Nothing);
    assert_eq!(actor_wait(false, false, false), ActorWait::Sleep);
    assert_eq!(actor_wait(false, true, false), ActorWait::Poll);
    assert_eq!(actor_wait(false, false, true), ActorWait::Poll);
    let facts = BatchFacts {
        controls: Controls { close: true, reopen: true, save_as: true },
        has_activations: true,
        retire: false,
        closing: true,
    };
    let mut stage = ActorStage::Resize;
    let mut seen = vec![stage];
    while stage != ActorStage::Done && stage != ActorStage::Ended {
        stage = stage.next(facts);
        seen.push(stage);
        assert!(seen.len() < 12);
    }
    assert!(seen.contains(&ActorStage::SaveAs));
    assert!(seen.contains(&ActorStage::Activate));
    let retired = BatchFacts { retire: true, ..facts };
    let mut stage = ActorStage::Resize;
    for _ in 0..12 {
        if stage != ActorStage::Ended {
            stage = stage.next(retired);
        }
    }
    assert_eq!(stage, ActorStage::Ended);
}

#[test]
fn actors_start_once() {
    assert!(!RenderActor::new().start(false, false));
    assert!(!RenderActor::new().start(true, true));
    let mut actor = RenderActor::new();
    assert!(actor.start(true, false));
    actor.spawned(true);
    assert!(!actor.start(true, false));
    actor.run_ended();
    assert!(actor.finished(true));
}
