use nyatidraw_desktop::artwork::{
    ArtworkAnswer, EditProgress, EditStep, NativeEdit, NativeEditStep, PollStep, SelectionRefused,
    WorkerFailure,
};
use nyatidraw_desktop::canvas::{
    ActiveCanvas, ArtworkJob, BridgeFacts, EditError, ExportStatus, WorkFacts,
};
use nyatidraw_desktop::closing::{ClosingEdit, ClosingFailure, ClosingSave};
use nyatidraw_desktop::command::CommandRejectReason;
use nyatidraw_desktop::commits::{LayerStage, LayerStep, StrokeStage, StrokeStep};
use nyatidraw_desktop::dirty::{next_dirty, DirtyEvent};
use nyatidraw_desktop::document::{
    CanvasSpec, GroupId, LayerId, LayerTreeNodeId, PixelPoint, PixelSize, Rgba,
};
use nyatidraw_desktop::drawing::{
    BrushDefaults, BrushSettings, DrawingConfig, DrawingControls, DrawingTool, EditSettings,
    EditSource, FillSettings, PencilTemplate, SelectionMode,
};
use nyatidraw_desktop::edit::{EditCommand, GestureError};
use nyatidraw_desktop::editor_command::{
    pause_step, projection_rejection, CommandFacts, EditorCommand, EditorStep, HistoryCommand,
    PauseProgress, PauseStep, ProjectionError, ViewportCommand,
};
use nyatidraw_desktop::effect::{InkEffect, Notice};
use nyatidraw_desktop::frame::{
    CommandProgress, CommandStep, FrameFacts, FrameStage, InputHold, PublicationFailure,
    UsagePublication,
};
use nyatidraw_desktop::gpu_ops::GpuState;
use nyatidraw_desktop::history_install::{
    uploads_of_tree, HistoryMove, SurfaceChange, TreeState,
};
use nyatidraw_desktop::input::{PickSequence, PointerPhase, StylusSample};
use nyatidraw_desktop::layer_command::{
    after_delete, apply_layer_command, layer_commit_needed, layer_commit_step, paste_layer,
    tree_edit_rejection, LayerBlendMode, LayerCommand, LayerCommitStep, LayerPixelChange,
    TreeEdit, TreeError,
};
use nyatidraw_desktop::layer_tree::{
    default_layer_tree, empty_raster, legacy_layer_tree, next_default_node_name,
    next_layer_node_id, plain_group, raster_layer_ids, valid_active_layer, LayerTree,
    LayerTreeNode,
};
use nyatidraw_desktop::picker::{PickerSource, PickerToken};
use nyatidraw_desktop::picker_preview::{
    patch_center, patch_points, sample_patch, PickerPreview, PickerWake, PreviewAnswer,
    PreviewFacts, PreviewNext, PreviewSnapshot, PREVIEW_INTERVAL_NS,
};
use nyatidraw_desktop::stroke_pipeline::{PipelineLimits, Selection, StrokePipeline};
use nyatidraw_desktop::tile_map::TileKey;
use nyatidraw_desktop::tool_command::{selected_tool, ToolCommand};
use nyatidraw_desktop::transform::{
    AffineTransform, Corners, MilliPoint, ScalePpm, SelectionBounds, TransformCommand,
    TransformProjection, TransformRefusal,
};
use nyatidraw_desktop::transform_panel::{
    InputError, PanelChange, TransformInputs, TransformPanel,
};
use nyatidraw_desktop::transform_runtime::{DragGeometry, TransformProgress, TransformStep};
use nyatidraw_desktop::usage::StrokeDrain;
use nyatidraw_desktop::writer::{
    exit_fails_export, probe_kind, restored_tree, system_timestamp_ns, thumbnail_layers,
    ArtworkResult, Delivery, HistoryStage, HistoryStep, ProbeKind, StrokeResult, WorkerExit,
    Writer, WriterEffect, WriterFailure, WriterTask, WriterWork,
};
use nyatidraw_desktop::export::{ExportEnqueueError, ExportGenerationGate, ExportPngOutcome};

type Canvas = ActiveCanvas<(i32, i32), u32, u8>;

const LIVE: LayerId = LayerId(1);

const BRIDGE: BridgeFacts = BridgeFacts {
    picker_epoch: 3,
    closing: false,
    workspace_failed: false,
    temporary_pick_pending: false,
};

const WORK: WorkFacts =
    WorkFacts { scene_live_stroke: false, writer_pending: 0, export: ExportStatus::Idle };

const FACTS: CommandFacts =
    CommandFacts { bridge: BRIDGE, work: WORK, layer_known: true, solo_node: None };

const PAGE: CanvasSpec = CanvasSpec { width_px: 64, height_px: 32, pixels_per_inch: 96 };

const IDENTITY: AffineTransform = AffineTransform {
    offset_milli: MilliPoint { x: 0, y: 0 },
    scale_ppm: ScalePpm { x: 1_000_000, y: 1_000_000 },
    rotation_millidegrees: 0,
    flip_x: false,
    flip_y: false,
};

const JOB: ArtworkJob = ArtworkJob {
    transform: None,
    temporary_picker: None,
    picker_token: None,
    active_layer: None,
};

fn settings() -> BrushSettings {
    BrushSettings {
        size_pressure: true,
        opacity_pressure: true,
        size_minimum_u16: 0,
        opacity_minimum_u16: 0,
        hardness_u16: 65_535,
        smoothing: 10,
    }
}

fn drawing(tool: DrawingTool) -> DrawingConfig {
    DrawingConfig::from_projection(
        DrawingControls {
            edit_settings: EditSettings {
                source: EditSource::ActiveLayer,
                tolerance: 0,
                fill: FillSettings { gap_close_px: 0, expand_px: 0, antialias: true },
                selection_mode: SelectionMode::Replace,
            },
            drawing_tool: tool,
            pencil_template: PencilTemplate::Mechanical2H,
            brush_size_tenths: 80,
            brush_opacity_u16: 65_535,
            brush_settings: settings(),
            brush_color: Rgba { red: 0, green: 0, blue: 0, alpha: 255 },
            background_color: Rgba { red: 255, green: 255, blue: 255, alpha: 255 },
        },
        BrushDefaults {
            pencil: settings(),
            pen: settings(),
            brush: settings(),
            eraser: settings(),
            graphite: settings(),
        },
    )
}

fn canvas(tool: DrawingTool) -> Canvas {
    let stroke = StrokePipeline::new(
        drawing(tool),
        LIVE,
        PipelineLimits { backlog: 2, samples_per_stroke: 16 },
    );
    ActiveCanvas::new(stroke, drawing(tool), LIVE, true, false)
}

fn projection(generation: u64) -> TransformProjection {
    let corner = MilliPoint { x: 0, y: 0 };
    TransformProjection {
        generation,
        transform: IDENTITY,
        origin: PixelPoint { x: 0, y: 0 },
        size: PixelSize { width: 4, height: 4 },
        corners_milli: Corners { first: corner, second: corner, third: corner, fourth: corner },
        can_commit: true,
    }
}

fn begin_pick(canvas: &mut Canvas, temporary: bool) -> PickerToken {
    let sample = StylusSample {
        sequence: 4,
        timestamp_ns: 0,
        device_id: 7,
        phase: PointerPhase::Begin,
        eraser: false,
        viewport_revision: 5,
        reading: (0, 0),
    };
    let settings = canvas.drawing.edit_settings;
    canvas.stroke.gesture.edit_gesture = true;
    canvas.stroke.begin_picker(&sample, PixelPoint { x: 1, y: 2 }, 3, settings, temporary);
    canvas.stroke.gesture.picker.unwrap().token
}

fn tree_of(ids: &[u128]) -> LayerTree {
    let children = ids
        .iter()
        .map(|id| LayerTreeNode::Raster(empty_raster(LayerId(*id), format!("레이어 {id}"))))
        .collect();
    LayerTree { root: plain_group(GroupId(100), "root".to_string(), children) }
}

#[test]
fn edits_are_paused_queued_and_owned_by_one_job() {
    let mut canvas = canvas(DrawingTool::Fill);
    let command = EditCommand::Artwork(5);
    assert_eq!(canvas.enqueue_edit(command, EditProgress::Start), EditStep::CheckIdle);
    assert_eq!(canvas.enqueue_edit(command, EditProgress::Idle(Ok(()))), EditStep::Pause);
    let job = match canvas.enqueue_edit(command, EditProgress::Paused(true)) {
        EditStep::Queue(job) => job,
        other => panic!("unexpected {other:?}"),
    };
    assert_eq!(
        canvas.enqueue_edit(command, EditProgress::Queued(true)),
        EditStep::Return(Ok(false))
    );
    assert_eq!(canvas.artwork_job, Some(job));
    assert!(canvas.edit.busy);
    assert_eq!(
        canvas.ensure_artwork_command_idle(WORK),
        Err(CommandRejectReason::CommandQueueBusy)
    );
    assert_eq!(
        canvas.enqueue_edit(command, EditProgress::Paused(false)),
        EditStep::Return(Err(CommandRejectReason::CommandQueueBusy))
    );
}

#[test]
fn pages_are_checked_before_they_are_resized() {
    let mut canvas = canvas(DrawingTool::Pen);
    let size = PixelSize { width: 9, height: 9 };
    let command = EditCommand::ResizePage { size };
    assert_eq!(
        canvas.enqueue_edit(command, EditProgress::Idle(Ok(()))),
        EditStep::CheckPage(size)
    );
    assert_eq!(
        canvas.enqueue_edit(command, EditProgress::PageChecked(false)),
        EditStep::Return(Err(CommandRejectReason::WorkspaceFailed))
    );
    assert_eq!(
        canvas.enqueue_edit(EditCommand::PasteSelection, EditProgress::Start),
        EditStep::Transform(TransformCommand::Paste)
    );
}

#[test]
fn picked_colors_are_adopted_while_the_contact_lives() {
    let mut canvas = canvas(DrawingTool::Eyedropper);
    let token = begin_pick(&mut canvas, false);
    canvas.artwork_job = Some(ArtworkJob { picker_token: Some(token), ..JOB });
    let picked = Rgba { red: 9, green: 8, blue: 7, alpha: 255 };
    let answer =
        ArtworkAnswer::Edit { active_layer: None, sampled_color: Some(picked), changed: false };
    assert_eq!(canvas.poll_artwork(ArtworkAnswer::Empty, BRIDGE), PollStep::Idle);
    assert_eq!(canvas.poll_artwork(answer, BRIDGE), PollStep::InstallEdit { changed: false });
    assert_eq!(canvas.drawing.color, picked);
    canvas.settle_artwork(None, 12);
    assert_eq!(canvas.artwork_job, None);
    assert!(!canvas.edit.busy);
    assert_eq!(canvas.publication_base, Some(12));
    assert!(canvas.stroke.effects.contains(&InkEffect::ResumeAfterEdit));
}

#[test]
fn lost_picks_change_no_color() {
    let mut canvas = canvas(DrawingTool::Eyedropper);
    let token = begin_pick(&mut canvas, false);
    canvas.artwork_job = Some(ArtworkJob { picker_token: Some(token), ..JOB });
    let before = canvas.drawing.color;
    let answer = ArtworkAnswer::Edit {
        active_layer: Some(LayerId(9)),
        sampled_color: Some(Rgba { red: 9, green: 8, blue: 7, alpha: 255 }),
        changed: false,
    };
    let moved_on = BridgeFacts { picker_epoch: 4, ..BRIDGE };
    assert_eq!(canvas.poll_artwork(answer, moved_on), PollStep::Settle { error: None });
    assert_eq!(canvas.drawing.color, before);
    assert_eq!(canvas.active_layer, LIVE);
}

#[test]
fn failed_workers_stop_the_workspace() {
    let mut canvas = canvas(DrawingTool::Fill);
    canvas.artwork_job = Some(JOB);
    assert_eq!(
        canvas.poll_artwork(ArtworkAnswer::Disconnected, BRIDGE),
        PollStep::Fail(WorkerFailure::Disconnected)
    );
    assert_eq!(
        canvas.poll_artwork(ArtworkAnswer::Fatal(3), BRIDGE),
        PollStep::Fail(WorkerFailure::Reported(3))
    );
    assert_eq!(canvas.artwork_job, Some(JOB));
    assert_eq!(WorkerFailure::Disconnected.message(), Some("Artwork worker disconnected"));
    assert_eq!(
        canvas.poll_artwork(ArtworkAnswer::Rejected(4), BRIDGE),
        PollStep::Settle { error: Some(EditError::Worker(4)) }
    );
}

#[test]
fn temporary_picks_are_answered_when_they_settle() {
    let mut canvas = canvas(DrawingTool::Pen);
    let sequence = PickSequence { device: 7, sequence: 5 };
    canvas.artwork_job = Some(ArtworkJob { temporary_picker: Some(sequence), ..JOB });
    canvas.stroke.effects.clear();
    canvas.settle_artwork(None, 1);
    assert_eq!(
        canvas.stroke.effects,
        vec![InkEffect::CompleteTemporaryPick(sequence), InkEffect::ResumeAfterEdit]
    );
}

#[test]
fn busy_picks_wait_for_their_turn() {
    let mut canvas = canvas(DrawingTool::Pen);
    let sequence = PickSequence { device: 7, sequence: 5 };
    let command = EditCommand::PickColor {
        point: PixelPoint { x: 1, y: 1 },
        source: EditSource::AllVisible,
    };
    let edit =
        NativeEdit { command, temporary_picker: Some(sequence), picker_token: None };
    canvas.native_edit_enqueued(
        edit,
        Err(CommandRejectReason::CommandQueueBusy),
        BRIDGE,
        1,
    );
    assert_eq!(canvas.stroke.gesture.completed_edit, Some(Ok(command)));
    assert_eq!(canvas.stroke.gesture.completed_temporary_picker, Some(sequence));
    canvas.native_edit_enqueued(edit, Err(CommandRejectReason::LayerLocked), BRIDGE, 1);
    assert_eq!(
        canvas.edit.error,
        Some(EditError::NotApplied(CommandRejectReason::LayerLocked))
    );
}

#[test]
fn finished_gestures_become_edits() {
    let mut canvas = canvas(DrawingTool::Fill);
    assert_eq!(canvas.adopt_native_edit(BRIDGE, 1), NativeEditStep::Nothing);
    canvas.stroke.gesture.completed_edit = Some(Ok(EditCommand::Artwork(6)));
    assert_eq!(
        canvas.adopt_native_edit(BRIDGE, 1),
        NativeEditStep::Enqueue(NativeEdit {
            command: EditCommand::Artwork(6),
            temporary_picker: None,
            picker_token: None,
        })
    );
    assert_eq!(canvas.stroke.gesture.completed_edit, None);
    canvas.stroke.gesture.completed_edit = Some(Err(GestureError::Overlapping));
    assert_eq!(canvas.adopt_native_edit(BRIDGE, 1), NativeEditStep::Publish);
    assert_eq!(canvas.edit.error, Some(EditError::Gesture(GestureError::Overlapping)));
}

#[test]
fn selections_are_shown_once_the_painters_have_them() {
    let mut canvas = canvas(DrawingTool::Wand);
    let first = Selection { mask: 1, bounds: None, selected_pixels: 4 };
    assert!(canvas.selection_mask_changes(&Some(first)));
    assert_eq!(canvas.install_selection(Some(first), false), Err(SelectionRefused));
    assert_eq!(canvas.stroke.selection, None);
    assert_eq!(canvas.install_selection(Some(first), true), Ok(()));
    let recounted = Selection { selected_pixels: 5, ..first };
    assert!(!canvas.selection_mask_changes(&Some(recounted)));
    assert_eq!(canvas.install_selection(Some(recounted), false), Ok(()));
    assert_eq!(canvas.stroke.selection, Some(recounted));
    assert!(canvas.selection_mask_changes(&None));
}

#[test]
fn released_picks_hold_back_other_commands() {
    let mut canvas = canvas(DrawingTool::Eyedropper);
    begin_pick(&mut canvas, false);
    canvas.stroke.gesture.picker.as_mut().unwrap().released = true;
    assert_eq!(
        canvas.apply_editor_command(&EditorCommand::Save, FACTS),
        EditorStep::ReserveExport
    );
    assert_eq!(
        canvas.apply_editor_command(&EditorCommand::History(HistoryCommand::Undo), FACTS),
        EditorStep::Return(Err(CommandRejectReason::CommandQueueBusy))
    );
    let cancel = EditorCommand::Tool(ToolCommand::CancelGesture);
    assert_eq!(canvas.apply_editor_command(&cancel, FACTS), EditorStep::ExecuteGpuOps);
    assert_eq!(canvas.stroke.gesture.picker, None);
}

#[test]
fn commands_wait_for_jobs_and_transforms() {
    let mut canvas = canvas(DrawingTool::Pen);
    canvas.artwork_job = Some(JOB);
    assert_eq!(
        canvas.apply_editor_command(&EditorCommand::History(HistoryCommand::Undo), FACTS),
        EditorStep::Return(Err(CommandRejectReason::CommandQueueBusy))
    );
    let color = ToolCommand::SetColor(Rgba { red: 1, green: 1, blue: 1, alpha: 1 });
    assert_eq!(
        canvas.apply_editor_command(&EditorCommand::Tool(color), FACTS),
        EditorStep::Return(Err(CommandRejectReason::CommandQueueBusy))
    );
    canvas.artwork_job = None;
    canvas.stroke.transform.projection = Some(projection(1));
    assert_eq!(
        canvas.apply_editor_command(&EditorCommand::History(HistoryCommand::Undo), FACTS),
        EditorStep::Return(Err(CommandRejectReason::CommandQueueBusy))
    );
    assert_eq!(
        canvas.stroke.effects.last(),
        Some(&InkEffect::PublishNotice(Notice::TransformPending))
    );
}

#[test]
fn commands_are_sent_where_they_belong() {
    let mut canvas = canvas(DrawingTool::Pen);
    assert_eq!(
        canvas.apply_editor_command(&EditorCommand::Save, FACTS),
        EditorStep::ReserveExport
    );
    canvas.has_export_path = false;
    assert_eq!(
        canvas.apply_editor_command(&EditorCommand::Save, FACTS),
        EditorStep::Return(Err(CommandRejectReason::UnsupportedCommand))
    );
    assert_eq!(
        canvas.apply_editor_command(&EditorCommand::History(HistoryCommand::Redo), FACTS),
        EditorStep::History
    );
    let outside =
        EditorCommand::Viewport(ViewportCommand::CenterPageAt { page_x_10k: -1, page_y_10k: 0 });
    assert_eq!(
        canvas.apply_editor_command(&outside, FACTS),
        EditorStep::Return(Err(CommandRejectReason::InvalidViewport))
    );
    let activate = EditorCommand::Layer(LayerCommand::SetActive(LayerId(5)));
    assert_eq!(
        canvas.apply_editor_command(&activate, CommandFacts { layer_known: false, ..FACTS }),
        EditorStep::Return(Err(CommandRejectReason::UnknownLayer))
    );
    assert_eq!(
        canvas.apply_editor_command(&activate, FACTS),
        EditorStep::Return(Ok(false))
    );
    assert_eq!(canvas.active_layer, LayerId(5));
    let solo = LayerTreeNodeId::Raster(LayerId(5));
    let toggle = EditorCommand::Layer(LayerCommand::ToggleSolo(solo));
    assert_eq!(
        canvas.apply_editor_command(&toggle, FACTS),
        EditorStep::SetSolo(Some(solo))
    );
    assert_eq!(
        canvas
            .apply_editor_command(&toggle, CommandFacts { solo_node: Some(solo), ..FACTS }),
        EditorStep::SetSolo(None)
    );
    assert_eq!(canvas.save_reserved(Err(())), Err(CommandRejectReason::CommandQueueBusy));
    assert_eq!(canvas.save_reserved(Ok(4)), Ok(false));
    assert_eq!(canvas.pending_save, Some(4));
}

#[test]
fn stale_commands_are_refused_unless_they_commute() {
    let canvas = canvas(DrawingTool::Pen);
    let stale = CommandRejectReason::StaleProjection { based_on: 1, current: 2 };
    let undo = EditorCommand::History(HistoryCommand::Undo);
    assert_eq!(canvas.check_command_revision(&undo, 1, 2, false, Err(stale)), Err(stale));
    assert_eq!(canvas.check_command_revision(&undo, 2, 2, false, Ok(())), Ok(()));
    assert_eq!(
        canvas.check_command_revision(&undo, 2, 2, true, Ok(())),
        Err(CommandRejectReason::WorkspaceFailed)
    );
    let resize = EditorCommand::Tool(ToolCommand::AdjustSizeSteps {
        tool: DrawingTool::Pen,
        steps: 1,
    });
    assert_eq!(canvas.check_command_revision(&resize, 1, 2, false, Err(stale)), Ok(()));
}

#[test]
fn pauses_are_checked_before_work() {
    assert_eq!(pause_step(PauseProgress::Idle(Ok(()))), PauseStep::Pause);
    assert_eq!(pause_step(PauseProgress::Paused(true)), PauseStep::Proceed);
    assert_eq!(
        pause_step(PauseProgress::Paused(false)),
        PauseStep::Return(CommandRejectReason::CommandQueueBusy)
    );
    assert_eq!(
        projection_rejection(ProjectionError::RevisionExhausted),
        CommandRejectReason::RevisionExhausted
    );
    assert_eq!(
        projection_rejection(ProjectionError::UnknownActiveLayer),
        CommandRejectReason::UnknownLayer
    );
}

#[test]
fn published_commands_are_answered_once() {
    let canvas = canvas(DrawingTool::Pen);
    let received =
        CommandProgress::Received { workspace_failed: false, validation: Ok(()) };
    assert_eq!(canvas.apply_command(&EditorCommand::Dock, 1, 1, received), CommandStep::Apply);
    assert_eq!(
        canvas.apply_command(&EditorCommand::Dock, 1, 1, CommandProgress::Applied(Ok(true))),
        CommandStep::Publish { artwork_changed: true }
    );
    assert_eq!(
        canvas.apply_command(&EditorCommand::Dock, 1, 1, CommandProgress::Published(Ok(()))),
        CommandStep::Accept { persist_layout: true }
    );
    assert_eq!(
        canvas.apply_command(
            &EditorCommand::Dock,
            1,
            1,
            CommandProgress::Applied(Err(CommandRejectReason::InvalidLayout)),
        ),
        CommandStep::Reject(CommandRejectReason::InvalidLayout)
    );
}

#[test]
fn tool_settings_stay_in_range() {
    let mut pen = drawing(DrawingTool::Pen);
    assert_eq!(pen.apply_tool_command(ToolCommand::SetSizeTenths(2000)), Ok(()));
    assert_eq!(pen.size_tenths, 2000);
    for command in [
        ToolCommand::SetSizeTenths(0),
        ToolCommand::SetSizeTenths(2001),
        ToolCommand::SetColor(Rgba { red: 1, green: 1, blue: 1, alpha: 0 }),
        ToolCommand::SetFillGapClose(9),
        ToolCommand::SetFillExpansion(65),
    ] {
        let before = pen;
        assert_eq!(
            pen.apply_tool_command(command),
            Err(CommandRejectReason::UnsupportedCommand)
        );
        assert_eq!(pen, before);
    }
    assert_eq!(pen.apply_tool_command(ToolCommand::SetSmoothing(101)), Ok(()));
    assert_eq!(pen.brush_settings.smoothing, 100);
}

#[test]
fn swapping_colors_twice_restores_them() {
    let mut pen = drawing(DrawingTool::Pen);
    let before = pen;
    pen.apply_tool_command(ToolCommand::SwapColors).unwrap();
    assert_eq!(pen.color, before.background_color);
    pen.apply_tool_command(ToolCommand::SwapColors).unwrap();
    assert_eq!(pen, before);
}

#[test]
fn tools_return_to_their_own_settings() {
    let mut config = drawing(DrawingTool::Pen);
    config.apply_tool_command(ToolCommand::SetSizeTenths(33)).unwrap();
    config.remember_current();
    config.apply_tool_command(ToolCommand::Select(DrawingTool::Brush)).unwrap();
    config.apply_tool_command(ToolCommand::SetSizeTenths(444)).unwrap();
    config.remember_current();
    config.apply_tool_command(ToolCommand::Select(DrawingTool::Pen)).unwrap();
    assert_eq!(config.size_tenths, 33);
    assert_eq!(
        selected_tool(DrawingTool::Pen, ToolCommand::Select(DrawingTool::Fill)),
        Some(DrawingTool::Fill)
    );
    assert_eq!(selected_tool(DrawingTool::Pen, ToolCommand::SwapColors), None);
}

#[test]
fn paused_tools_change_and_resume() {
    let mut canvas = canvas(DrawingTool::Pen);
    let select = ToolCommand::Select(DrawingTool::Move);
    assert_eq!(canvas.tool_command_paused(select, true), Ok(false));
    assert_eq!(canvas.drawing.tool, DrawingTool::Move);
    assert_eq!(
        canvas.stroke.effects[2..],
        [InkEffect::SetNavigationTool(true), InkEffect::ResumeAfterEdit]
    );
    assert_eq!(
        canvas.tool_command_paused(select, false),
        Err(CommandRejectReason::CommandQueueBusy)
    );
}

#[test]
fn layer_commands_become_tree_edits() {
    let tree = tree_of(&[1, 2]);
    let plan = apply_layer_command(&tree, LayerId(1), 50, &LayerCommand::AddRaster).unwrap();
    assert_eq!(plan.active, LayerId(50));
    assert!(matches!(
        &plan.edit,
        TreeEdit::InsertRaster { parent: GroupId(100), index: 1, id: LayerId(50), name }
            if name == "Layer 3"
    ));
    let white =
        apply_layer_command(&tree, LayerId(1), 50, &LayerCommand::AddWhiteBackground).unwrap();
    assert_eq!(white.active, LayerId(1));
    assert_eq!(white.pixel_change, Some(LayerPixelChange::White(LayerId(50))));
    assert!(matches!(&white.edit, TreeEdit::InsertRaster { index: 0, name, .. } if name == "White"));
    let copy = apply_layer_command(
        &tree,
        LayerId(1),
        50,
        &LayerCommand::DuplicateRaster(LayerId(2)),
    )
    .unwrap();
    assert_eq!(
        copy.pixel_change,
        Some(LayerPixelChange::Duplicate { source: LayerId(2), destination: LayerId(50) })
    );
    assert!(matches!(
        apply_layer_command(&tree, LayerId(1), u128::MAX, &LayerCommand::AddGroup),
        Err(CommandRejectReason::RevisionExhausted)
    ));
    let removal = TreeEdit::Remove(LayerTreeNodeId::Raster(LayerId(1)));
    assert_eq!(
        tree_edit_rejection(&removal, TreeError::LockedNode),
        CommandRejectReason::LayerLocked
    );
    assert_eq!(
        tree_edit_rejection(&removal, TreeError::Other),
        CommandRejectReason::UnknownLayer
    );
    let insertion = TreeEdit::InsertGroup {
        parent: GroupId(100),
        index: 9,
        id: GroupId(50),
        name: "Group 1".to_string(),
    };
    assert_eq!(
        tree_edit_rejection(&insertion, TreeError::Other),
        CommandRejectReason::InvalidLayerMove
    );
}

#[test]
fn documents_keep_a_raster() {
    let empty = tree_of(&[]);
    let follow_up = after_delete(&empty, LayerId(1), 60).unwrap();
    assert_eq!(follow_up.active, LayerId(60));
    assert!(matches!(
        follow_up.replacement,
        Some(TreeEdit::InsertRaster { index: 0, id: LayerId(60), .. })
    ));
    let left = after_delete(&tree_of(&[4, 5]), LayerId(1), 60).unwrap();
    assert_eq!(left.active, LayerId(5));
    assert!(left.replacement.is_none());
    assert!(after_delete(&empty, LayerId(1), u128::MAX).is_err());
}

#[test]
fn trees_find_layers_and_names() {
    let tree = default_layer_tree();
    assert!(raster_layer_ids(&tree).contains(&LIVE));
    assert_eq!(valid_active_layer(&tree, LIVE), LIVE);
    assert!(tree.raster(LIVE).is_some());
    assert!(tree.contains_node(LayerTreeNodeId::Raster(LIVE)));
    assert!(tree.same(&default_layer_tree()));
    assert!(!tree.same(&tree_of(&[1])));
    assert!(legacy_layer_tree().same(&legacy_layer_tree()));
    let numbered = tree_of(&[1, 2, 5]);
    assert_eq!(next_default_node_name(&numbered, false), "Layer 4");
    assert_eq!(next_default_node_name(&numbered, true), "Group 1");
    assert_eq!(next_layer_node_id(&numbered), Ok(101));
    assert_eq!(
        numbered.parent_and_index(LayerTreeNodeId::Raster(LayerId(2))),
        Some((GroupId(100), 1))
    );
    assert!(numbered.layer_focus(LayerId(77)).locked);
    assert!(!layer_commit_needed(&numbered, &tree_of(&[1, 2, 5]), None));
    assert!(layer_commit_needed(
        &numbered,
        &tree_of(&[1, 2, 5]),
        Some(LayerPixelChange::White(LayerId(1)))
    ));
    assert!(layer_commit_needed(&numbered, &tree_of(&[1, 2]), None));
}

#[test]
fn pasted_layers_stand_above_the_active_one() {
    let tree = tree_of(&[1, 2]);
    let edit = paste_layer(&tree, LayerId(1)).unwrap();
    assert!(matches!(edit, TreeEdit::InsertRaster { parent: GroupId(100), index: 1, .. }));
}

#[test]
fn history_moves_keep_surfaces_of_equal_trees() {
    let tree = tree_of(&[1, 2]);
    let size = PixelSize { width: 64, height: 32 };
    let repeated =
        HistoryMove { changes_tiles: true, tree: Some(tree_of(&[1, 2])), canvas: None };
    let plan = repeated.plan(&tree, size).unwrap();
    assert_eq!(plan.surfaces, SurfaceChange::Keep);
    assert!(!plan.rebuild_surfaces);
    assert!(plan.clear_selection);
    let changed = HistoryMove { changes_tiles: true, tree: Some(tree_of(&[1])), canvas: None };
    assert_eq!(changed.plan(&tree, size).unwrap().surfaces, SurfaceChange::ReplaceTree);
    let resized = HistoryMove {
        changes_tiles: true,
        tree: None,
        canvas: Some(CanvasSpec { width_px: 65, ..PAGE }),
    };
    assert_eq!(
        resized.plan(&tree, size).unwrap().surfaces,
        SurfaceChange::ReplaceDocument(PixelSize { width: 65, height: 32 })
    );
    let keys = vec![
        TileKey { layer: LayerId(1), mip: 0, x: 0, y: 0 },
        TileKey { layer: LayerId(9), mip: 0, x: 0, y: 0 },
    ];
    assert_eq!(uploads_of_tree(&keys, &tree), vec![keys[0]]);
}

#[test]
fn installed_trees_move_the_active_layer() {
    let mut canvas = canvas(DrawingTool::Pen);
    canvas.stroke.selection =
        Some(Selection { mask: 1, bounds: None, selected_pixels: 2 });
    let state = TreeState {
        next_layer_node_id: 3,
        solo: Some(LayerTreeNodeId::Raster(LayerId(1))),
    };
    let next = canvas.install_history_move(&tree_of(&[7, 8]), true, state).unwrap();
    assert_eq!(canvas.active_layer, LayerId(8));
    assert_eq!(canvas.stroke.selection, None);
    assert_eq!(next.next_layer_node_id, 101);
    assert_eq!(next.solo, None);
}

fn run_frame(canvas: &Canvas, facts: FrameFacts) -> Vec<FrameStage> {
    let mut stage = FrameStage::Begin;
    let mut seen = vec![stage];
    while stage != FrameStage::Present
        && stage != FrameStage::PresentUnchanged
        && stage != FrameStage::Skip
    {
        stage = canvas.render(stage, facts);
        assert!(!seen.contains(&stage), "stage {stage:?} repeated");
        seen.push(stage);
    }
    seen
}

#[test]
fn frames_apply_commands_after_ink() {
    let canvas = canvas(DrawingTool::Pen);
    let facts = FrameFacts {
        width: 10,
        height: 10,
        initial_fit_pending: true,
        hold: InputHold::Nothing,
        workspace_failed: false,
        probe_stops: false,
        composite_failed: false,
    };
    let seen = run_frame(&canvas, facts);
    let place = |stage| seen.iter().position(|seen| *seen == stage).unwrap();
    assert!(place(FrameStage::Drain) < place(FrameStage::ApplyCommands));
    assert!(place(FrameStage::FlushClosedStrokes) < place(FrameStage::ApplyCommands));
    assert_eq!(place(FrameStage::AdvanceSaveProbe), place(FrameStage::CheckFailure) + 1);
    assert_eq!(place(FrameStage::FlushSave), place(FrameStage::AdvanceSaveProbe) + 1);
    assert_eq!(seen.last(), Some(&FrameStage::Present));
    let empty = FrameFacts { width: 0, ..facts };
    assert_eq!(run_frame(&canvas, empty).last(), Some(&FrameStage::Skip));
    let undrawn = run_frame(&canvas, FrameFacts { composite_failed: true, ..facts });
    assert_eq!(undrawn[undrawn.len() - 2..], [FrameStage::Composite, FrameStage::Skip]);
}

#[test]
fn frames_that_could_not_be_composed_are_skipped() {
    let mut canvas = canvas(DrawingTool::Pen);
    assert_eq!(canvas.viewport_failed(false), FrameStage::Skip);
    assert!(!canvas.stroke.recovery.fatal);
    assert_eq!(canvas.viewport_failed(true), FrameStage::Skip);
    assert!(canvas.stroke.recovery.fatal);
}

#[test]
fn images_are_behind_until_a_save_is_accepted() {
    let run = |events: &[DirtyEvent]| {
        events.iter().fold(false, |dirty, event| next_dirty(dirty, *event))
    };
    assert!(run(&[DirtyEvent::StrokeClosed, DirtyEvent::UsagePublished]));
    assert!(run(&[DirtyEvent::ArtworkAdopted { changed: true }]));
    assert!(run(&[DirtyEvent::TransformAdopted { committed: true }]));
    assert!(run(&[DirtyEvent::CommandPublished { artwork_changed: true }]));
    assert!(run(&[DirtyEvent::StrokeClosed, DirtyEvent::Opened { restored: true }]));
    assert!(!run(&[DirtyEvent::StrokeClosed, DirtyEvent::SaveAccepted]));
    assert!(!run(&[DirtyEvent::StrokeClosed, DirtyEvent::Opened { restored: false }]));
    assert!(!run(&[
        DirtyEvent::UsagePublished,
        DirtyEvent::ArtworkAdopted { changed: false },
        DirtyEvent::TransformAdopted { committed: false },
        DirtyEvent::CommandPublished { artwork_changed: false },
    ]));
    assert!(run(&[DirtyEvent::SaveAccepted, DirtyEvent::StrokeClosed]));
}

#[test]
fn strokes_and_layers_are_committed_before_they_are_accepted() {
    assert_eq!(StrokeStage::Replay.next(true), StrokeStep::Do(StrokeStage::Commit));
    assert_eq!(StrokeStage::Commit.next(true), StrokeStep::Do(StrokeStage::Accept));
    assert_eq!(StrokeStage::Accept.next(true), StrokeStep::Saved);
    assert_eq!(StrokeStage::Commit.next(false), StrokeStep::Failed(StrokeStage::Commit));
    assert_eq!(StrokeStage::Replay.failure(4), StrokeResult::ReplayFailed(4));
    assert_eq!(StrokeStage::Accept.failure(5), StrokeResult::CommitFailed(5));
    assert_eq!(StrokeStage::Accept.error_lead(), "session:");
    let run = |empties, pixels| {
        let mut stage = LayerStage::first(empties, pixels);
        let mut seen = vec![stage];
        while let LayerStep::Do(next) = stage.next(true, pixels) {
            stage = next;
            seen.push(stage);
        }
        assert_eq!(stage.next(true, pixels), LayerStep::Saved);
        seen
    };
    let tail = [LayerStage::Prepare, LayerStage::Commit, LayerStage::Accept];
    assert_eq!(run(false, false), tail);
    assert_eq!(run(true, true)[..2], [LayerStage::EmptyRemoved, LayerStage::ChangePixels]);
    assert_eq!(run(true, true)[2..], tail);
    assert_eq!(run(false, true)[0], LayerStage::ChangePixels);
    assert_eq!(
        LayerStage::Commit.next(false, true),
        LayerStep::Failed(LayerStage::Commit)
    );
    assert_eq!(LayerStage::Prepare.error_lead(), "layer history prepare: ");
}

#[test]
fn layer_commands_are_committed_where_they_change_something() {
    assert_eq!(
        layer_commit_step(false, false, LayerId(4)),
        LayerCommitStep::Return(Ok(false))
    );
    assert_eq!(
        layer_commit_step(true, false, LayerId(4)),
        LayerCommitStep::Return(Err(CommandRejectReason::WorkspaceFailed))
    );
    let job = ArtworkJob {
        transform: None,
        temporary_picker: None,
        picker_token: None,
        active_layer: Some(LayerId(4)),
    };
    assert_eq!(layer_commit_step(true, true, LayerId(4)), LayerCommitStep::Queue(job));
    let mut canvas = canvas(DrawingTool::Pen);
    assert_eq!(
        canvas.enqueue_artwork(job, false),
        Err(CommandRejectReason::CommandQueueBusy)
    );
    assert_eq!(canvas.artwork_job, None);
    assert_eq!(canvas.enqueue_artwork(job, true), Ok(false));
    assert_eq!(canvas.artwork_job, Some(job));
}

fn drawn_on(key: TileKey) -> GpuState {
    let mut previews = GpuState::new();
    previews.latest_preview.insert(key, 3);
    previews.batches = 2;
    previews
}

#[test]
fn installed_snapshots_forget_previews() {
    let key = TileKey { layer: LayerId(1), mip: 0, x: 0, y: 0 };
    let mut canvas = canvas(DrawingTool::Pen);
    let mut previews = drawn_on(key);
    assert_eq!(previews.latest_preview.get(key), Some(&3));
    canvas.history_installed(&mut previews);
    assert_eq!(previews.latest_preview.get(key), None);
    assert_eq!(previews.batches, 2);
    assert_eq!(canvas.stroke.effects.last(), Some(&InkEffect::ResumeAfterEdit));
    let mut previews = drawn_on(key);
    canvas.install_transform_outcome(LayerId(4), None, None, &mut previews);
    assert_eq!(previews.latest_preview.get(key), None);
}

#[test]
fn closed_strokes_and_usage_are_published() {
    let mut canvas = canvas(DrawingTool::Pen);
    assert_eq!(canvas.publish_drain(false, false, 3), UsagePublication::Nothing);
    assert_eq!(canvas.publish_drain(false, true, 3), UsagePublication::RecentUsage);
    assert_eq!(canvas.publish_drain(true, true, 3), UsagePublication::ClosedStroke);
    assert_eq!(
        canvas.publish_closed_stroke_dirty(false, 3),
        Some(PublicationFailure::ClosedStroke)
    );
}

#[test]
fn saves_follow_closed_strokes() {
    let mut canvas = canvas(DrawingTool::Pen);
    assert_eq!(canvas.flush_pending_save(), None);
    canvas.pending_save = Some(6);
    assert_eq!(canvas.flush_pending_save(), Some(6));
    assert_eq!(canvas.save_enqueued(6, Err(ExportEnqueueError::Busy)), None);
    assert_eq!(canvas.pending_save, Some(6));
    assert_eq!(
        canvas.save_enqueued(6, Ok(())),
        Some(ExportStatus::Queued { generation: 6 })
    );
    assert_eq!(canvas.pending_save, None);
    canvas.pending_save = Some(7);
    assert_eq!(
        canvas.save_enqueued(7, Err(ExportEnqueueError::Disconnected)),
        Some(ExportStatus::Failed { generation: 7 })
    );
}

#[test]
fn closing_takes_everything_that_waits() {
    let mut canvas = canvas(DrawingTool::Fill);
    canvas.begin_close(&default_layer_tree());
    assert_eq!(canvas.take_closing_edit(), ClosingEdit::Nothing);
    canvas.stroke.gesture.completed_edit = Some(Ok(EditCommand::Artwork(2)));
    assert_eq!(canvas.take_closing_edit(), ClosingEdit::Send(EditCommand::Artwork(2)));
    canvas.stroke.gesture.completed_edit = Some(Err(GestureError::Refused(3)));
    assert_eq!(canvas.take_closing_edit(), ClosingEdit::Failed(GestureError::Refused(3)));
    canvas.pending_save = Some(5);
    assert_eq!(canvas.take_closing_save(true), ClosingSave::FailExport);
    canvas.pending_save = Some(5);
    assert_eq!(canvas.take_closing_save(false), ClosingSave::Export { generation: 5 });
    assert_eq!(canvas.take_closing_save(false), ClosingSave::Nothing);
    assert!(!ClosingFailure::NoAnswer.text().is_empty());
}

#[test]
fn free_transforms_are_started_and_settled() {
    let mut canvas = canvas(DrawingTool::Pen);
    let begin = TransformCommand::Begin;
    assert_eq!(
        canvas.enqueue_free_transform(begin, TransformProgress::Start, BRIDGE),
        TransformStep::CheckIdle
    );
    assert_eq!(
        canvas.enqueue_free_transform(begin, TransformProgress::Idle(Ok(())), BRIDGE),
        TransformStep::Pause
    );
    assert!(matches!(
        canvas.enqueue_free_transform(begin, TransformProgress::Paused(true), BRIDGE),
        TransformStep::Queue(ArtworkJob { transform: Some(TransformCommand::Begin), .. })
    ));
    assert_eq!(
        canvas.enqueue_free_transform(begin, TransformProgress::Queued(true), BRIDGE),
        TransformStep::Return(Ok(false))
    );
    assert!(canvas.transform_active());
    canvas.artwork_job = None;
    let mut previews = GpuState::new();
    canvas.install_transform_outcome(LayerId(4), None, Some(projection(9)), &mut previews);
    assert_eq!(canvas.drawing.tool, DrawingTool::MoveSelection);
    assert_eq!(canvas.active_layer, LayerId(4));
    canvas.install_transform_outcome(LayerId(4), None, None, &mut previews);
    assert!(!canvas.transform_active());
    assert_eq!(canvas.stroke.transform.pending, None);
}

#[test]
fn transform_drags_are_flushed_as_previews() {
    let mut canvas = canvas(DrawingTool::MoveSelection);
    canvas.stroke.transform.projection = Some(projection(9));
    let sample = |phase| StylusSample {
        sequence: 1,
        timestamp_ns: 0,
        device_id: 7,
        phase,
        eraser: false,
        viewport_revision: 0,
        reading: (0, 0),
    };
    let hit = |update| DragGeometry { hit: true, update };
    canvas.stroke.observe_transform_sample(
        &sample(PointerPhase::Begin),
        false,
        hit(Ok(IDENTITY)),
    );
    let moved = IDENTITY.moved(1_000, 0).unwrap();
    canvas.stroke.observe_transform_sample(&sample(PointerPhase::Move), false, hit(Ok(moved)));
    let flush = canvas.flush_transform_preview().expect("the drag is pending");
    assert_eq!(flush.command, TransformCommand::Preview(moved));
    assert!(canvas.transform_flush_result(flush, Ok(true), 4));
    assert_eq!(canvas.stroke.transform.pending, None);
}

#[test]
fn transforms_stay_in_range() {
    let far = IDENTITY.moved(i64::MAX, 0);
    assert_eq!(far, Err(TransformRefusal::MoveOutOfRange));
    let tall = IDENTITY.scaled(2_000_000, 500_000).unwrap();
    assert_eq!(tall.scale_ppm, ScalePpm { x: 2_000_000, y: 500_000 });
    assert_eq!(IDENTITY.scaled(1, 0), Err(TransformRefusal::ScaleThroughPivot));
    assert_eq!(IDENTITY.rotated(90_000).rotation_millidegrees, 90_000);
    let bounds = SelectionBounds {
        origin: PixelPoint { x: -3, y: 4 },
        size: PixelSize { width: 10, height: 20 },
    };
    let shown = TransformProjection::for_selection(bounds);
    assert_eq!(shown.transform, IDENTITY);
    assert_eq!(shown.corners_milli.first, MilliPoint { x: -3_000, y: 4_000 });
    assert!(shown.can_be_dragged());
}

#[test]
fn typed_transforms_are_read_and_committed_once_shown() {
    let inputs = TransformInputs {
        x: Ok(1_000),
        y: Ok(-2_000),
        width: Ok(1_000_000),
        height: Ok(500_000),
        angle: Ok(45_000),
        flip_x: true,
        flip_y: false,
    };
    let parsed = inputs.parse().unwrap();
    assert_eq!(parsed.offset_milli, MilliPoint { x: 1_000, y: -2_000 });
    assert_eq!(parsed.rotation_millidegrees, 45_000);
    assert!(parsed.flip_x);
    let unread = TransformInputs { x: Err(InputError::NotANumber), ..inputs };
    assert_eq!(unread.parse(), Err(InputError::NotANumber));
    let flat = TransformInputs { width: Ok(0), ..inputs };
    assert_eq!(flat.parse(), Err(InputError::OutOfRange));
    let mut panel = TransformPanel::new();
    assert_eq!(panel.observe(None), PanelChange::Begin);
    assert!(matches!(panel.observe(Some(projection(1))), PanelChange::Show { .. }));
    assert!(panel.can_commit(Some(projection(1)), false));
    panel.dirty = true;
    assert!(!panel.can_commit(Some(projection(1)), false));
    panel.dirty = false;
    assert!(!panel.can_commit(Some(projection(1)), true));
    assert_eq!(panel.observe(None), PanelChange::Close);
}

#[test]
fn picker_patches_follow_the_cursor() {
    let mut canvas = canvas(DrawingTool::Eyedropper);
    begin_pick(&mut canvas, false);
    let read = canvas.stroke.gesture.picker.unwrap().latest;
    assert_eq!(read.source, PickerSource::Artwork(EditSource::ActiveLayer));
    let mut preview = PickerPreview::new();
    let facts =
        PreviewFacts { viewport_revision: 5, answer: None, writer_pending: 0, now_ns: 1_000 };
    let (shown, next) = canvas.update_picker_preview(&mut preview, BRIDGE, facts);
    assert_eq!(shown, Some(PreviewSnapshot { pending: true, answer: None }));
    assert_eq!(next, PreviewNext::Submit(read));
    preview.submitted(read, true, 1_000);
    let answer = PreviewAnswer::Frame { frame: 8, candidate: None };
    let answered = PreviewFacts { answer: Some(answer), now_ns: 2_000, ..facts };
    let (shown, next) = canvas.update_picker_preview(&mut preview, BRIDGE, answered);
    assert_eq!(shown, Some(PreviewSnapshot { pending: false, answer: Some(answer) }));
    assert_eq!(next, PreviewNext::Nothing);
    canvas.stroke.move_picker(Some(PixelPoint { x: 9, y: 9 }));
    let later = PreviewFacts { now_ns: 3_000, ..facts };
    let (_, next) = canvas.update_picker_preview(&mut preview, BRIDGE, later);
    let moved = canvas.stroke.gesture.picker.unwrap().latest;
    assert_eq!(
        next,
        PreviewNext::Wait { delay_ns: PREVIEW_INTERVAL_NS - 2_000, read: moved }
    );
    let other_view = PreviewFacts { viewport_revision: 6, ..later };
    let (shown, _) = canvas.update_picker_preview(&mut preview, BRIDGE, other_view);
    assert_eq!(shown, None);
    assert_eq!(canvas.stroke.gesture.picker, None);
    let mut wake = PickerWake::new();
    assert_eq!(wake.schedule(5), Some(5));
    assert_eq!(wake.schedule(5), None);
    wake.settle();
    assert_eq!(wake.schedule(6), Some(6));
}

#[test]
fn patches_are_centered_and_blank_outside() {
    let points = patch_points(PixelPoint { x: 10, y: -10 });
    assert_eq!(points.len(), 169);
    assert_eq!(points[patch_center()], Some(PixelPoint { x: 10, y: -10 }));
    assert_eq!(points[0], Some(PixelPoint { x: 4, y: -16 }));
    let edge = patch_points(PixelPoint { x: i32::MAX, y: 0 });
    assert_eq!(edge[patch_center() + 1], None);
    let mut pixels = vec![None; 169];
    pixels[1] = Some(Rgba { red: 1, green: 2, blue: 3, alpha: 4 });
    let bytes = sample_patch(&pixels);
    assert_eq!(bytes.len(), 676);
    assert_eq!(&bytes[..8], &[0, 0, 0, 0, 1, 2, 3, 4]);
}

#[test]
fn writers_refuse_strokes_on_locked_targets() {
    let mut writer = Writer::new(10, default_layer_tree(), PAGE);
    let gate = ExportGenerationGate::new();
    let stroke = WriterWork::Stroke { layer: LIVE, alpha_locked: false };
    assert_eq!(
        writer.materialization_loop(stroke, &gate, false),
        WriterTask::ReplayStroke { snapshot: 10 }
    );
    writer.stroke_finished(StrokeResult::Committed { ordinal: 1, delivery: Delivery::Sent });
    assert_eq!(writer.exit, None);
    assert_eq!(writer.processed, 1);
    let missing = WriterWork::Stroke { layer: LayerId(99), alpha_locked: false };
    assert_eq!(writer.materialization_loop(missing, &gate, false), WriterTask::Stopped);
    assert_eq!(writer.exit, Some(WorkerExit::FailStop));
    assert!(writer
        .effects
        .contains(&WriterEffect::PublishFailure(WriterFailure::LockedTarget)));
    let before = writer.effects.clone();
    assert_eq!(
        writer.materialization_loop(WriterWork::PickerPreview, &gate, false),
        WriterTask::Stopped
    );
    assert_eq!(writer.materialization_loop(stroke, &gate, false), WriterTask::Stopped);
    assert_eq!(writer.effects, before);
}

#[test]
fn fatal_work_stops_the_writer() {
    let mut writer = Writer::new(10, default_layer_tree(), PAGE);
    writer.edit_finished(ArtworkResult::Rejected, 10, false);
    assert_eq!(writer.exit, None);
    writer.edit_finished(ArtworkResult::Fatal(4), 10, false);
    assert_eq!(writer.exit, Some(WorkerExit::FailStop));
    let mut writer = Writer::new(10, default_layer_tree(), PAGE);
    writer.stroke_finished(StrokeResult::CommitFailed(5));
    assert!(writer
        .effects
        .contains(&WriterEffect::PublishFailure(WriterFailure::StrokeNotSaved(5))));
    let mut writer = Writer::new(10, default_layer_tree(), PAGE);
    writer.history_finished(ArtworkResult::Fatal(6));
    assert!(writer
        .effects
        .contains(&WriterEffect::PublishFailure(WriterFailure::HistoryNotRestored(6))));
    let mut writer = Writer::new(10, default_layer_tree(), PAGE);
    writer.layer_commit_finished(Err(7));
    assert!(writer
        .effects
        .contains(&WriterEffect::PublishFailure(WriterFailure::LayerNotSaved(7))));
    let mut writer = Writer::new(u128::MAX, default_layer_tree(), PAGE);
    assert!(writer.plan_layer_commit(&default_layer_tree(), &Vec::new()).is_none());
    assert_eq!(writer.exit, Some(WorkerExit::FailStop));
}

#[test]
fn removed_layers_empty_their_tiles() {
    let mut writer = Writer::new(10, tree_of(&[1, 2]), PAGE);
    let keys = vec![
        TileKey { layer: LayerId(1), mip: 0, x: 0, y: 0 },
        TileKey { layer: LayerId(2), mip: 0, x: 0, y: 0 },
    ];
    let plan = writer.plan_layer_commit(&tree_of(&[1]), &keys).unwrap();
    assert_eq!(plan.snapshot, 10);
    assert_eq!(plan.emptied, vec![keys[1]]);
    writer.layer_commit_finished(Ok(tree_of(&[1])));
    assert_eq!(writer.next_id, 11);
    assert!(writer.preview_tree.same(&tree_of(&[1])));
}

#[test]
fn superseded_exports_are_skipped() {
    let mut writer = Writer::new(10, default_layer_tree(), PAGE);
    let mut gate = ExportGenerationGate::new();
    gate.accept_submission(1);
    gate.accept_submission(2);
    assert_eq!(
        writer.materialization_loop(WriterWork::ExportPng { generation: 1 }, &gate, false),
        WriterTask::SkipExport
    );
    assert_eq!(
        writer.materialization_loop(WriterWork::ExportPng { generation: 2 }, &gate, false),
        WriterTask::Export
    );
    writer.export_finished(2, ExportPngOutcome::Replaced);
    assert!(writer
        .effects
        .contains(&WriterEffect::PublishExportStatus(ExportStatus::Current { generation: 2 })));
    assert!(exit_fails_export(WorkerExit::FailStop));
    assert!(!exit_fails_export(WorkerExit::Drained));
}

#[test]
fn history_is_persisted_before_it_is_accepted() {
    let order = [
        HistoryStage::Prepare,
        HistoryStage::LoadTiles,
        HistoryStage::LoadTree,
        HistoryStage::LoadCanvas,
        HistoryStage::Persist,
        HistoryStage::Accept,
    ];
    for pair in order.windows(2) {
        assert_eq!(pair[0].next(true), HistoryStep::Do(pair[1]));
    }
    assert_eq!(HistoryStage::Accept.next(true), HistoryStep::Moved);
    assert_eq!(HistoryStage::Prepare.next(false), HistoryStep::Rejected);
    assert!(restored_tree(None).same(&legacy_layer_tree()));
    assert_eq!(thumbnail_layers(&tree_of(&[1, 2, 3]), 2).len(), 2);
    assert_eq!(system_timestamp_ns(Some(5)), 5);
    assert_eq!(system_timestamp_ns(None), 0);
    assert_eq!(system_timestamp_ns(Some(u128::MAX)), u64::MAX);
    assert_eq!(
        probe_kind(WriterWork::MoveHistory(HistoryCommand::Undo)),
        Some(ProbeKind::History)
    );
}

#[test]
fn newest_brush_sizes_come_first() {
    let mut drain = StrokeDrain {
        samples: 0,
        artwork_closed: false,
        started_brush_sizes: [None; 4],
        started_brush_colors: [None; 10],
    };
    for size in [1, 2, 3, 1, 4, 5] {
        drain.record_brush_begin(size, None);
    }
    assert_eq!(drain.started_brush_sizes, [Some(5), Some(4), Some(1), Some(3)]);
    assert_eq!(drain.used_sizes(), vec![3, 1, 4, 5]);
    assert_eq!(drain.used_colors(), vec![]);
}

#[test]
fn blend_modes_are_passed_on() {
    let tree = tree_of(&[1]);
    let node = LayerTreeNodeId::Raster(LayerId(1));
    let command = LayerCommand::SetBlendMode { node, blend_mode: LayerBlendMode::Multiply };
    let plan = apply_layer_command(&tree, LayerId(1), 5, &command).unwrap();
    assert!(matches!(
        plan.edit,
        TreeEdit::SetBlendMode { blend_mode: LayerBlendMode::Multiply, .. }
    ));
    assert_eq!(plan.pixel_change, None);
}
