use std::sync::mpsc::{sync_channel, Receiver, SyncSender, TrySendError};

use nyatidraw_desktop::brush_step::SmoothingPlan;
use nyatidraw_desktop::closed_queue::WriterReply;
use nyatidraw_desktop::document::{CanvasSpec, LayerId, PixelPoint, Rgba};
use nyatidraw_desktop::drawing::{
    preset_for_ui_preview, BrushDefaults, BrushFamily, BrushSettings, DrawingConfig,
    DrawingControls, DrawingTool, EditSettings, EditSource, FillSettings, PencilTemplate,
    SelectionMode,
};
use nyatidraw_desktop::drain::{DrainAction, DrainCursor, DrainEvent};
use nyatidraw_desktop::edit::{EditCommand, GestureError};
use nyatidraw_desktop::effect::{InkEffect, Notice, WorkspaceFailure};
use nyatidraw_desktop::gpu_ops::{GpuAction, GpuState, LivePreview, Painter};
use nyatidraw_desktop::input::{AdmittedSample, PickSequence, PointerPhase, StylusSample};
use nyatidraw_desktop::layer_tree::default_layer_tree;
use nyatidraw_desktop::page_tiles::SignedDirtyRect;
use nyatidraw_desktop::picker::{PickerSource, PickerToken};
use nyatidraw_desktop::shutdown::{ShutdownAction, ShutdownEvent, ShutdownStage};
use nyatidraw_desktop::stroke::{
    append_gpu_dabs, ClosedStrokeRequest, GpuStrokeOp, LiveStrokeDisposition,
};
use nyatidraw_desktop::stroke_pipeline::{
    PipelineLimits, SampleRoute, Selection, StrokePipeline,
};
use nyatidraw_desktop::transform::TransformRefusal;
use nyatidraw_desktop::transform_runtime::DragGeometry;
use nyatidraw_desktop::usage::StrokeDrain;
use nyatidraw_desktop::writer::{
    publish_closed_completion, Delivery, LaneAnswer, StrokeResult, WorkerExit, Writer,
    WriterEffect, WriterFailure, WriterLane,
};

type Pipeline = StrokePipeline<(i32, i32), u32, &'static str>;
type Request = ClosedStrokeRequest<(i32, i32), &'static str>;

const LIVE_LAYER: LayerId = LayerId(1);

fn settings(hardness_u16: u16, smoothing: u8) -> BrushSettings {
    BrushSettings {
        size_pressure: true,
        opacity_pressure: false,
        size_minimum_u16: 0,
        opacity_minimum_u16: 0,
        hardness_u16,
        smoothing,
    }
}

fn defaults() -> BrushDefaults {
    BrushDefaults {
        pencil: settings(65_535, 10),
        pen: settings(65_535, 20),
        brush: settings(32_768, 30),
        eraser: settings(50_000, 40),
        graphite: settings(20_000, 5),
    }
}

fn controls(tool: DrawingTool) -> DrawingControls {
    DrawingControls {
        edit_settings: EditSettings {
            source: EditSource::ActiveLayer,
            tolerance: 0,
            fill: FillSettings { gap_close_px: 0, expand_px: 0, antialias: true },
            selection_mode: SelectionMode::Replace,
        },
        drawing_tool: tool,
        pencil_template: PencilTemplate::Mechanical2H,
        brush_size_tenths: 80,
        brush_opacity_u16: 65_535,
        brush_settings: settings(65_535, 20),
        brush_color: Rgba { red: 1, green: 2, blue: 3, alpha: 255 },
        background_color: Rgba { red: 255, green: 255, blue: 255, alpha: 255 },
    }
}

fn drawing(tool: DrawingTool) -> DrawingConfig {
    DrawingConfig::from_projection(controls(tool), defaults())
}

fn pipeline(tool: DrawingTool) -> Pipeline {
    StrokePipeline::new(
        drawing(tool),
        LIVE_LAYER,
        PipelineLimits { backlog: 2, samples_per_stroke: 4 },
    )
}

fn empty_drain() -> StrokeDrain {
    StrokeDrain {
        samples: 0,
        artwork_closed: false,
        started_brush_sizes: [None; 4],
        started_brush_colors: [None; 10],
    }
}

fn sample(sequence: u64, phase: PointerPhase, x: i32, y: i32) -> StylusSample<(i32, i32)> {
    StylusSample {
        sequence,
        timestamp_ns: sequence * 1_000_000,
        device_id: 7,
        phase,
        eraser: false,
        viewport_revision: 0,
        reading: (x, y),
    }
}

fn admitted(sample: StylusSample<(i32, i32)>) -> AdmittedSample<(i32, i32)> {
    AdmittedSample {
        sample,
        begin_layer: Some(LIVE_LAYER),
        temporary_picker: false,
        picker_epoch: 3,
    }
}

fn request(ordinal: u64) -> Request {
    let begin = sample(ordinal * 2, PointerPhase::Begin, 10, 10);
    let end = sample(ordinal * 2 + 1, PointerPhase::End, 12, 10);
    ClosedStrokeRequest {
        ordinal,
        stroke_generation: ordinal,
        layer: LIVE_LAYER,
        samples: vec![begin, end],
        brush: drawing(DrawingTool::Pen).preset(),
        color: Rgba { red: 0, green: 0, blue: 0, alpha: 255 },
        alpha_locked: false,
        selection: None,
        end_timestamp_ns: end.timestamp_ns,
        record: "recorded",
    }
}

/// Offers a request to the writer's lane and hands back its reply.
fn offer(sender: &SyncSender<Request>, request: Request) -> WriterReply<(i32, i32), &'static str> {
    match sender.try_send(request) {
        Ok(()) => WriterReply::Enqueued,
        Err(TrySendError::Full(request)) => WriterReply::Full(request),
        Err(TrySendError::Disconnected(request)) => WriterReply::Disconnected(request),
    }
}

fn flush(pipeline: &mut Pipeline, sender: &SyncSender<Request>) {
    let mut next = pipeline.flush_pending_materializations();
    while let Some(request) = next {
        let reply = offer(sender, request);
        next = pipeline.flush_reply(reply);
    }
}

fn ordinals(receiver: &Receiver<Request>) -> Vec<u64> {
    receiver.try_iter().map(|request| request.ordinal).collect()
}

#[test]
fn flipped_pen_eraser_snapshot_preserves_the_next_painted_stroke() {
    for tool in
        [DrawingTool::Pencil, DrawingTool::Pen, DrawingTool::Brush, DrawingTool::Eraser]
    {
        let mut drawing = drawing(DrawingTool::Pen);
        drawing.select_tool(DrawingTool::Eraser);
        drawing.size_tenths = 120;
        drawing.opacity_u16 = 40_000;
        drawing.brush_settings.smoothing = 90;
        let remembered_eraser = drawing.preset();
        drawing.select_tool(tool);
        drawing.size_tenths = 57;
        drawing.opacity_u16 = 22_000;
        drawing.brush_settings.hardness_u16 = 8_000;
        drawing.brush_settings.smoothing = 20;
        let selected = drawing.preset();
        for hardware_eraser in [false, true] {
            let expected = if hardware_eraser && tool != DrawingTool::Eraser {
                remembered_eraser
            } else {
                selected
            };
            assert_eq!(drawing.preset_for_stroke(hardware_eraser), expected);
            assert_eq!(
                drawing.smoothing_for_stroke(hardware_eraser),
                if hardware_eraser && tool != DrawingTool::Eraser { 90 } else { 20 },
            );
            assert_eq!(drawing.tool, tool);
            assert_eq!(drawing.preset_for_stroke(false), selected);
        }
    }
}

#[test]
fn full_completion_lane_quarantines_input_and_fail_stops_delivery() {
    let (sender, receiver) = sync_channel(1);
    sender.try_send(1_u64).expect("fixture fills the completion lane");
    let answer = match sender.try_send(2) {
        Ok(()) => LaneAnswer::Accepted,
        Err(TrySendError::Full(_)) => LaneAnswer::Full,
        Err(TrySendError::Disconnected(_)) => LaneAnswer::Disconnected,
    };
    let delivery = publish_closed_completion(false, answer, false);
    assert_eq!(delivery, Delivery::Full);
    let canvas = CanvasSpec { width_px: 8, height_px: 8, pixels_per_inch: 96 };
    let mut writer = Writer::new(10, default_layer_tree(), canvas);
    writer.stroke_finished(StrokeResult::Committed { ordinal: 2, delivery });
    assert_eq!(writer.exit, Some(WorkerExit::FailStop));
    assert!(writer
        .effects
        .contains(&WriterEffect::PublishFailure(WriterFailure::CompletionQueueFull { ordinal: 2 })));
    assert_eq!(
        receiver.try_recv().expect("the already accepted payload remains available"),
        1
    );
}

#[test]
fn freed_writer_capacity_cannot_reorder_closed_strokes_ahead_of_the_semantic_backlog() {
    let (sender, receiver) = sync_channel(2);
    let mut pipeline = pipeline(DrawingTool::Pen);
    pipeline.defer_materialization(request(1));
    if let Some(request) = pipeline.queue_closed_stroke(request(2)) {
        let reply = offer(&sender, request);
        pipeline.closed_stroke_reply(reply);
    }
    assert!(
        receiver.try_recv().is_err(),
        "a newly free slot must not admit the newer stroke first"
    );
    flush(&mut pipeline, &sender);
    assert_eq!(ordinals(&receiver), [1, 2], "semantic order must survive backpressure");
    assert!(pipeline.pending_materializations.is_empty());
}

#[test]
fn full_writers_keep_the_backlog_in_order() {
    let (sender, receiver) = sync_channel(1);
    let mut pipeline = pipeline(DrawingTool::Pen);
    let first = pipeline.queue_closed_stroke(request(1)).expect("nothing waits");
    let reply = offer(&sender, first);
    pipeline.closed_stroke_reply(reply);
    let second = pipeline.queue_closed_stroke(request(2)).expect("nothing waits");
    let reply = offer(&sender, second);
    assert!(matches!(reply, WriterReply::Full(_)));
    pipeline.closed_stroke_reply(reply);
    flush(&mut pipeline, &sender);
    assert_eq!(pipeline.pending_materializations.len(), 1);
    assert_eq!(ordinals(&receiver), [1]);
    flush(&mut pipeline, &sender);
    assert_eq!(ordinals(&receiver), [2]);
    assert!(!pipeline.recovery.fatal);
}

#[test]
fn lost_writers_keep_the_stroke_waiting() {
    let (sender, receiver) = sync_channel(1);
    drop(receiver);
    let mut pipeline = pipeline(DrawingTool::Pen);
    let first = pipeline.queue_closed_stroke(request(1)).expect("nothing waits");
    let reply = offer(&sender, first);
    assert!(matches!(reply, WriterReply::Disconnected(_)));
    pipeline.closed_stroke_reply(reply);
    flush(&mut pipeline, &sender);
    assert_eq!(pipeline.pending_materializations.len(), 1);
    assert_eq!(pipeline.pending_materializations[0], request(1));
}

#[test]
fn a_stroke_closes_with_everything_it_began_with() {
    let mut pipeline = pipeline(DrawingTool::Pen);
    let chosen = Selection { mask: 9, bounds: None, selected_pixels: 40 };
    pipeline.selection = Some(chosen);
    let mut drain = empty_drain();
    let begin = sample(1, PointerPhase::Begin, 1, 2);
    assert_eq!(pipeline.route(&admitted(begin)), SampleRoute::Brush);
    assert_eq!(pipeline.plan_smoothing(&begin), SmoothingPlan::Fresh(20));
    let start = pipeline.brush_begin(begin, Some(LayerId(5)), &mut drain).expect("accepted");
    assert_eq!(start.generation, 1);
    assert_eq!(start.layer, LayerId(5));
    pipeline.brush_started(vec![11]);
    pipeline.selection = None;
    let middle = sample(2, PointerPhase::Move, 3, 4);
    assert_eq!(pipeline.plan_smoothing(&middle), SmoothingPlan::Continue { generation: 1 });
    assert_eq!(pipeline.brush_extend(middle), Some(middle));
    pipeline.brush_extended(false, vec![12, 13]);
    let end = sample(3, PointerPhase::End, 5, 6);
    assert_eq!(pipeline.brush_extend(end), Some(end));
    let closed = pipeline.brush_close(end.timestamp_ns, vec![14], "ink").expect("committed");
    assert_eq!(closed.ordinal, 1);
    assert_eq!(closed.selection, Some(chosen));
    assert_eq!(closed.samples, vec![begin, middle, end]);
    assert_eq!(closed.end_timestamp_ns, 3_000_000);
    assert_eq!(closed.record, "ink");
    assert_eq!(
        pipeline.take_gpu_ops(),
        vec![
            GpuStrokeOp::Replace {
                generation: 1,
                layer: LayerId(5),
                color: Rgba { red: 1, green: 2, blue: 3, alpha: 255 },
                eraser: false,
                alpha_locked: false,
            },
            GpuStrokeOp::Dabs { generation: 1, dabs: vec![11, 12, 13, 14] },
            GpuStrokeOp::Finish { generation: 1, disposition: LiveStrokeDisposition::Commit },
        ]
    );
    assert_eq!(drain.used_sizes(), vec![80]);
    assert_eq!(drain.used_colors(), vec![Rgba { red: 1, green: 2, blue: 3, alpha: 255 }]);
}

#[test]
fn strokes_that_outgrow_their_recording_are_not_saved() {
    let mut pipeline = pipeline(DrawingTool::Pen);
    let mut drain = empty_drain();
    pipeline.brush_begin(sample(1, PointerPhase::Begin, 0, 0), None, &mut drain).unwrap();
    for sequence in 2..6 {
        pipeline.brush_extend(sample(sequence, PointerPhase::Move, 0, 0));
    }
    assert!(pipeline.active.as_ref().unwrap().sample_limit_exceeded);
    assert_eq!(pipeline.active.as_ref().unwrap().samples.len(), 4);
    assert_eq!(pipeline.brush_close(6, vec![], "lost"), None);
    assert_eq!(
        pipeline.gpu_ops.last(),
        Some(&GpuStrokeOp::Finish { generation: 1, disposition: LiveStrokeDisposition::Cancel })
    );
    assert_eq!(pipeline.count.closed, 1);
}

#[test]
fn locked_layers_refuse_ink() {
    let mut pipeline = pipeline(DrawingTool::Pen);
    pipeline.focus.locked = true;
    let begin = admitted(sample(1, PointerPhase::Begin, 0, 0));
    assert_eq!(pipeline.route(&begin), SampleRoute::Consumed);
    assert!(pipeline.gpu_ops.is_empty());
    assert!(pipeline.active.is_none());
    let end = admitted(sample(2, PointerPhase::End, 0, 0));
    assert_eq!(pipeline.route(&end), SampleRoute::Consumed);
}

#[test]
fn locked_alpha_refuses_erasers() {
    let mut pipeline = pipeline(DrawingTool::Pen);
    pipeline.focus.alpha_locked = true;
    let mut drain = empty_drain();
    let flipped = StylusSample { eraser: true, ..sample(1, PointerPhase::Begin, 0, 0) };
    assert_eq!(pipeline.brush_begin(flipped, None, &mut drain), None);
    assert_eq!(pipeline.gesture.completed_edit, Some(Err(GestureError::EraseOnLockedAlpha)));
    assert!(pipeline.recovery.awaiting_clean_begin);
    assert_eq!(drain, empty_drain());
}

#[test]
fn flipped_pens_erase_with_the_remembered_size() {
    let mut pipeline = pipeline(DrawingTool::Pen);
    let mut drain = empty_drain();
    let flipped = StylusSample { eraser: true, ..sample(1, PointerPhase::Begin, 0, 0) };
    let start = pipeline.brush_begin(flipped, None, &mut drain).unwrap();
    assert!(start.eraser);
    assert_eq!(start.brush, drawing(DrawingTool::Pen).preset_for_stroke(true));
    assert_eq!(drain.used_sizes(), vec![pipeline.drawing.remembered[3].size_tenths]);
    assert_eq!(drain.used_colors(), vec![]);
}

#[test]
fn interrupted_contacts_paint_nothing_until_the_next_begin() {
    let mut pipeline = pipeline(DrawingTool::Pen);
    let mut drain = empty_drain();
    pipeline.brush_begin(sample(1, PointerPhase::Begin, 0, 0), None, &mut drain).unwrap();
    pipeline.brush_started(vec![1, 2]);
    pipeline.consume_discontinuity();
    assert!(pipeline.active.is_none());
    assert_eq!(
        pipeline.gpu_ops,
        vec![GpuStrokeOp::Finish { generation: 1, disposition: LiveStrokeDisposition::Cancel }]
    );
    assert_eq!(pipeline.recovery.input_discontinuities, 1);
    for phase in [PointerPhase::Move, PointerPhase::End, PointerPhase::Cancel] {
        assert_eq!(pipeline.route(&admitted(sample(2, phase, 0, 0))), SampleRoute::Consumed);
    }
    assert_eq!(
        pipeline.route(&admitted(sample(5, PointerPhase::Begin, 0, 0))),
        SampleRoute::Brush
    );
    assert_eq!(pipeline.count.closed, 0);
}

#[test]
fn input_gaps_cancel_the_stroke_with_a_notice() {
    let mut pipeline = pipeline(DrawingTool::Pen);
    let mut drain = empty_drain();
    pipeline.brush_begin(sample(1, PointerPhase::Begin, 0, 0), None, &mut drain).unwrap();
    pipeline.brush_extend(sample(2, PointerPhase::Move, 0, 0));
    pipeline.brush_extended(true, vec![]);
    assert!(pipeline.active.is_none());
    assert!(pipeline.effects.contains(&InkEffect::PublishNotice(Notice::InputGapTooLarge)));
    assert!(pipeline.recovery.awaiting_clean_begin);
}

#[test]
fn full_backlogs_take_no_new_stroke() {
    let mut pipeline = pipeline(DrawingTool::Pen);
    pipeline.defer_materialization(request(1));
    pipeline.defer_materialization(request(2));
    let mut drain = empty_drain();
    assert_eq!(
        pipeline.brush_begin(sample(9, PointerPhase::Begin, 0, 0), None, &mut drain),
        None
    );
    assert!(pipeline.recovery.fatal);
    assert!(pipeline
        .effects
        .contains(&InkEffect::PublishWorkspaceFailure(WorkspaceFailure::BacklogFull)));
    assert_eq!(pipeline.pending_materializations.len(), 2);
}

#[test]
fn temporary_picks_never_paint() {
    let mut pipeline = pipeline(DrawingTool::Pen);
    let begin = AdmittedSample {
        temporary_picker: true,
        ..admitted(sample(4, PointerPhase::Begin, 0, 0))
    };
    let route = pipeline.route(&begin);
    assert!(matches!(
        route,
        SampleRoute::BeginEdit { tool: DrawingTool::Eyedropper, temporary: true, .. }
    ));
    let settings = pipeline.drawing.edit_settings;
    pipeline.begin_picker(&begin.sample, PixelPoint { x: 3, y: -4 }, 3, settings, true);
    let gesture = pipeline.gesture.picker.expect("the pick is open");
    assert_eq!(gesture.token, PickerToken { device: 7, begin: 4, epoch: 3 });
    assert_eq!(gesture.source, PickerSource::Display(None));
    assert!(pipeline.picker_token_valid(gesture.token, 3, false, false));
    assert!(!pipeline.picker_token_valid(gesture.token, 4, false, false));
    pipeline.move_picker(Some(PixelPoint { x: 5, y: 6 }));
    assert_eq!(pipeline.gesture.picker.unwrap().latest.point, PixelPoint { x: 5, y: 6 });
    let end = AdmittedSample {
        temporary_picker: true,
        ..admitted(sample(5, PointerPhase::End, 0, 0))
    };
    assert_eq!(pipeline.route(&end), SampleRoute::FinishEdit);
    pipeline.finish_edit(Ok(EditCommand::PickDisplayColor {
        point: PixelPoint { x: 5, y: 6 },
        solo: None,
        input_sequence: PickSequence { device: 7, sequence: 5 },
    }));
    assert!(pipeline.gpu_ops.is_empty());
    assert!(pipeline.active.is_none());
    assert!(pipeline.cancel_picker());
    assert!(!pipeline.cancel_picker());
}

#[test]
fn closing_seals_the_open_stroke_once() {
    let mut pipeline = pipeline(DrawingTool::Pen);
    let mut drain = empty_drain();
    let begin = sample(1, PointerPhase::Begin, 8, 9);
    pipeline.brush_begin(begin, None, &mut drain).unwrap();
    assert!(pipeline.begin_shutdown());
    assert!(!pipeline.begin_shutdown());
    let end = pipeline.seal_active_for_shutdown().expect("a healthy stroke is sealed");
    assert_eq!(end, StylusSample { sequence: 2, phase: PointerPhase::End, ..begin });
    let request = pipeline.sealed_request("sealed").expect("and handed on");
    assert_eq!(request.samples, vec![begin, end]);
    assert_eq!(request.ordinal, 1);
    assert_eq!(pipeline.sealed_request("again"), None);
}

#[test]
fn strokes_at_their_limit_are_not_sealed() {
    let mut pipeline = pipeline(DrawingTool::Pen);
    let mut drain = empty_drain();
    pipeline.brush_begin(sample(1, PointerPhase::Begin, 0, 0), None, &mut drain).unwrap();
    for sequence in 2..5 {
        pipeline.brush_extend(sample(sequence, PointerPhase::Move, 0, 0));
    }
    assert_eq!(pipeline.seal_active_for_shutdown(), None);
    assert!(pipeline.active.is_none());
    assert!(pipeline
        .effects
        .contains(&InkEffect::PublishWorkspaceFailure(WorkspaceFailure::SealLimit)));
}

#[test]
fn dabs_of_one_stroke_are_joined() {
    let mut ops = vec![GpuStrokeOp::Dabs { generation: 4, dabs: vec![1] }];
    let mut scratch = vec![2, 3];
    append_gpu_dabs(&mut ops, 4, &mut scratch);
    assert!(scratch.is_empty());
    append_gpu_dabs(&mut ops, 4, &mut scratch);
    let mut other = vec![9];
    append_gpu_dabs(&mut ops, 5, &mut other);
    assert_eq!(
        ops,
        vec![
            GpuStrokeOp::Dabs { generation: 4, dabs: vec![1, 2, 3] },
            GpuStrokeOp::Dabs { generation: 5, dabs: vec![9] },
        ]
    );
}

#[test]
fn stale_preview_operations_are_skipped() {
    let mut state = GpuState::new();
    let live =
        LivePreview { generation: 2, layer: LayerId(1), eraser: false, alpha_locked: true };
    let dabs = GpuStrokeOp::Dabs { generation: 2, dabs: vec![1_u8] };
    assert_eq!(state.plan(&dabs), GpuAction::Skip);
    state.stroke_replaced(live, false);
    assert_eq!(state.plan(&dabs), GpuAction::ApplyDabs(Painter::AlphaLocked));
    assert_eq!(
        state.plan(&GpuStrokeOp::Dabs { generation: 1, dabs: vec![1_u8] }),
        GpuAction::Skip
    );
    let dirty = SignedDirtyRect { min_x: 0, min_y: 0, max_x: 1, max_y: 1 };
    state.dabs_applied(2, Some(dirty), 1);
    assert_eq!(state.latest_preview.len(), 1);
    assert_eq!(state.batches, 1);
    state.stroke_finished(2, LiveStrokeDisposition::Cancel);
    assert_eq!(state.latest_preview.len(), 0);
    assert!(state.live.is_none());
}

#[test]
fn committed_previews_stay_until_their_tiles_arrive() {
    let mut state = GpuState::new();
    let live =
        LivePreview { generation: 3, layer: LayerId(1), eraser: true, alpha_locked: false };
    state.stroke_replaced(live, false);
    assert_eq!(
        state.plan(&GpuStrokeOp::Dabs { generation: 3, dabs: vec![1_u8] }),
        GpuAction::ApplyDabs(Painter::Eraser)
    );
    let dirty = SignedDirtyRect { min_x: 0, min_y: 0, max_x: 129, max_y: 1 };
    state.dabs_applied(3, Some(dirty), 1);
    state.stroke_finished(3, LiveStrokeDisposition::Commit);
    assert_eq!(state.latest_preview.len(), 2);
    state.fail_gpu_transaction(3, true);
    assert_eq!(state.latest_preview.len(), 0);
}

#[test]
fn previews_show_the_selected_brush() {
    let shown = preset_for_ui_preview(controls(DrawingTool::Brush), defaults());
    assert_eq!(shown, drawing(DrawingTool::Brush).preset());
    assert!(matches!(shown.family, BrushFamily::Round { .. }));
    let pencil = preset_for_ui_preview(controls(DrawingTool::Pencil), defaults());
    assert_eq!(pencil.family, BrushFamily::Pencil(PencilTemplate::Mechanical2H));
}

#[test]
fn retired_displays_do_not_fail_saved_strokes() {
    for answer in [LaneAnswer::Full, LaneAnswer::Disconnected] {
        assert_eq!(publish_closed_completion(true, answer, true), Delivery::Retired);
        assert_eq!(publish_closed_completion(false, answer, true), Delivery::Retired);
    }
    assert_eq!(
        publish_closed_completion(false, LaneAnswer::Disconnected, false),
        Delivery::Disconnected
    );
    assert_eq!(publish_closed_completion(false, LaneAnswer::Accepted, true), Delivery::Sent);
}

#[test]
fn writer_lanes_count_accepted_strokes() {
    let mut lane = WriterLane { open: true, pending: 0, display_retired: false };
    assert!(lane.stroke_offered(LaneAnswer::Accepted));
    assert_eq!(lane.pending, 1);
    assert!(!lane.stroke_offered(LaneAnswer::Full));
    assert_eq!(lane.pending, 1);
    lane.retire_display();
    assert!(lane.display_retired);
    assert!(!lane.close(WorkerExit::Drained));
    assert!(!lane.open);
}

/// Runs a whole drain: gestures finish with `Artwork(7)`, positions are valid,
/// and every sample draws one dab.
fn drain(
    pipeline: &mut Pipeline,
    samples: Vec<AdmittedSample<(i32, i32)>>,
    discontinuity: bool,
    sender: &SyncSender<Request>,
) -> StrokeDrain {
    let mut report = empty_drain();
    let mut cursor = DrainCursor::new();
    let mut queue = samples.into_iter();
    let mut event = DrainEvent::Drained(queue.len());
    loop {
        event = match pipeline.drain(&mut cursor, event, &mut report) {
            DrainAction::TakeSample => match queue.next() {
                Some(sample) => DrainEvent::Sample(sample),
                None => DrainEvent::NoMoreSamples { discontinuity },
            },
            DrainAction::BeginGesture { sample, .. } | DrainAction::MoveGesture(sample) => {
                let (x, y) = sample.reading;
                DrainEvent::GestureAt(Some(PixelPoint { x, y }))
            }
            DrainAction::FinishGesture(_) => {
                DrainEvent::GestureFinished(Ok(EditCommand::Artwork(7)))
            }
            DrainAction::AskGeometry(_) => DrainEvent::Geometry {
                edit_busy: false,
                geometry: DragGeometry {
                    hit: true,
                    update: Err(TransformRefusal::MoveOutOfRange),
                },
            },
            DrainAction::Smooth(_, sample) => {
                DrainEvent::Smoothed((sample.reading.0 >= 0).then_some(sample))
            }
            DrainAction::StartStroke(start) => DrainEvent::Dabs {
                discontinuous: false,
                dabs: vec![start.sample.sequence as u32],
            },
            DrainAction::ExtendStroke(sample) => DrainEvent::Dabs {
                discontinuous: sample.reading.1 < 0,
                dabs: vec![sample.sequence as u32],
            },
            DrainAction::EndStroke => DrainEvent::Recorded { dabs: vec![], record: "ink" },
            DrainAction::Offer(request) => DrainEvent::Replied(offer(sender, request)),
            DrainAction::Done => return report,
        };
    }
}

fn contact(first: u64, at: (i32, i32)) -> Vec<AdmittedSample<(i32, i32)>> {
    [PointerPhase::Begin, PointerPhase::Move, PointerPhase::End]
        .into_iter()
        .enumerate()
        .map(|(index, phase)| admitted(sample(first + index as u64, phase, at.0, at.1)))
        .collect()
}

#[test]
fn drains_offer_closed_strokes_in_order() {
    let (sender, receiver) = sync_channel(1);
    let mut pipeline = pipeline(DrawingTool::Pen);
    let mut samples = contact(1, (0, 0));
    samples.extend(contact(4, (1, 1)));
    samples.extend(contact(7, (2, 2)));
    let report = drain(&mut pipeline, samples, false, &sender);
    assert_eq!(report.samples, 9);
    assert!(report.artwork_closed);
    assert_eq!(report.used_sizes(), vec![80]);
    assert_eq!(ordinals(&receiver), [1]);
    assert_eq!(pipeline.pending_materializations.len(), 2);
    flush(&mut pipeline, &sender);
    flush(&mut pipeline, &sender);
    assert_eq!(ordinals(&receiver), [2]);
    assert_eq!(pipeline.take_gpu_ops().len(), 9);
}

#[test]
fn drains_cancel_invalid_and_discontinuous_strokes() {
    for at in [(-1, 0), (0, -1)] {
        let (sender, receiver) = sync_channel(1);
        let mut pipeline = pipeline(DrawingTool::Pen);
        let report = drain(&mut pipeline, contact(1, at), false, &sender);
        assert!(!report.artwork_closed);
        assert!(receiver.try_recv().is_err());
        assert!(pipeline.active.is_none());
        assert!(pipeline.recovery.awaiting_clean_begin);
        assert!(matches!(pipeline.effects.last(), Some(InkEffect::PublishNotice(_))));
    }
}

#[test]
fn drains_end_with_the_lost_input() {
    let (sender, receiver) = sync_channel(1);
    let mut pipeline = pipeline(DrawingTool::Pen);
    let open = vec![admitted(sample(1, PointerPhase::Begin, 0, 0))];
    let report = drain(&mut pipeline, open, true, &sender);
    assert!(!report.artwork_closed);
    assert!(pipeline.active.is_none());
    let tail = vec![admitted(sample(3, PointerPhase::End, 0, 0))];
    assert!(!drain(&mut pipeline, tail, false, &sender).artwork_closed);
    assert!(receiver.try_recv().is_err());
    assert!(drain(&mut pipeline, contact(4, (0, 0)), false, &sender).artwork_closed);
    assert_eq!(ordinals(&receiver), [1]);
}

#[test]
fn drains_finish_gestures_and_start_transforms() {
    let (sender, receiver) = sync_channel(1);
    let mut filling = pipeline(DrawingTool::Fill);
    drain(&mut filling, contact(1, (3, 4)), false, &sender);
    assert_eq!(filling.gesture.completed_edit, Some(Ok(EditCommand::Artwork(7))));
    let mut moving = pipeline(DrawingTool::MoveSelection);
    drain(&mut moving, contact(1, (3, 4)), false, &sender);
    assert!(!moving.transform.starting, "nothing is selected");
    assert!(receiver.try_recv().is_err());
}

#[test]
fn failed_workspaces_quarantine_the_whole_drain() {
    let (sender, receiver) = sync_channel(1);
    let mut pipeline = pipeline(DrawingTool::Pen);
    pipeline.fail_closed();
    let report = drain(&mut pipeline, contact(1, (0, 0)), true, &sender);
    assert_eq!(report.samples, 3);
    assert!(!report.artwork_closed);
    assert!(receiver.try_recv().is_err());
    assert!(pipeline.gpu_ops.is_empty());
}

/// Runs a whole shutdown; what was still queued is drained on the way.
fn shut_down(
    pipeline: &mut Pipeline,
    queued: Vec<AdmittedSample<(i32, i32)>>,
    sender: &SyncSender<Request>,
) -> Vec<&'static str> {
    let mut done = Vec::new();
    let mut queued = Some(queued);
    let mut stage = ShutdownStage::Begin;
    let mut event = ShutdownEvent::Start;
    loop {
        event = match pipeline.prepare_shutdown(&mut stage, event) {
            ShutdownAction::RetireDisplay => {
                done.push("retired");
                ShutdownEvent::DisplayRetired
            }
            ShutdownAction::Enqueue(request) => {
                done.push("enqueued");
                ShutdownEvent::Enqueued(sender.try_send(request).is_ok())
            }
            ShutdownAction::Drain => {
                done.push("drained");
                let (deferring, _full) = sync_channel(0);
                drain(pipeline, queued.take().unwrap_or_default(), false, &deferring);
                ShutdownEvent::Drained
            }
            ShutdownAction::EndStroke(_) => {
                done.push("sealed");
                ShutdownEvent::Recorded("sealed")
            }
            ShutdownAction::Done => return done,
        };
    }
}

#[test]
fn shutdowns_hand_over_everything_in_order() {
    let (sender, receiver) = sync_channel(8);
    let mut pipeline = pipeline(DrawingTool::Pen);
    pipeline.count.closed = 1;
    pipeline.defer_materialization(request(1));
    let mut queued = contact(5, (0, 0));
    queued.push(admitted(sample(9, PointerPhase::Begin, 4, 4)));
    let done = shut_down(&mut pipeline, queued, &sender);
    assert_eq!(
        done,
        vec!["retired", "enqueued", "drained", "enqueued", "sealed", "enqueued"]
    );
    let requests: Vec<Request> = receiver.try_iter().collect();
    assert_eq!(requests.iter().map(|request| request.ordinal).collect::<Vec<_>>(), [1, 2, 3]);
    assert_eq!(requests[2].record, "sealed");
    assert_eq!(requests[2].samples.last().unwrap().phase, PointerPhase::End);
    assert!(shut_down(&mut pipeline, Vec::new(), &sender).is_empty());
}

#[test]
fn shutdowns_report_a_stroke_that_no_writer_takes() {
    let (sender, receiver) = sync_channel(1);
    drop(receiver);
    let mut pipeline = pipeline(DrawingTool::Pen);
    let queued = vec![admitted(sample(9, PointerPhase::Begin, 4, 4))];
    let done = shut_down(&mut pipeline, queued, &sender);
    assert_eq!(done, vec!["retired", "drained", "sealed", "enqueued"]);
    assert!(pipeline
        .effects
        .contains(&InkEffect::PublishWorkspaceFailure(WorkspaceFailure::SealWriterStopped)));
}

#[test]
fn shutdowns_keep_no_interrupted_stroke() {
    let (sender, receiver) = sync_channel(1);
    let mut pipeline = pipeline(DrawingTool::Pen);
    let mut drained = empty_drain();
    pipeline.brush_begin(sample(1, PointerPhase::Begin, 0, 0), None, &mut drained).unwrap();
    pipeline.recovery.awaiting_clean_begin = true;
    let done = shut_down(&mut pipeline, Vec::new(), &sender);
    assert_eq!(done, vec!["retired", "drained"]);
    assert!(receiver.try_recv().is_err());
    assert!(pipeline.active.is_none());
}
