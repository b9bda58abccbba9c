use nyatidraw_desktop::canvas::ExportStatus;
use nyatidraw_desktop::document::{CanvasSpec, GroupId, LayerId, LayerTreeNodeId};
use nyatidraw_desktop::drawing::DrawingTool;
use nyatidraw_desktop::editor_command::{EditorCommand, HistoryCommand};
use nyatidraw_desktop::frame_trace::{
    frame_mark, trace_dequeued, FrameMark, FrameTrace, MaterializedTrace,
};
use nyatidraw_desktop::histogram::Histogram;
use nyatidraw_desktop::input::PointerPhase;
use nyatidraw_desktop::layer_command::LayerCommand;
use nyatidraw_desktop::performance::{
    input_dequeued, micros_between, presented, record, start, ExportInterval, HistoryTiming,
    HistoryWorkerStep, HistoryWorkerTiming, Performance, Span, Stage,
};
use nyatidraw_desktop::performance_probe;
use nyatidraw_desktop::performance_probe::{
    await_start, expected_entries, healthy, is_fresh, run, save, wait, ProbeError, ProbeFacts,
    RunStage, Scenario,
};
use nyatidraw_desktop::performance_report::{flush, flush_frame_trace, FrameStatus};
use nyatidraw_desktop::performance_workload::{canvas, due_ns, sample};
use nyatidraw_desktop::probes::{
    advance_edit_probe, advance_history_probe, advance_input_safety_probe_after_drain,
    advance_input_safety_probe_before_drain, advance_protocol_probe, advance_save_probe,
    enqueue_synthetic_durability_probe, export_probe_boundary, history_probe_command,
    input_probe_sample, placed_probe_sample, save_probe_end, EditProbe, EditProbeFacts, EditProbeStep, ExportProbeFacts,
    HistoryProbeStep, ProtocolProbeStep, SaveProbeStep,
};
use nyatidraw_desktop::text::{is_word, strip_prefix};

fn measuring() -> Performance {
    Performance { enabled: true, exporting: false, recorder: None }
}

#[test]
fn percentiles_are_bounded_by_their_bins() {
    let mut histogram = Histogram::new();
    for micros in 1..=100 {
        histogram.add(micros);
    }
    assert_eq!(histogram.count, 100);
    assert_eq!(histogram.min, 1);
    assert_eq!(histogram.max, 100);
    assert_eq!(histogram.percentile_upper(50), 51);
    assert_eq!(histogram.percentile_upper(99), 99);
    assert_eq!(histogram.percentile_upper(100), 100);
    assert_eq!(histogram.percentile_upper(1), 1);
    histogram.add(u64::MAX);
    assert_eq!(histogram.max, u64::MAX);
    assert_eq!(histogram.percentile_upper(100), u64::MAX);
}

#[test]
fn percentiles_overstate_their_rank_by_a_sixteenth() {
    let samples: Vec<u64> = vec![7, 900, 33, 12, 5_000_000, 33, 64, 1_025, 3, 2_047];
    let mut histogram = Histogram::new();
    for micros in &samples {
        histogram.add(*micros);
    }
    let mut sorted = samples;
    sorted.sort_unstable();
    let mut previous: u64 = 0;
    for percent in 1..=100 {
        let ranked = sorted[(sorted.len() * percent).div_ceil(100) - 1];
        let bound = histogram.percentile_upper(percent as u64);
        assert!(ranked <= bound && bound <= 5_000_000);
        assert!(bound - ranked <= ranked / 16);
        assert!(previous <= bound);
        previous = bound;
    }
    assert_eq!(histogram.percentile_upper(30), 12);
    assert_eq!(histogram.percentile_upper(80), 1_087);
    assert_eq!(histogram.percentile_upper(100), 5_000_000);
}

#[test]
fn stages_are_recorded_apart_while_exporting() {
    let mut performance = measuring();
    assert_eq!(start(&performance, 5), Some(5));
    record(&mut performance, Stage::Frame, 1_000, 9_000, false);
    let interval = ExportInterval::enter(&mut performance);
    let span = Span::new(&performance, Stage::Frame, 0);
    span.finish(&mut performance, 3_000_000);
    interval.leave(&mut performance);
    let report = flush(&mut performance).unwrap();
    assert_eq!(report.stages.len(), 2);
    assert_eq!(report.stages[0].max, 8);
    assert_eq!(report.stages[1].max, 3_000);
    assert_ne!(report.stages[0].slot, report.stages[1].slot);
    assert!(flush(&mut performance).is_none());
    assert_eq!(micros_between(5_000, 4_000), 0);
    let idle = Performance { enabled: false, exporting: false, recorder: None };
    assert_eq!(start(&idle, 5), None);
    assert_eq!(Stage::InputDequeue.index(), 0);
    assert_eq!(Stage::HistoryQueueToPresent.index(), 19);
    assert!(!Stage::Navigator.name().is_empty());
}

#[test]
fn the_first_waiting_input_is_presented() {
    let mut performance = measuring();
    input_dequeued(&mut performance, Some(1_000_000), 2_000_000);
    input_dequeued(&mut performance, Some(500_000), 3_000_000);
    presented(&mut performance, 4_000_000);
    let report = flush(&mut performance).unwrap();
    let shown = report.stages.iter().find(|line| line.count == 1).unwrap();
    assert_eq!(shown.max, 3_000);
    assert!(!report.input_without_present);
}

#[test]
fn history_timings_are_split_at_their_boundaries() {
    let mut performance = measuring();
    let mut timing = HistoryTiming::queued(&mut performance, 0).unwrap();
    let mut worker = HistoryWorkerTiming::begin(&performance, 10_000);
    for (index, step) in [
        HistoryWorkerStep::Prepared,
        HistoryWorkerStep::TilesLoaded,
        HistoryWorkerStep::MetadataLoaded,
        HistoryWorkerStep::CursorPersisted,
        HistoryWorkerStep::SessionAccepted,
        HistoryWorkerStep::ReplyReady,
    ]
    .into_iter()
    .enumerate()
    {
        HistoryWorkerTiming::mark(&mut worker, step, 20_000 + 10_000 * index as u128);
    }
    timing.received(worker, 100_000);
    timing.adopted(&mut performance, 150_000);
    timing.presented(&mut performance, 250_000);
    let report = flush(&mut performance).unwrap();
    assert_eq!(report.history_queued, 1);
    assert_eq!(report.history_adopted, 1);
    assert_eq!(report.history_presented, 1);
    let line = &report.history[0];
    assert_eq!(line.queue_wait, 10);
    assert_eq!(line.prepare, 10);
    assert_eq!(line.worker_total, 60);
    assert_eq!(line.reply_wait, 30);
    assert_eq!(line.adoption_publish, 50);
    assert_eq!(line.after_adoption, 100);
    assert_eq!(line.total, 250);
    assert!(!line.worker_before_admission);
}

#[test]
fn slow_frames_are_kept_and_counted() {
    let mut trace = FrameTrace::new();
    trace.begin_batch(false, true, 0);
    frame_mark(&mut trace, FrameMark::Render, 1_000_000);
    trace_dequeued(&mut trace, 500_000, true, 2_000_000);
    let mut adoption = MaterializedTrace::begin(Some(&trace), 2_000_000);
    adoption.add_completed(2);
    adoption.add_cpu_clone(10);
    adoption.add_upload_attempt();
    adoption.add_upload_success();
    adoption.add_deferred();
    adoption.finish(&mut trace, 2_500_000);
    frame_mark(&mut trace, FrameMark::PresentBegin, 8_000_000);
    frame_mark(&mut trace, FrameMark::PresentEnd, 9_000_000);
    trace.end_batch(9_500_000);
    assert_eq!(trace.samples.len(), 1);
    let line = trace.samples[0].line();
    assert_eq!(line.status, FrameStatus::PresentReturned);
    assert_eq!(line.render, Some(1_000));
    assert_eq!(line.end, 9_500);
    assert_eq!(line.admission, Some(500));
    assert_eq!(line.admission_to_present, Some(8_500));
    assert_eq!(line.materialized_micros, 500);
    assert_eq!(trace.materialized_totals.cpu_bytes, 10);
    assert_eq!(trace.materialized_totals.outside_scene_calls, 1);
    trace.begin_batch(true, false, 10_000_000);
    trace.end_batch(10_000_001);
    assert_eq!(trace.totals.control_only, 1);
    assert_eq!(trace.totals.presented, 1);
    let mut slot = Some(trace);
    assert!(flush_frame_trace(&mut slot).is_some());
    assert!(slot.is_none() || flush_frame_trace(&mut slot).is_none());
}

#[test]
fn workloads_draw_the_same_lines() {
    assert_eq!(canvas(), CanvasSpec { width_px: 3840, height_px: 2160, pixels_per_inch: 96 });
    let first = sample(0, 0);
    assert_eq!(first.phase, PointerPhase::Begin);
    assert_eq!((first.reading.x, first.reading.y), (240, 128));
    assert_eq!(first.sequence, 1);
    let last = sample(31, 120);
    assert_eq!(last.phase, PointerPhase::End);
    assert_eq!((last.reading.x, last.reading.y), (3_600, 1_678));
    assert_eq!(last.sequence, 32 * 121);
    assert_eq!(first.reading.pressure_hundredths, 100);
    assert_eq!(last.reading.pressure_hundredths, 100);
    assert_eq!(due_ns(3), 12_500_001);
    let beyond = sample(32, 121);
    assert_eq!(beyond.phase, PointerPhase::Move);
    assert_eq!((beyond.reading.x, beyond.reading.y), (3_628, 1_728));
    assert_eq!(beyond.sequence, 32 * 121 + 122);
    assert_eq!(beyond.timestamp_ns, beyond.sequence * 4_166_667);
}

#[test]
fn probes_run_on_fresh_scratch_projects() {
    let facts = ProbeFacts {
        scenario: Some(Scenario::Export),
        measuring: true,
        scratch_name: true,
        scratch_mark: true,
        canvas: canvas(),
        used: false,
    };
    assert_eq!(performance_probe::start(facts), Some(Scenario::Export));
    for refused in [
        ProbeFacts { measuring: false, ..facts },
        ProbeFacts { scratch_name: false, ..facts },
        ProbeFacts { scratch_mark: false, ..facts },
        ProbeFacts { used: true, ..facts },
        ProbeFacts { scenario: None, ..facts },
    ] {
        assert_eq!(performance_probe::start(refused), None);
    }
    assert_eq!(healthy(true, false, false), Err(ProbeError::CancelledOrFailed));
    assert_eq!(healthy(false, false, false), Ok(()));
    assert_eq!(await_start(Ok(()), true, 0), Ok(true));
    assert_eq!(await_start(Ok(()), false, 120_000_000_000), Ok(false));
    assert_eq!(await_start(Ok(()), false, 120_000_000_001), Err(ProbeError::StartMarkerTimeout));
    assert_eq!(wait(Ok(()), false, 20_000_000_001), Err(ProbeError::ConditionTimeout));
    assert!(is_fresh(2, 0));
    assert!(!is_fresh(2, 1));
    assert!(!is_fresh(3, 0));
    assert_eq!(expected_entries(3), 6);
    assert!(save(ExportStatus::Running { generation: 2 }, 1, true));
    assert!(!save(ExportStatus::Running { generation: 1 }, 1, true));
    assert!(save(ExportStatus::Current { generation: 2 }, 1, false));
    assert!(!save(ExportStatus::Idle, 0, false));
}

#[test]
fn probe_runs_end_with_a_save() {
    let mut stage = RunStage::CheckFresh;
    let mut steps = 0;
    let mut strokes = 0;
    while stage != RunStage::Done {
        let next = run(stage, Scenario::Baseline);
        if matches!(next, RunStage::Stroke(_)) {
            strokes += 1;
        }
        if next == RunStage::Done {
            assert_eq!(stage, RunStage::FinalSave);
        }
        stage = next;
        steps += 1;
        assert!(steps < 500);
    }
    assert_eq!(strokes, 32);
}

#[test]
fn history_probes_are_read_from_text() {
    assert_eq!(
        history_probe_command(Some("undo")),
        Some(EditorCommand::History(HistoryCommand::Undo))
    );
    assert_eq!(
        history_probe_command(Some("redo:12")),
        Some(EditorCommand::History(HistoryCommand::RedoTo(12)))
    );
    assert_eq!(
        history_probe_command(Some("delete-r:7")),
        Some(EditorCommand::Layer(LayerCommand::Delete(LayerTreeNodeId::Raster(LayerId(7)))))
    );
    assert_eq!(
        history_probe_command(Some("delete-g:8")),
        Some(EditorCommand::Layer(LayerCommand::Delete(LayerTreeNodeId::Group(GroupId(8)))))
    );
    assert_eq!(
        history_probe_command(Some("page")),
        Some(EditorCommand::History(HistoryCommand::ShowRedoBranches { after: None }))
    );
    assert_eq!(history_probe_command(Some("redo:x")), None);
    assert_eq!(history_probe_command(None), None);
    assert_eq!(advance_history_probe(None, false), HistoryProbeStep::Nothing);
    assert_eq!(advance_history_probe(Some(false), false), HistoryProbeStep::Submit);
}

#[test]
fn protocol_probes_try_stale_commands() {
    assert!(matches!(
        advance_protocol_probe(Some(0), false),
        ProtocolProbeStep::Submit { .. }
    ));
    assert!(matches!(advance_protocol_probe(None, false), ProtocolProbeStep::Nothing));
}

#[test]
fn edit_probes_wait_for_their_tool() {
    let facts = EditProbeFacts {
        busy: false,
        has_selection: false,
        save_pending: false,
        tool: DrawingTool::Pen,
        released: false,
    };
    assert_eq!(
        advance_edit_probe(EditProbe::CloseNativeFill, 0, facts),
        EditProbeStep::SelectTool(DrawingTool::Fill)
    );
    assert_eq!(
        advance_edit_probe(EditProbe::CloseNativeFill, 1, facts),
        EditProbeStep::Nothing
    );
    let filling = EditProbeFacts { tool: DrawingTool::Fill, ..facts };
    assert_eq!(
        advance_edit_probe(EditProbe::CloseNativeFill, 1, filling),
        EditProbeStep::Tap { sequence: 20_000, x: 20, y: 20 }
    );
    assert_eq!(advance_save_probe(9, false, false), SaveProbeStep::Nothing);
}

#[test]
fn synthetic_samples_are_fixed() {
    let begin = input_probe_sample(70, PointerPhase::Begin);
    assert_eq!(begin.reading.pressure_hundredths, 75);
    let placed = placed_probe_sample(20_000, PointerPhase::Begin, 20, 21, 6);
    assert_eq!((placed.reading.x, placed.reading.y), (20, 21));
    assert_eq!(placed.reading.pressure_hundredths, 75);
    assert_eq!(placed.viewport_revision, 6);
    assert_eq!(placed.timestamp_ns, 20_000_000_000);
    let end = save_probe_end();
    assert_eq!((end.sequence, end.timestamp_ns, end.phase), (3, 2_000_000, PointerPhase::End));
    assert_eq!((end.reading.x, end.reading.y), (258, 256));
    assert_eq!((begin.reading.x, begin.reading.y), (262, 256));
    assert_eq!(begin.timestamp_ns, 70_000_000);
    let erasing = enqueue_synthetic_durability_probe(25, 1);
    assert!(erasing.eraser);
    assert_eq!(erasing.sequence, 77);
    assert_eq!((erasing.reading.x, erasing.reading.y), (258, 270));
    let mut sequence = 0;
    while advance_input_safety_probe_before_drain(4, sequence).is_some() {
        sequence += 1;
        assert!(sequence < 100);
    }
    assert!(sequence > 4);
    assert_eq!(advance_input_safety_probe_after_drain(9), None);
    let facts = ExportProbeFacts {
        stage_named: true,
        directory_known: true,
        below_temporary: true,
        holds_export: true,
        marked_scratch: true,
    };
    assert!(export_probe_boundary(facts));
    assert!(!export_probe_boundary(ExportProbeFacts { below_temporary: false, ..facts }));
}

#[test]
fn words_are_compared_whole() {
    assert!(is_word("undo", "undo"));
    assert!(!is_word("undo ", "undo"));
    assert_eq!(strip_prefix("redo:5", "redo:"), Some("5"));
    assert_eq!(strip_prefix("red", "redo:"), None);
}
