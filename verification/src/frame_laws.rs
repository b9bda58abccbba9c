//! What a frame does in which order, what it publishes, and what is measured
//! of it.
use vstd::prelude::*;

use crate::canvas::{ActiveCanvas, BridgeFacts, CanvasState, ExportStatus};
use crate::command::CommandRejectReason;
use crate::document::LayerTreeNodeId;
use crate::editor_command::{EditorCommand, ProjectionError};
use crate::frame::{
    CommandProgress, CommandStep, FrameFacts, FrameStage, PublicationFailure, UsagePublication,
};
use crate::frame_trace::{
    frame_mark, FrameMark, FrameMarks, FrameSample, FrameTrace, MaterializedCounters,
    MaterializedTrace, Traced,
};
use crate::histogram::{bin_of, Observations};
use crate::layer_tree::LayerTree;
use crate::performance::{
    elapsed_micros, histogram_slot, input_dequeued, presented, ExportInterval, HistorySample,
    HistoryWorkerStep, HistoryWorkerTiming, Performance, Recorded, Span, Stage,
};
use crate::performance_probe::{
    begun_stroke, save, start, waited, ProbeError, ProbeFacts, RunStage, Scenario,
};
use crate::performance_report::{ceil_micros, frame_status, history_line, offset_micros};
use crate::performance_workload::sample;
use crate::input::StylusSample;
use crate::probes::ProbeReading;

verus! {

/// The frame of a canvas with nothing in the way.
pub open spec fn smooth(facts: FrameFacts) -> bool {
    &&& facts.width > 0 && facts.height > 0
    &&& !facts.initial_fit_pending
    &&& facts.hold is Nothing
    &&& !facts.workspace_failed && !facts.probe_stops && !facts.composite_failed
}

/// The stage that many stages after another one.
pub open spec fn stage_after(
    stage: FrameStage,
    native_pick: bool,
    facts: FrameFacts,
    steps: nat,
) -> FrameStage
    decreases steps,
{
    if steps == 0 {
        stage
    } else {
        stage_after(stage, native_pick, facts, (steps - 1) as nat).followed_by(native_pick, facts)
    }
}

/// A frame with nothing in the way goes through every one of its stages, in
/// order, and is presented.
pub proof fn smooth_frames_go_through_every_stage(facts: FrameFacts)
    requires
        smooth(facts),
    ensures
        stage_after(FrameStage::Begin, false, facts, 1) is EnsureView,
        stage_after(FrameStage::Begin, false, facts, 2) is AdoptTiles,
        stage_after(FrameStage::Begin, false, facts, 3) is PollArtwork,
        stage_after(FrameStage::Begin, false, facts, 4) is Drain,
        stage_after(FrameStage::Begin, false, facts, 5) is ExecuteGpuOps,
        stage_after(FrameStage::Begin, false, facts, 6) is StageCancel,
        stage_after(FrameStage::Begin, false, facts, 7) is FlushClosedStrokes,
        stage_after(FrameStage::Begin, false, facts, 8) is StageUsage,
        stage_after(FrameStage::Begin, false, facts, 9) is AdoptNewTiles,
        stage_after(FrameStage::Begin, false, facts, 10) is AdoptNativeEdit,
        stage_after(FrameStage::Begin, false, facts, 11) is FlushTransform,
        stage_after(FrameStage::Begin, false, facts, 12) is ApplyCommands,
        stage_after(FrameStage::Begin, false, facts, 13) is UpdatePickerPreview,
        stage_after(FrameStage::Begin, false, facts, 14) is CheckFailure,
        stage_after(FrameStage::Begin, false, facts, 15) is AdvanceSaveProbe,
        stage_after(FrameStage::Begin, false, facts, 16) is FlushSave,
        stage_after(FrameStage::Begin, false, facts, 17) is AdvanceProbes,
        stage_after(FrameStage::Begin, false, facts, 18) is PublishNavigator,
        stage_after(FrameStage::Begin, false, facts, 19) is Composite,
        stage_after(FrameStage::Begin, false, facts, 20) is Present,
{
    reveal_with_fuel(stage_after, 22);
}

/// What turns a frame aside: an empty window, a first fit, held input, a pick,
/// a failure or a probe, each at its own stage.
pub proof fn frames_turn_aside_for_a_reason(native_pick: bool, facts: FrameFacts)
    ensures
        FrameStage::Begin.followed_by(native_pick, facts) is Skip <==> facts.width == 0
            || facts.height == 0,
        facts.width > 0 && facts.height > 0 ==> (FrameStage::Begin.followed_by(
            native_pick,
            facts,
        ) is QueueInitialFit <==> facts.initial_fit_pending),
        FrameStage::QueueInitialFit.followed_by(native_pick, facts) is EnsureView,
        FrameStage::AdoptTiles.followed_by(native_pick, facts) is ApplyHeldCommands
            <==> facts.hold is SamplesOnly,
        FrameStage::AdoptTiles.followed_by(native_pick, facts) is Skip <==> facts.hold
            is Everything,
        facts.hold is Nothing ==> (FrameStage::AdoptTiles.followed_by(native_pick, facts) is Drain
            <==> native_pick),
        FrameStage::ApplyHeldCommands.followed_by(native_pick, facts) is PresentUnchanged,
        FrameStage::StageCancel.followed_by(native_pick, facts) is Skip <==> facts.workspace_failed,
        FrameStage::CheckFailure.followed_by(native_pick, facts) is Skip
            <==> facts.workspace_failed,
        FrameStage::AdvanceProbes.followed_by(native_pick, facts) is Skip <==> facts.probe_stops,
        FrameStage::PollNativePick.followed_by(native_pick, facts) is CheckFailure,
{
}

/// Samples of a frame apply to the active layer, to what is shown alone and
/// with the controls that were accepted; a failed workspace takes none.
pub proof fn drains_apply_to_what_is_active<P, D, A>(
    state: CanvasState<P, D, A>,
    tree: LayerTree,
    solo: Option<LayerTreeNodeId>,
)
    ensures
        ({
            let after = state.drain_begun(tree, solo, false).stroke;
            &&& after.focus == tree.focus_on(state.active_layer)
            &&& after.picker_solo == solo
            &&& after.drawing == state.drawing
            &&& after.active == state.stroke.active
            &&& after.gesture == state.stroke.gesture
            &&& after.backlog == state.stroke.backlog
            &&& after.recovery == state.stroke.recovery
        }),
        state.drain_begun(tree, solo, true).stroke.recovery.fatal,
        state.drain_begun(tree, solo, true).stroke.gesture.picker is None,
{
}

/// A command is applied, published and accepted in turn, and refused with the
/// first reason that comes up.
pub proof fn commands_are_applied_then_published<P, D, A>(
    state: CanvasState<P, D, A>,
    command: EditorCommand,
    based_on: u64,
    current: u64,
    changed: bool,
    reason: CommandRejectReason,
    error: ProjectionError,
    validation: Result<(), CommandRejectReason>,
)
    ensures
        state.command_stepped(
            command,
            based_on,
            current,
            CommandProgress::Received { workspace_failed: true, validation },
        ) == CommandStep::Reject(CommandRejectReason::WorkspaceFailed),
        current < u64::MAX && validation is Ok ==> state.command_stepped(
            command,
            based_on,
            current,
            CommandProgress::Received { workspace_failed: false, validation },
        ) is Apply,
        !(command is Save) && !(command is Tool) && validation is Err ==> state.command_stepped(
            command,
            based_on,
            current,
            CommandProgress::Received { workspace_failed: false, validation },
        ) == CommandStep::Reject(validation->Err_0),
        state.command_stepped(command, based_on, current, CommandProgress::Applied(Ok(changed)))
            == (CommandStep::Publish { artwork_changed: changed }),
        state.command_stepped(command, based_on, current, CommandProgress::Applied(Err(reason)))
            == CommandStep::Reject(reason),
        state.command_stepped(command, based_on, current, CommandProgress::Published(Ok(())))
            == (CommandStep::Accept { persist_layout: command is Dock }),
        state.command_stepped(command, based_on, current, CommandProgress::Published(Err(error)))
            is Reject,
{
}

/// Whether Escape helps is published where it changed; a failed workspace stops
/// the ink; all commands done, the base of the frame's publications is gone.
pub proof fn frames_publish_what_changed<P: Copy, D, A>(
    bridge: BridgeFacts,
    revision: u64,
    failed: bool,
)
    ensures
        forall|canvas: &mut ActiveCanvas<P, D, A>, publish: bool|
            #[trigger] call_ensures(
                ActiveCanvas::<P, D, A>::stage_cancel_changes,
                (canvas, bridge, revision),
                publish,
            ) ==> {
                &&& publish <==> canvas@.edit.can_cancel != final(canvas)@.edit.can_cancel
                &&& final(canvas)@.edit.can_cancel == canvas@.can_cancel(bridge)
                &&& publish ==> final(canvas)@.publication_base is Some
                &&& !publish ==> final(canvas)@.publication_base == canvas@.publication_base
                &&& final(canvas)@.stroke == canvas@.stroke
            },
        forall|canvas: &mut ActiveCanvas<P, D, A>, stopped: bool|
            #[trigger] call_ensures(
                ActiveCanvas::<P, D, A>::synchronize_workspace_failure,
                (canvas, failed),
                stopped,
            ) ==> {
                &&& stopped == failed
                &&& failed ==> final(canvas)@.stroke.recovery.fatal
                &&& !failed ==> final(canvas)@ == canvas@
            },
        forall|canvas: &mut ActiveCanvas<P, D, A>|
            #[trigger] call_ensures(ActiveCanvas::<P, D, A>::commands_applied, (canvas,), ()) ==> {
                &&& final(canvas)@.publication_base is None
                &&& final(canvas)@.stroke == canvas@.stroke
                &&& final(canvas)@.pending_save == canvas@.pending_save
            },
{
}

/// A drain publishes once: a closed stroke before used sizes and colours.
pub proof fn drains_publish_once<P: Copy, D, A>(
    closed: bool,
    used: bool,
    published: bool,
    revision: u64,
)
    ensures
        forall|canvas: &mut ActiveCanvas<P, D, A>, publication: UsagePublication|
            #[trigger] call_ensures(
                ActiveCanvas::<P, D, A>::publish_drain,
                (canvas, closed, used, revision),
                publication,
            ) ==> {
                &&& publication is ClosedStroke <==> closed
                &&& publication is RecentUsage <==> !closed && used
                &&& publication is RecentUsage ==> final(canvas)@.publication_base is Some
                &&& !(publication is RecentUsage) ==> final(canvas)@ == canvas@
                &&& final(canvas)@.stroke == canvas@.stroke
            },
        forall|canvas: &mut ActiveCanvas<P, D, A>, failure: Option<PublicationFailure>|
            #[trigger] call_ensures(
                ActiveCanvas::<P, D, A>::publish_closed_stroke_dirty,
                (canvas, published, revision),
                failure,
            ) ==> {
                &&& failure is None <==> published
                &&& published ==> final(canvas)@.publication_base is Some
                &&& !published ==> failure == Some(PublicationFailure::ClosedStroke)
                    && final(canvas)@ == canvas@
            },
        forall|canvas: &mut ActiveCanvas<P, D, A>, exhausted: bool, stage: FrameStage|
            #[trigger] call_ensures(
                ActiveCanvas::<P, D, A>::viewport_failed,
                (canvas, exhausted),
                stage,
            ) ==> {
                &&& stage is Skip
                &&& exhausted ==> final(canvas)@.stroke.recovery.fatal
                &&& !exhausted ==> final(canvas)@ == canvas@
            },
{
}

/// A mark is set on its own boundary and leaves the others, but for the end of
/// a viewport that begins again.
pub proof fn marks_are_set_one_by_one(marks: FrameMarks, now: u128)
    ensures
        ({
            let after = marks.marked(FrameMark::Render, now);
            after.render == Some(now) && after.scene_begin == marks.scene_begin && after.present_end
                == marks.present_end && after.viewport_end == marks.viewport_end
        }),
        marks.marked(FrameMark::SceneBegin, now).scene_begin == Some(now),
        marks.marked(FrameMark::SceneEnd, now).scene_end == Some(now),
        marks.marked(FrameMark::SceneEnd, now).scene_begin == marks.scene_begin,
        marks.marked(FrameMark::AcquireBegin, now).acquire_begin == Some(now),
        marks.marked(FrameMark::AcquireEnd, now).acquire_end == Some(now),
        marks.marked(FrameMark::AcquireEnd, now).acquire_begin == marks.acquire_begin,
        marks.marked(FrameMark::PresentBegin, now).present_begin == Some(now),
        marks.marked(FrameMark::PresentBegin, now).present_end == marks.present_end,
        marks.marked(FrameMark::PresentEnd, now).present_end == Some(now),
        marks.marked(FrameMark::PresentEnd, now).present_begin == marks.present_begin,
        marks.marked(FrameMark::ViewportBegin, now).viewport_begin == Some(now),
        marks.marked(FrameMark::ViewportBegin, now).viewport_end is None,
        marks.marked(FrameMark::ViewportEnd, now).viewport_end == Some(now),
        marks.marked(FrameMark::ViewportEnd, now).viewport_begin == marks.viewport_begin,
{
}

/// Marks belong to the open frame; viewports are counted as they begin.
pub proof fn marks_belong_to_the_open_frame(mark: FrameMark, now: u128)
    ensures
        forall|trace: &mut FrameTrace|
            #[trigger] call_ensures(frame_mark, (trace, mark, now), ()) ==> {
                &&& trace@.current is None ==> final(trace)@ == trace@
                &&& trace@.current matches Some(current) ==> final(trace)@.current matches Some(
                    after,
                ) && after.id == current.id && after.marks == current.marks.marked(mark, now) && (
                current.viewport_calls < u64::MAX ==> after.viewport_calls == current.viewport_calls
                    + (if mark is ViewportBegin {
                    1int
                } else {
                    0
                }))
                &&& final(trace)@.samples == trace@.samples
                &&& final(trace)@.totals == trace@.totals
            },
{
}

/// Counters add up field by field.
pub proof fn counters_add_up(a: MaterializedCounters, b: MaterializedCounters)
    ensures
        a.nanos + b.nanos <= u128::MAX ==> a.with(b).nanos == a.nanos + b.nanos,
        a.calls + b.calls <= u64::MAX ==> a.with(b).calls == a.calls + b.calls,
        a.completed + b.completed <= u64::MAX ==> a.with(b).completed == a.completed + b.completed,
        a.cpu_clones + b.cpu_clones <= u64::MAX ==> a.with(b).cpu_clones == a.cpu_clones
            + b.cpu_clones,
        a.cpu_bytes + b.cpu_bytes <= u64::MAX ==> a.with(b).cpu_bytes == a.cpu_bytes + b.cpu_bytes,
        a.upload_attempts + b.upload_attempts <= u64::MAX ==> a.with(b).upload_attempts
            == a.upload_attempts + b.upload_attempts,
        a.upload_successes + b.upload_successes <= u64::MAX ==> a.with(b).upload_successes
            == a.upload_successes + b.upload_successes,
        a.deferred + b.deferred <= u64::MAX ==> a.with(b).deferred == a.deferred + b.deferred,
        a.outside_scene_calls + b.outside_scene_calls <= u64::MAX ==> a.with(
            b,
        ).outside_scene_calls == a.outside_scene_calls + b.outside_scene_calls,
        a.with(b) == b.with(a),
        a.with(MaterializedCounters::zero()) == a,
{
}

/// Each event of an adoption counts once, in its own counter, and only inside a
/// traced frame.
pub proof fn adoptions_count_their_events(trace: MaterializedTrace, bytes: usize)
    requires
        trace.counts.upload_attempts < u64::MAX,
        trace.counts.upload_successes < u64::MAX,
        trace.counts.deferred < u64::MAX,
        trace.counts.cpu_clones < u64::MAX,
        trace.counts.cpu_bytes + bytes <= u64::MAX,
    ensures
        trace.started is None ==> trace.attempting() == trace && trace.succeeding() == trace
            && trace.deferring() == trace && trace.cloning(bytes) == trace,
        trace.started is Some ==> {
            &&& trace.attempting().counts.upload_attempts == trace.counts.upload_attempts + 1
            &&& trace.attempting().counts.upload_successes == trace.counts.upload_successes
            &&& trace.succeeding().counts.upload_successes == trace.counts.upload_successes + 1
            &&& trace.succeeding().counts.upload_attempts == trace.counts.upload_attempts
            &&& trace.deferring().counts.deferred == trace.counts.deferred + 1
            &&& trace.deferring().counts.upload_attempts == trace.counts.upload_attempts
            &&& trace.cloning(bytes).counts.cpu_clones == trace.counts.cpu_clones + 1
            &&& trace.cloning(bytes).counts.cpu_bytes == trace.counts.cpu_bytes + bytes
        },
{
}

/// An adoption counts one call for the frame it began in, outside the scene
/// where that had not begun or was over, and adds its time to that frame alone.
pub proof fn adoptions_belong_to_their_frame(
    trace: FrameTrace,
    now: u128,
    begun: MaterializedTrace,
    later: u128,
)
    requires
        call_ensures(MaterializedTrace::begin, (Some(&trace), now), begun),
    ensures
        begun.started is Some <==> trace.current is Some,
        begun.started matches Some(start) ==> start.at == now && start.frame == trace.current->0.id
            && begun.counts.calls == 1 && (begun.counts.outside_scene_calls == 1
            <==> trace.current->0.marks.scene_begin is None || trace.current->0.marks.scene_end
            is Some),
        forall|frames: &mut FrameTrace|
            #[trigger] call_ensures(MaterializedTrace::finish, (begun, frames, later), ()) ==> {
                &&& (frames@.current is None || begun.started is None || frames@.current->0.id
                    != begun.started->0.frame) ==> final(frames)@ == frames@
                &&& frames@.current is Some && begun.started is Some && frames@.current->0.id
                    == begun.started->0.frame ==> (final(frames)@.current matches Some(after)
                    && after.id == frames@.current->0.id && (frames@.current->0.materialized.calls
                    < u64::MAX ==> after.materialized.calls
                    == frames@.current->0.materialized.calls + begun.counts.calls))
                &&& final(frames)@.samples == frames@.samples
            },
{
}

/// A batch opens a new frame under the next number, with nothing marked yet.
pub proof fn batches_open_frames(trace: Traced, boundary: bool, exporting: bool, now: u128)
    requires
        trace.sequence < u64::MAX,
    ensures
        ({
            let after = trace.batch_begun(boundary, exporting, now);
            &&& after.sequence == trace.sequence + 1
            &&& after.current matches Some(frame) && {
                &&& frame.id == trace.sequence + 1
                &&& frame.wake == now
                &&& frame.marks.render is None && frame.marks.present_end is None
                &&& frame.dequeues == 0
                &&& frame.exporting_at_wake == exporting
                &&& frame.control_boundary == boundary
            }
            &&& after.pending is Some <==> trace.pending is Some
            &&& trace.pending matches Some(pending) ==> after.pending->0.admission
                == pending.admission && (after.pending->0.crossed_control_boundary
                <==> pending.crossed_control_boundary || boundary)
            &&& after.samples == trace.samples
            &&& after.totals == trace.totals
        }),
{
}

/// A closed frame is kept where it, or its input, took at least eight
/// milliseconds, or where it left input unpresented; a presented one has shown
/// its input.
pub proof fn slow_frames_are_kept(trace: Traced, now: u128)
    requires
        trace.current is Some,
        trace.samples.len() < 128,
    ensures
        ({
            let frame = trace.current->0;
            let after = trace.batch_ended(now);
            let shown = frame.marks.present_end;
            let slow = now >= frame.wake + 8_000_000;
            let late = trace.pending matches Some(input) && (match shown {
                Some(end) => end,
                None => now,
            }) >= input.admission + 8_000_000;
            let kept = slow || late || frame.dequeues > 0 && shown is None;
            &&& kept ==> after.samples.len() == trace.samples.len() + 1
                && after.samples.last().id == frame.id && after.samples.last().end == now
                && after.samples.last().input == trace.pending
            &&& !kept ==> after.samples == trace.samples
            &&& after.current is None
            &&& shown is Some ==> after.pending is None
            &&& shown is None ==> after.pending == trace.pending
            &&& trace.totals.presented < u64::MAX && shown is Some ==> after.totals.presented
                == trace.totals.presented + 1
            &&& trace.totals.skipped < u64::MAX && shown is None && frame.marks.render is Some
                ==> after.totals.skipped == trace.totals.skipped + 1
            &&& trace.totals.control_only < u64::MAX && shown is None && frame.marks.render is None
                ==> after.totals.control_only == trace.totals.control_only + 1
        }),
{
}

/// Dequeued input waits from its earliest admission, over as many batches as
/// there were; outside a frame it is only counted.
pub proof fn dequeued_input_waits(trace: Traced, admission: u128, exporting: bool, now: u128)
    ensures
        ({
            let after = trace.dequeued(admission, exporting, now);
            &&& trace.current is None ==> after.pending == trace.pending && (
            trace.totals.unframed_dequeues < u64::MAX ==> after.totals.unframed_dequeues
                == trace.totals.unframed_dequeues + 1)
            &&& trace.current is Some ==> {
                &&& after.pending matches Some(waiting) && {
                    &&& waiting.admission <= admission
                    &&& waiting.last_dequeue == now
                    &&& trace.pending is None ==> waiting.admission == admission
                        && waiting.first_dequeue == now && waiting.batches == 1
                        && waiting.first_batch == trace.current->0.id
                        && waiting.exporting_at_first_dequeue == exporting
                    &&& trace.pending matches Some(earlier) ==> waiting.first_dequeue
                        == earlier.first_dequeue && (waiting.admission == admission
                        || waiting.admission == earlier.admission) && waiting.admission
                        <= earlier.admission && (earlier.batches < u64::MAX ==> waiting.batches
                        == earlier.batches + 1)
                }
                &&& trace.current->0.dequeues < u64::MAX ==> after.current->0.dequeues
                    == trace.current->0.dequeues + 1
                &&& after.totals == trace.totals
            }
        }),
{
}

/// An observation counts once, in the bin that holds it, and moves the ends
/// only where it lies beyond them.
pub proof fn observations_count_once(held: Observations, micros: u64, bin: int)
    requires
        held.bins.len() == 1024,
        0 <= bin < 1024,
        0 <= bin_of(micros as int) < 1024,
        held.count < u64::MAX,
        held.bins[bin_of(micros as int)] < u64::MAX,
    ensures
        held.adding(micros).count == held.count + 1,
        held.adding(micros).bins[bin_of(micros as int)] == held.bins[bin_of(micros as int)] + 1,
        bin != bin_of(micros as int) ==> held.adding(micros).bins[bin] == held.bins[bin],
        held.adding(micros).min <= micros <= held.adding(micros).max,
        held.adding(micros).min == micros || held.adding(micros).min == held.min,
        held.adding(micros).max == micros || held.adding(micros).max == held.max,
        held.adding(micros).min <= held.min,
        held.adding(micros).max >= held.max,
{
}

/// Every stage has a histogram of its own, one for spans that began during an
/// export and one for the others.
pub proof fn stages_are_measured_apart(a: Stage, b: Stage, x: bool, y: bool)
    ensures
        histogram_slot(a, x) == histogram_slot(b, y) <==> a == b && x == y,
        0 <= histogram_slot(a, x) < 40,
{
}

/// A span counts in whole microseconds, rounded up; an end before the start
/// counts as none.
pub proof fn spans_are_rounded_up(from: u128, to: u128)
    ensures
        to <= from ==> elapsed_micros(from, to) == 0 && ceil_micros(from, to) == 0,
        to > from && to - from <= 1_000_000_000_000_000_000 ==> elapsed_micros(from, to) * 1000 >= to
            - from && elapsed_micros(from, to) * 1000 < to - from + 1000,
        to > from ==> ceil_micros(from, to) * 1000 >= to - from && ceil_micros(from, to) * 1000 < to
            - from + 1000,
{
}

/// A recorded span goes into the histogram of its stage and no other.
pub proof fn spans_go_to_their_stage(
    recorded: Recorded,
    stage: Stage,
    micros: u64,
    exporting: bool,
    slot: int,
)
    requires
        recorded.histograms.len() == 40,
        0 <= slot < 40,
    ensures
        slot == histogram_slot(stage, exporting) ==> recorded.recording(
            stage,
            micros,
            exporting,
        ).histograms[slot] == recorded.histograms[slot].adding(micros),
        slot != histogram_slot(stage, exporting) ==> recorded.recording(
            stage,
            micros,
            exporting,
        ).histograms[slot] == recorded.histograms[slot],
        recorded.recording(stage, micros, exporting).history_samples == recorded.history_samples,
        recorded.recording(stage, micros, exporting).pending_input == recorded.pending_input,
{
    stages_are_measured_apart(stage, stage, exporting, exporting);
}

/// A span that began while measuring is on is recorded for the stage and the
/// export it began with.
pub proof fn finished_spans_are_recorded(
    measuring: Performance,
    stage: Stage,
    begun: u128,
    span: Span,
    now: u128,
)
    requires
        call_ensures(Span::new, (&measuring, stage, begun), span),
    ensures
        span.start is Some <==> measuring.enabled,
        span.start matches Some(start) ==> start.at == begun && start.stage == stage
            && start.exporting == measuring.exporting,
        forall|performance: &mut Performance|
            #[trigger] call_ensures(Span::finish, (span, performance, now), ()) ==> {
                &&& !measuring.enabled ==> *final(performance) == *performance
                &&& measuring.enabled ==> final(performance).recorded()
                    == performance.recorded().recording(
                    stage,
                    elapsed_micros(begun, now),
                    measuring.exporting,
                )
            },
{
}

/// The export shows in what is measured from its beginning to its end.
pub proof fn exports_show_in_measurements(interval: ExportInterval)
    ensures
        forall|performance: &mut Performance, entered: ExportInterval|
            #[trigger] call_ensures(ExportInterval::enter, (performance,), entered) ==> {
                &&& performance.enabled ==> final(performance).exporting
                &&& !performance.enabled ==> final(performance).exporting == performance.exporting
                &&& final(performance).enabled == performance.enabled
            },
        forall|performance: &mut Performance|
            #[trigger] call_ensures(ExportInterval::leave, (interval, performance), ())
                ==> !final(performance).exporting && final(performance).enabled
                == performance.enabled,
{
}

/// A sample of the history is kept while there is room, in order; later ones
/// are counted.
pub proof fn history_samples_are_kept(recorded: Recorded, kept: HistorySample)
    ensures
        recorded.history_samples.len() < 64 ==> recorded.keeping_sample(kept).history_samples
            == recorded.history_samples.push(kept) && recorded.keeping_sample(
            kept,
        ).history_samples_omitted == recorded.history_samples_omitted,
        recorded.history_samples.len() >= 64 ==> recorded.keeping_sample(kept).history_samples
            == recorded.history_samples && (recorded.history_samples_omitted < u64::MAX
            ==> recorded.keeping_sample(kept).history_samples_omitted
            == recorded.history_samples_omitted + 1),
{
}

/// The first input after a present waits for the next one and is measured with
/// it, from its own admission.
pub proof fn waiting_input_is_measured(at: u128, now: u128)
    ensures
        forall|performance: &mut Performance|
            #[trigger] call_ensures(input_dequeued, (performance, Some(at), now), ()) ==> {
                &&& final(performance).recorded().pending_input is Some
                &&& performance.recorded().pending_input is Some ==> final(performance).recorded().pending_input == performance.recorded().pending_input
                &&& performance.recorded().pending_input is None ==> final(performance).recorded().pending_input->0.at == at
            },
        forall|performance: &mut Performance|
            #[trigger] call_ensures(presented, (performance, now), ()) && performance.enabled
                ==> final(performance).recorded().pending_input is None,
{
}

/// The times of a move through the history are those between its boundaries.
pub proof fn history_lines_show_every_step(moved: HistorySample)
    ensures
        ({
            let line = history_line(moved);
            let at = moved.worker.boundaries@;
            &&& line.sequence == moved.sequence
            &&& line.exporting == moved.exporting
            &&& line.worker_before_admission <==> at[0] < moved.admission
            &&& at[0] <= at[1] ==> line.prepare * 1000 >= at[1] - at[0] && line.prepare * 1000
                < at[1] - at[0] + 1000
            &&& at[1] <= at[2] ==> line.tile_load * 1000 >= at[2] - at[1] && line.tile_load * 1000
                < at[2] - at[1] + 1000
            &&& at[2] <= at[3] ==> line.metadata * 1000 >= at[3] - at[2] && line.metadata * 1000
                < at[3] - at[2] + 1000
            &&& at[3] <= at[4] ==> line.persist * 1000 >= at[4] - at[3] && line.persist * 1000
                < at[4] - at[3] + 1000
            &&& at[4] <= at[5] ==> line.session_accept * 1000 >= at[5] - at[4]
                && line.session_accept * 1000 < at[5] - at[4] + 1000
            &&& at[5] <= at[6] ==> line.preview_reply * 1000 >= at[6] - at[5] && line.preview_reply
                * 1000 < at[6] - at[5] + 1000
            &&& at[0] <= at[6] ==> line.worker_total * 1000 >= at[6] - at[0] && line.worker_total
                * 1000 < at[6] - at[0] + 1000
            &&& at[6] <= moved.received ==> line.reply_wait * 1000 >= moved.received - at[6]
                && line.reply_wait * 1000 < moved.received - at[6] + 1000
            &&& moved.received <= moved.adopted ==> line.adoption_publish * 1000 >= moved.adopted
                - moved.received && line.adoption_publish * 1000 < moved.adopted - moved.received
                + 1000
            &&& moved.adopted <= moved.presented ==> line.after_adoption * 1000 >= moved.presented
                - moved.adopted && line.after_adoption * 1000 < moved.presented - moved.adopted
                + 1000
            &&& moved.admission <= moved.presented ==> line.total * 1000 >= moved.presented
                - moved.admission && line.total * 1000 < moved.presented - moved.admission + 1000
            &&& moved.admission <= at[0] ==> line.queue_wait * 1000 >= at[0] - moved.admission
                && line.queue_wait * 1000 < at[0] - moved.admission + 1000
        }),
{
    assert(moved.worker.boundaries@.len() == 7);
}

/// A frame's status tells whether it was presented, only rendered, or neither;
/// offsets count from its wake, backwards too.
pub proof fn frame_lines_count_from_the_wake(frame: FrameSample, wake: u128, at: u128)
    ensures
        frame_status(frame) is PresentReturned <==> frame.marks.present_end is Some,
        frame_status(frame) is RenderWithoutPresent <==> frame.marks.present_end is None
            && frame.marks.render is Some,
        at >= wake ==> offset_micros(wake, at) * 1000 <= at - wake && offset_micros(wake, at) * 1000
            > at - wake - 1000,
        offset_micros(wake, at) == -offset_micros(at, wake),
{
}

/// A mark of the worker sets its own boundary.
pub proof fn worker_marks_set_their_boundary(
    step: HistoryWorkerStep,
    now: u128,
    timing: HistoryWorkerTiming,
    other: int,
)
    requires
        0 <= other < 7,
        other != step.number(),
    ensures
        forall|held: &mut Option<HistoryWorkerTiming>|
            *held == Some(timing) && #[trigger] call_ensures(
                HistoryWorkerTiming::mark,
                (held, step, now),
                (),
            ) ==> (*final(held) matches Some(after) && after.boundaries@[step.number()] == now
                && after.boundaries@[other] == timing.boundaries@[other]),
{
    assert(timing.boundaries@.len() == 7);
}

/// A probe starts once, only while measuring and only on a marked scratch
/// document of the workload's page.
pub proof fn probes_start_on_scratch(facts: ProbeFacts, started: Option<Scenario>)
    requires
        call_ensures(start, (facts,), started),
    ensures
        started is Some ==> facts.measuring && facts.scratch_name && facts.scratch_mark
            && !facts.used && started == facts.scenario,
        facts.scenario is Some && facts.measuring && facts.scratch_name && facts.scratch_mark
            && !facts.used && facts.canvas.width_px == 3840 && facts.canvas.height_px == 2160
            && facts.canvas.pixels_per_inch == 96 ==> started is Some,
{
}

/// A condition is waited for until it holds, the probe fails, or its time is
/// over.
pub proof fn probes_wait_in_time(
    health: Result<(), ProbeError>,
    ready: bool,
    elapsed: u128,
    limit: u128,
    timeout: ProbeError,
)
    ensures
        health is Err ==> waited(health, ready, elapsed, limit, timeout) == Err::<bool, _>(
            health->Err_0,
        ),
        health is Ok && ready ==> waited(health, ready, elapsed, limit, timeout) == Ok::<
            _,
            ProbeError,
        >(true),
        health is Ok && !ready && elapsed <= limit ==> waited(
            health,
            ready,
            elapsed,
            limit,
            timeout,
        ) == Ok::<_, ProbeError>(false),
        health is Ok && !ready && elapsed > limit ==> waited(
            health,
            ready,
            elapsed,
            limit,
            timeout,
        ) == Err::<bool, _>(timeout),
{
}

/// A save that was asked for is ready when a newer export runs or is done.
pub proof fn newer_exports_make_saves_ready(
    status: ExportStatus,
    old_generation: u64,
    wait_for_start: bool,
    ready: bool,
)
    requires
        call_ensures(save, (status, old_generation, wait_for_start), ready),
    ensures
        ready && wait_for_start ==> status is Running,
        ready && !wait_for_start ==> status is Current,
        (status matches ExportStatus::Running { generation } && generation > old_generation)
            && wait_for_start ==> ready,
        (status matches ExportStatus::Current { generation } && generation > old_generation)
            && !wait_for_start ==> ready,
        (status matches ExportStatus::Running { generation } && generation <= old_generation)
            ==> !ready,
        (status matches ExportStatus::Current { generation } && generation <= old_generation)
            ==> !ready,
{
}

/// A run draws every stroke of the workload in turn, each after a save where it
/// measures exports, and saves at the end.
pub proof fn runs_draw_every_stroke(stroke: u32, scenario: Scenario)
    requires
        stroke < 32,
    ensures
        scenario is Export ==> begun_stroke(stroke, scenario) == RunStage::SaveBeforeStroke(stroke),
        scenario is Baseline ==> begun_stroke(stroke, scenario) == RunStage::Stroke(stroke),
        RunStage::SaveBeforeStroke(stroke).followed_by(scenario) == RunStage::Stroke(stroke),
        RunStage::Stroke(stroke).followed_by(scenario) == RunStage::AwaitHistory(stroke),
        stroke < 31 ==> RunStage::AwaitHistory(stroke).followed_by(scenario) == begun_stroke(
            (stroke + 1) as u32,
            scenario,
        ),
        RunStage::AwaitHistory(31).followed_by(scenario) is FinalSave,
        RunStage::FinalSave.followed_by(scenario) is Done,
        RunStage::SetColor.followed_by(scenario) == begun_stroke(0, scenario),
        RunStage::CheckFresh.followed_by(scenario) is SelectBrush,
        RunStage::SelectBrush.followed_by(scenario) is SetSize,
        RunStage::SetSize.followed_by(scenario) is SetOpacity,
        RunStage::SetOpacity.followed_by(scenario) is SetColor,
{
}

/// The workload moves each stroke to the right at an even pace, from a begin to
/// an end.
pub proof fn workloads_move_evenly(
    stroke: u32,
    index: u32,
    here: StylusSample<ProbeReading>,
    next: StylusSample<ProbeReading>,
)
    requires
        index < 120,
        stroke < 32,
        call_ensures(sample, (stroke, index), here),
        call_ensures(sample, (stroke, (index + 1) as u32), next),
    ensures
        next.sequence == here.sequence + 1,
        next.timestamp_ns > here.timestamp_ns,
        next.timestamp_ns - here.timestamp_ns == 4_166_667,
        next.reading.x - here.reading.x == 28,
        next.reading.y == here.reading.y,
        here.phase is Begin <==> index == 0,
        next.phase is End <==> index == 119,
        next.device_id == here.device_id,
{
}

} // verus!
