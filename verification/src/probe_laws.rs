//! What the scripted probes ask for: their samples, their commands and the
//! order in which they come.
use vstd::prelude::*;

use crate::decimal::decimal;
use crate::document::{GroupId, LayerId, LayerTreeNodeId};
use crate::drawing::DrawingTool;
use crate::editor_command::{EditorCommand, HistoryCommand};
use crate::frame_trace::FrameSample;
use crate::input::{PointerPhase, StylusSample};
use crate::layer_command::LayerCommand;
use crate::performance::{HistoryTiming, Performance};
use crate::performance_report::FrameLine;
use crate::probes::{
    advance_history_probe, advance_input_safety_probe_after_drain, advance_protocol_probe,
    advance_save_probe, edit_probe_step, enqueue_synthetic_durability_probe, export_probe_boundary,
    input_probe_sample, lasso_sample, numbered, placed_probe_sample, safety_sample, EditProbe,
    EditProbeFacts, EditProbeStep, ExportProbeFacts, HistoryProbe, HistoryProbeStep, ProbeReading,
    ProtocolProbeStep, SaveProbeStep,
};

verus! {

/// A scripted sample carries its number, its phase and its place; its time
/// rises with its number.
pub proof fn scripted_samples_carry_their_number(
    sequence: u64,
    phase: PointerPhase,
    x: u32,
    y: u32,
    revision: u64,
    plain: StylusSample<ProbeReading>,
    placed: StylusSample<ProbeReading>,
)
    requires
        sequence < 1_000_000_000_000,
        call_ensures(input_probe_sample, (sequence, phase), plain),
        call_ensures(placed_probe_sample, (sequence, phase, x, y, revision), placed),
    ensures
        plain.sequence == sequence && placed.sequence == sequence,
        plain.phase == phase && placed.phase == phase,
        plain.timestamp_ns == sequence * 1_000_000 && placed.timestamp_ns == plain.timestamp_ns,
        placed.reading.x == x && placed.reading.y == y,
        placed.viewport_revision == revision,
        256 <= plain.reading.x < 320 && plain.reading.y == 256,
        (plain.reading.x - 256 - sequence) % 64 == 0,
        plain.reading.pressure_hundredths == 75 && placed.reading.pressure_hundredths == 75,
        !plain.eraser && !placed.eraser,
        plain.device_id == placed.device_id,
{
}

/// The number behind a prefix is the number that was written there.
pub proof fn numbers_are_read_behind_their_prefix(prefix: Seq<char>, value: u128)
    ensures
        numbered(prefix + decimal(value as nat), prefix) == Some(value as int),
{
    crate::decimal::decimal_round_trip(value as nat);
    let text = prefix + decimal(value as nat);
    assert(prefix.is_prefix_of(text));
    assert(text.skip(prefix.len() as int) =~= decimal(value as nat));
}

/// A history probe asks for the command it names, on the node it names.
pub proof fn history_probes_ask_for_their_command(
    id: u128,
    raster: EditorCommand,
    group: EditorCommand,
    redo: EditorCommand,
    undo: EditorCommand,
    page: EditorCommand,
)
    requires
        call_ensures(HistoryProbe::command, (HistoryProbe::DeleteRaster(id),), raster),
        call_ensures(HistoryProbe::command, (HistoryProbe::DeleteGroup(id),), group),
        call_ensures(HistoryProbe::command, (HistoryProbe::RedoTo(id),), redo),
        call_ensures(HistoryProbe::command, (HistoryProbe::Undo,), undo),
        call_ensures(HistoryProbe::command, (HistoryProbe::PageAfter(id),), page),
    ensures
        raster == EditorCommand::Layer(LayerCommand::Delete(LayerTreeNodeId::Raster(LayerId(id)))),
        group == EditorCommand::Layer(LayerCommand::Delete(LayerTreeNodeId::Group(GroupId(id)))),
        redo == EditorCommand::History(HistoryCommand::RedoTo(id)),
        undo == EditorCommand::History(HistoryCommand::Undo),
        page == EditorCommand::History(HistoryCommand::ShowRedoBranches { after: Some(id) }),
{
}

/// A probe submits once, waits while the canvas is busy, and reports after its
/// command.
pub proof fn history_probes_submit_once(
    submitted: Option<bool>,
    busy: bool,
    step: HistoryProbeStep,
)
    requires
        call_ensures(advance_history_probe, (submitted, busy), step),
    ensures
        step is Submit <==> !busy && submitted is Some && !submitted->0,
        step is Report <==> !busy && submitted is Some && submitted->0,
{
}

/// The protocol probe goes through its commands, submits only the last of them
/// on an outdated revision, and then reports.
pub proof fn protocol_probes_go_in_order(
    step: u8,
    busy: bool,
    asked: ProtocolProbeStep,
    idle: ProtocolProbeStep,
)
    requires
        call_ensures(advance_protocol_probe, (Some(step), busy), asked),
        call_ensures(advance_protocol_probe, (None::<u8>, busy), idle),
    ensures
        idle is Nothing,
        busy ==> asked is Nothing,
        !busy ==> (asked is Submit <==> step < 8),
        !busy ==> (asked is Report <==> step == 8),
        asked matches ProtocolProbeStep::Submit { stale, command } ==> (stale <==> step == 7),
        !busy && step == 3 ==> (asked matches ProtocolProbeStep::Submit { stale, command }
            && command is AddRaster),
        !busy && step == 4 ==> (asked matches ProtocolProbeStep::Submit { stale, command }
            && command is AddGroup),
{
}

/// The lasso probe draws one contact: it begins once, ends once, and numbers
/// its samples without a gap; each probe acts only where its facts allow it.
pub proof fn edit_probes_act_on_their_facts(kind: EditProbe, step: u8, facts: EditProbeFacts)
    ensures
        1 <= step <= 5 ==> (lasso_sample(step) matches EditProbeStep::Sample {
            sequence,
            phase,
            x,
            y,
        } && sequence == 10_000 + step && (phase is Begin <==> step == 1) && (phase is End <==> step
            == 5) && !(phase is Cancel)),
        !(1 <= step <= 5) ==> lasso_sample(step) is Nothing,
        step == 0 ==> match kind {
            EditProbe::CloseNativeFill => edit_probe_step(kind, step, facts)
                == EditProbeStep::SelectTool(DrawingTool::Fill),
            EditProbe::LassoGuide => edit_probe_step(kind, step, facts)
                == EditProbeStep::SelectTool(DrawingTool::Lasso),
            EditProbe::SelectedBrush => edit_probe_step(kind, step, facts) is SelectLasso,
            EditProbe::WandAndFill => edit_probe_step(kind, step, facts) is SelectWand,
        },
        edit_probe_step(EditProbe::CloseNativeFill, step, facts) is Tap <==> step == 1 && facts.tool
            is Fill,
        edit_probe_step(EditProbe::LassoGuide, step, facts) is Sample <==> facts.tool is Lasso && 1
            <= step <= 5 && (step == 5 ==> facts.released),
        edit_probe_step(EditProbe::SelectedBrush, step, facts) is Finish <==> step > 0
            && !facts.busy && facts.has_selection,
        edit_probe_step(EditProbe::WandAndFill, step, facts) is FillSelection <==> step == 1
            && !facts.busy && facts.has_selection,
        edit_probe_step(EditProbe::WandAndFill, step, facts) is SaveWhileBusy <==> step == 2
            && facts.busy,
        edit_probe_step(EditProbe::WandAndFill, step, facts) is Finish <==> step == 3
            && facts.save_pending && facts.busy,
{
}

/// The save probe saves twice and then ends its stroke only while a save waits
/// for it.
pub proof fn save_probes_end_their_stroke(
    step: u8,
    ends: bool,
    pending: bool,
    asked: SaveProbeStep,
)
    requires
        call_ensures(advance_save_probe, (step, ends, pending), asked),
    ensures
        asked is Save <==> step < 2,
        asked is EndStroke <==> step == 2 && ends && pending,
{
}

/// The safety probe fills both lanes, begins with the last sample that they
/// keep, and then recovers with a whole contact.
pub proof fn safety_probes_recover(capacity: u64, sequence: u64, offset: u8, phase: Option<PointerPhase>)
    requires
        call_ensures(advance_input_safety_probe_after_drain, (offset,), phase),
        capacity <= 0x7fff_ffff_ffff_fff0,
    ensures
        safety_sample(capacity, sequence) is Some <==> sequence <= 2 * capacity + 3,
        safety_sample(capacity, sequence) matches Some(sample) ==> sample.sequence == sequence && (
        sample.phase is Begin <==> sequence == 2 * capacity),
        phase is Some <==> offset < 5,
        offset == 2 <==> phase == Some(PointerPhase::Begin),
        offset == 1 || offset == 4 <==> phase == Some(PointerPhase::End),
{
}

/// The durability probe numbers three samples for each stroke without a gap and
/// erases with the last eight strokes.
pub proof fn durability_probes_number_their_samples(
    stroke: u64,
    part: u8,
    sample: StylusSample<ProbeReading>,
)
    requires
        stroke < 32,
        part < 3,
        call_ensures(enqueue_synthetic_durability_probe, (stroke, part), sample),
    ensures
        sample.sequence == 3 * stroke + part + 1,
        sample.phase is Begin <==> part == 0,
        sample.phase is End <==> part == 2,
        sample.eraser <==> stroke >= 24,
        sample.timestamp_ns == sample.sequence * 1_000_000,
{
}

/// An export is paused for a harness only where everything speaks for it.
pub proof fn exports_pause_only_for_a_harness(facts: ExportProbeFacts, pauses: bool)
    requires
        call_ensures(export_probe_boundary, (facts,), pauses),
    ensures
        pauses <==> facts.stage_named && facts.directory_known && facts.below_temporary
            && facts.holds_export && facts.marked_scratch,
{
}

/// The line of a frame shows each of its marks as the offset from its wake, and
/// what became of it.
pub proof fn frame_lines_show_their_marks(frame: FrameSample, line: FrameLine)
    requires
        call_ensures(FrameSample::line, (&frame,), line),
    ensures
        line.status is PresentReturned <==> frame.marks.present_end is Some,
        line.status is ControlOnly <==> frame.marks.present_end is None && frame.marks.render
            is None,
        line.render is Some <==> frame.marks.render is Some,
        line.scene_begin is Some <==> frame.marks.scene_begin is Some,
        line.scene_end is Some <==> frame.marks.scene_end is Some,
        line.acquire_begin is Some <==> frame.marks.acquire_begin is Some,
        line.acquire_end is Some <==> frame.marks.acquire_end is Some,
        line.present_begin is Some <==> frame.marks.present_begin is Some,
        line.present_end is Some <==> frame.marks.present_end is Some,
        line.viewport_begin is Some <==> frame.marks.viewport_begin is Some,
        line.viewport_end is Some <==> frame.marks.viewport_end is Some,
        line.admission is Some <==> frame.input is Some,
        frame.marks.render == Some(frame.wake) ==> line.render == Some(0i128),
        frame.end >= frame.wake ==> line.end * 1000 <= frame.end - frame.wake && line.end * 1000
            > frame.end - frame.wake - 1000,
        line.materialized_micros * 1000 <= frame.materialized.nanos,
        (line.materialized_micros + 1) * 1000 > frame.materialized.nanos,
        line.admission_to_present is Some <==> frame.input is Some && frame.marks.present_end
            is Some,
{
}

/// A queued move through the history is numbered and timed while measuring is
/// on, and not at all otherwise.
pub proof fn queued_moves_are_timed(now: u128)
    ensures
        forall|performance: &mut Performance, timing: Option<HistoryTiming>|
            #[trigger] call_ensures(HistoryTiming::queued, (performance, now), timing) ==> {
                &&& timing is Some <==> performance.enabled
                &&& timing matches Some(begun) ==> begun.at == now && begun.exporting
                    == performance.exporting && begun.adopted is None && begun.received is None && (
                performance.recorded().history_queued < u64::MAX ==> begun.sequence
                    == performance.recorded().history_queued + 1)
                &&& !performance.enabled ==> *final(performance) == *performance
            },
{
}

} // verus!
