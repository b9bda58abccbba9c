//! Scripted input and commands for acceptance runs on scratch documents.
use vstd::prelude::*;

use crate::decimal::parse_decimal;
use crate::document::{GroupId, LayerId, LayerTreeNodeId};
use crate::drawing::DrawingTool;
use crate::editor_command::{EditorCommand, HistoryCommand};
use crate::input::{PointerPhase, StylusSample};
use crate::layer_command::LayerCommand;
use crate::layer_tree::{INK_GROUP, ROOT_GROUP};
use crate::text::{is_word, strip_prefix};

verus! {

/// The command that a history probe asks for.
#[derive(Clone, Copy, Debug, PartialEq, Eq, Structural)]
pub enum HistoryProbe {
    Reference,
    Rename,
    Opacity,
    Reorder,
    DeleteRaster(u128),
    DeleteGroup(u128),
    Undo,
    Redo,
    Page,
    RedoTo(u128),
    PageAfter(u128),
}

/// A number behind a prefix.
pub open spec fn numbered(text: Seq<char>, prefix: Seq<char>) -> Option<int> {
    match crate::text::behind(text, prefix) {
        Some(rest) => crate::decimal::parsed(rest, u128::MAX as int),
        None => None,
    }
}

fn number_behind(text: &str, prefix: &str) -> (r: Option<u128>)
    ensures
        match numbered(text@, prefix@) {
            Some(value) => r matches Some(found) && found == value,
            None => r is None,
        },
{
    match strip_prefix(text, prefix) {
        Some(rest) => parse_decimal(rest, u128::MAX),
        None => None,
    }
}

pub open spec fn history_probe(text: Seq<char>) -> Option<HistoryProbe> {
    if text == "reference-r:1"@ {
        Some(HistoryProbe::Reference)
    } else if text == "rename-r:1"@ {
        Some(HistoryProbe::Rename)
    } else if text == "opacity-g:10"@ {
        Some(HistoryProbe::Opacity)
    } else if text == "reorder-r:1"@ {
        Some(HistoryProbe::Reorder)
    } else if numbered(text, "delete-r:"@) is Some {
        Some(HistoryProbe::DeleteRaster(numbered(text, "delete-r:"@)->0 as u128))
    } else if numbered(text, "delete-g:"@) is Some {
        Some(HistoryProbe::DeleteGroup(numbered(text, "delete-g:"@)->0 as u128))
    } else if text == "undo"@ {
        Some(HistoryProbe::Undo)
    } else if text == "redo"@ {
        Some(HistoryProbe::Redo)
    } else if text == "page"@ {
        Some(HistoryProbe::Page)
    } else if numbered(text, "redo:"@) is Some {
        Some(HistoryProbe::RedoTo(numbered(text, "redo:"@)->0 as u128))
    } else if numbered(text, "page:"@) is Some {
        Some(HistoryProbe::PageAfter(numbered(text, "page:"@)->0 as u128))
    } else {
        None
    }
}

/// What the text of a history probe asks for.
pub fn parse_history_probe(text: &str) -> (r: Option<HistoryProbe>)
    ensures
        r == history_probe(text@),
{
    if is_word(text, "reference-r:1") {
        return Some(HistoryProbe::Reference);
    }
    if is_word(text, "rename-r:1") {
        return Some(HistoryProbe::Rename);
    }
    if is_word(text, "opacity-g:10") {
        return Some(HistoryProbe::Opacity);
    }
    if is_word(text, "reorder-r:1") {
        return Some(HistoryProbe::Reorder);
    }
    if let Some(id) = number_behind(text, "delete-r:") {
        return Some(HistoryProbe::DeleteRaster(id));
    }
    if let Some(id) = number_behind(text, "delete-g:") {
        return Some(HistoryProbe::DeleteGroup(id));
    }
    if is_word(text, "undo") {
        return Some(HistoryProbe::Undo);
    }
    if is_word(text, "redo") {
        return Some(HistoryProbe::Redo);
    }
    if is_word(text, "page") {
        return Some(HistoryProbe::Page);
    }
    if let Some(id) = number_behind(text, "redo:") {
        return Some(HistoryProbe::RedoTo(id));
    }
    if let Some(id) = number_behind(text, "page:") {
        return Some(HistoryProbe::PageAfter(id));
    }
    None
}

/// The command stands for the probe.
pub open spec fn probes(command: EditorCommand, probe: HistoryProbe) -> bool {
    let first = LayerTreeNodeId::Raster(LayerId(1));
    match probe {
        HistoryProbe::Reference => command == EditorCommand::Layer(
            LayerCommand::SetReference { layer: LayerId(1), reference: true },
        ),
        HistoryProbe::Rename => command matches EditorCommand::Layer(
            LayerCommand::Rename { node, name },
        ) && node == first && name@ == "Renamed layer"@,
        HistoryProbe::Opacity => command == EditorCommand::Layer(
            LayerCommand::SetOpacity {
                node: LayerTreeNodeId::Group(GroupId(INK_GROUP)),
                opacity_u16: 32_768,
            },
        ),
        HistoryProbe::Reorder => command == EditorCommand::Layer(
            LayerCommand::Reorder { node: first, new_parent: GroupId(ROOT_GROUP), index: 0 },
        ),
        HistoryProbe::DeleteRaster(id) => command == EditorCommand::Layer(
            LayerCommand::Delete(LayerTreeNodeId::Raster(LayerId(id))),
        ),
        HistoryProbe::DeleteGroup(id) => command == EditorCommand::Layer(
            LayerCommand::Delete(LayerTreeNodeId::Group(GroupId(id))),
        ),
        HistoryProbe::Undo => command == EditorCommand::History(HistoryCommand::Undo),
        HistoryProbe::Redo => command == EditorCommand::History(HistoryCommand::Redo),
        HistoryProbe::Page => command == EditorCommand::History(
            HistoryCommand::ShowRedoBranches { after: None },
        ),
        HistoryProbe::RedoTo(id) => command == EditorCommand::History(HistoryCommand::RedoTo(id)),
        HistoryProbe::PageAfter(id) => command == EditorCommand::History(
            HistoryCommand::ShowRedoBranches { after: Some(id) },
        ),
    }
}

impl HistoryProbe {
    pub fn command(self) -> (r: EditorCommand)
        ensures
            probes(r, self),
    {
        let first = LayerTreeNodeId::Raster(LayerId(1));
        match self {
            HistoryProbe::Reference => EditorCommand::Layer(
                LayerCommand::SetReference { layer: LayerId(1), reference: true },
            ),
            HistoryProbe::Rename => EditorCommand::Layer(
                LayerCommand::Rename { node: first, name: "Renamed layer".to_owned() },
            ),
            HistoryProbe::Opacity => EditorCommand::Layer(
                LayerCommand::SetOpacity {
                    node: LayerTreeNodeId::Group(GroupId(INK_GROUP)),
                    opacity_u16: 32_768,
                },
            ),
            HistoryProbe::Reorder => EditorCommand::Layer(
                LayerCommand::Reorder { node: first, new_parent: GroupId(ROOT_GROUP), index: 0 },
            ),
            HistoryProbe::DeleteRaster(id) => EditorCommand::Layer(
                LayerCommand::Delete(LayerTreeNodeId::Raster(LayerId(id))),
            ),
            HistoryProbe::DeleteGroup(id) => EditorCommand::Layer(
                LayerCommand::Delete(LayerTreeNodeId::Group(GroupId(id))),
            ),
            HistoryProbe::Undo => EditorCommand::History(HistoryCommand::Undo),
            HistoryProbe::Redo => EditorCommand::History(HistoryCommand::Redo),
            HistoryProbe::Page => EditorCommand::History(
                HistoryCommand::ShowRedoBranches { after: None },
            ),
            HistoryProbe::RedoTo(id) => EditorCommand::History(HistoryCommand::RedoTo(id)),
            HistoryProbe::PageAfter(id) => EditorCommand::History(
                HistoryCommand::ShowRedoBranches { after: Some(id) },
            ),
        }
    }
}

/// The command that a configured history probe stands for.
pub fn history_probe_command(value: Option<&str>) -> (r: Option<EditorCommand>)
    ensures
        match value {
            None => r is None,
            Some(text) => match history_probe(text@) {
                Some(probe) => r matches Some(command) && probes(command, probe),
                None => r is None,
            },
        },
{
    match value {
        None => None,
        Some(text) => match parse_history_probe(text) {
            Some(probe) => Some(probe.command()),
            None => None,
        },
    }
}

/// What the history probe does in this frame.
#[derive(Clone, Copy, Debug, PartialEq, Eq, Structural)]
pub enum HistoryProbeStep {
    Nothing,
    Submit,
    Report,
}

/// The history probe submits its command once and reports after it.
pub fn advance_history_probe(submitted: Option<bool>, busy: bool) -> (r: HistoryProbeStep)
    ensures
        r == (if busy || submitted is None {
            HistoryProbeStep::Nothing
        } else if submitted == Some(true) {
            HistoryProbeStep::Report
        } else {
            HistoryProbeStep::Submit
        }),
{
    if busy {
        return HistoryProbeStep::Nothing;
    }
    match submitted {
        None => HistoryProbeStep::Nothing,
        Some(true) => HistoryProbeStep::Report,
        Some(false) => HistoryProbeStep::Submit,
    }
}

/// A step of the protocol probe.
pub enum ProtocolProbeStep {
    Nothing,
    /// Submit the command, on an outdated revision where `stale`.
    Submit { stale: bool, command: LayerCommand },
    /// The probe is complete.
    Report,
}

pub open spec fn protocol_step(step: u8, r: ProtocolProbeStep) -> bool {
    let ink = LayerTreeNodeId::Group(GroupId(INK_GROUP));
    let added = LayerTreeNodeId::Raster(LayerId(101));
    match step {
        0 => r == (ProtocolProbeStep::Submit {
            stale: false,
            command: LayerCommand::SetVisibility { node: ink, visible: false },
        }),
        1 => r == (ProtocolProbeStep::Submit {
            stale: false,
            command: LayerCommand::SetOpacity { node: ink, opacity_u16: 58_000 },
        }),
        2 => r == (ProtocolProbeStep::Submit {
            stale: false,
            command: LayerCommand::Reorder {
                node: ink,
                new_parent: GroupId(ROOT_GROUP),
                index: 0,
            },
        }),
        3 => r == (ProtocolProbeStep::Submit { stale: false, command: LayerCommand::AddRaster }),
        4 => r == (ProtocolProbeStep::Submit { stale: false, command: LayerCommand::AddGroup }),
        5 => r matches ProtocolProbeStep::Submit {
            stale: false,
            command: LayerCommand::Rename { node, name },
        } && node == added && name@ == "Character"@,
        6 => r == (ProtocolProbeStep::Submit {
            stale: false,
            command: LayerCommand::ToggleSolo(added),
        }),
        7 => r == (ProtocolProbeStep::Submit {
            stale: true,
            command: LayerCommand::SetVisibility { node: ink, visible: true },
        }),
        8 => r is Report,
        _ => r is Nothing,
    }
}

/// The protocol probe goes through the layer commands, the last one on an
/// outdated revision.
pub fn advance_protocol_probe(step: Option<u8>, busy: bool) -> (r: ProtocolProbeStep)
    ensures
        busy || step is None ==> r is Nothing,
        !busy && step is Some ==> protocol_step(step->0, r),
{
    let ink = LayerTreeNodeId::Group(GroupId(INK_GROUP));
    let added = LayerTreeNodeId::Raster(LayerId(101));
    if busy {
        return ProtocolProbeStep::Nothing;
    }
    let step: u8 = match step {
        None => {
            return ProtocolProbeStep::Nothing;
        },
        Some(step) => step,
    };
    let command = match step {
        0 => LayerCommand::SetVisibility { node: ink, visible: false },
        1 => LayerCommand::SetOpacity { node: ink, opacity_u16: 58_000 },
        2 => LayerCommand::Reorder { node: ink, new_parent: GroupId(ROOT_GROUP), index: 0 },
        3 => LayerCommand::AddRaster,
        4 => LayerCommand::AddGroup,
        5 => LayerCommand::Rename { node: added, name: "Character".to_owned() },
        6 => LayerCommand::ToggleSolo(added),
        7 => LayerCommand::SetVisibility { node: ink, visible: true },
        8 => {
            return ProtocolProbeStep::Report;
        },
        _ => {
            return ProtocolProbeStep::Nothing;
        },
    };
    ProtocolProbeStep::Submit { stale: step == 7, command }
}

/// What a scripted pen reads: a position in whole pixels and its pressure in
/// hundredths. It has no tilt, no twist, no tangential pressure and no button
/// held.
#[derive(Clone, Copy, Debug, PartialEq, Eq, Structural)]
pub struct ProbeReading {
    pub x: u32,
    pub y: u32,
    pub pressure_hundredths: u8,
}

/// The pressure of every probe, in hundredths.
pub const PROBE_PRESSURE: u8 = 75;

pub open spec fn scripted(
    sequence: u64,
    phase: PointerPhase,
    reading: ProbeReading,
) -> StylusSample<ProbeReading> {
    StylusSample {
        sequence,
        timestamp_ns: if sequence * 1_000_000 <= u64::MAX {
            (sequence * 1_000_000) as u64
        } else {
            u64::MAX
        },
        device_id: 0xffff_ffff_ffff_fffe,
        phase,
        eraser: false,
        viewport_revision: 0,
        reading,
    }
}

/// A scripted sample.
pub fn input_probe_sample(sequence: u64, phase: PointerPhase) -> (r: StylusSample<ProbeReading>)
    ensures
        r == scripted(
            sequence,
            phase,
            ProbeReading {
                x: (256 + sequence % 64) as u32,
                y: 256,
                pressure_hundredths: PROBE_PRESSURE,
            },
        ),
{
    StylusSample {
        sequence,
        timestamp_ns: match sequence.checked_mul(1_000_000) {
            Some(value) => value,
            None => u64::MAX,
        },
        device_id: 0xffff_ffff_ffff_fffe,
        phase,
        eraser: false,
        viewport_revision: 0,
        reading: ProbeReading {
            x: 256 + (sequence % 64) as u32,
            y: 256,
            pressure_hundredths: PROBE_PRESSURE,
        },
    }
}

/// A scripted sample at a chosen place of the shown page.
pub fn placed_probe_sample(
    sequence: u64,
    phase: PointerPhase,
    x: u32,
    y: u32,
    viewport_revision: u64,
) -> (r: StylusSample<ProbeReading>)
    ensures
        r == (StylusSample {
            viewport_revision,
            ..scripted(
                sequence,
                phase,
                ProbeReading { x, y, pressure_hundredths: PROBE_PRESSURE },
            )
        }),
{
    let sample = input_probe_sample(sequence, phase);
    StylusSample {
        viewport_revision,
        reading: ProbeReading { x, y, ..sample.reading },
        ..sample
    }
}

/// The scripted edits.
#[derive(Clone, Copy, Debug, PartialEq, Eq, Structural)]
pub enum EditProbe {
    CloseNativeFill,
    LassoGuide,
    SelectedBrush,
    WandAndFill,
}

#[derive(Clone, Copy, Debug, PartialEq, Eq, Structural)]
pub struct EditProbeFacts {
    pub busy: bool,
    pub has_selection: bool,
    pub save_pending: bool,
    pub tool: DrawingTool,
    /// The harness lets the lasso go.
    pub released: bool,
}

#[derive(Clone, Copy, Debug, PartialEq, Eq, Structural)]
pub enum EditProbeStep {
    Nothing,
    SelectTool(DrawingTool),
    /// Select a lasso of 64 by 65 pixels at the origin.
    SelectLasso,
    /// Select by the wand at the origin.
    SelectWand,
    /// Fill the selection with opaque green.
    FillSelection,
    /// Two samples are refused while the worker is busy; then save.
    SaveWhileBusy,
    /// Tap once at this place.
    Tap { sequence: u64, x: u32, y: u32 },
    Sample { sequence: u64, phase: PointerPhase, x: u32, y: u32 },
    /// The probe is complete.
    Finish,
}

pub open spec fn lasso_sample(step: u8) -> EditProbeStep {
    match step {
        1 => EditProbeStep::Sample { sequence: 10_001, phase: PointerPhase::Begin, x: 10, y: 10 },
        2 => EditProbeStep::Sample { sequence: 10_002, phase: PointerPhase::Move, x: 100, y: 10 },
        3 => EditProbeStep::Sample { sequence: 10_003, phase: PointerPhase::Move, x: 100, y: 55 },
        4 => EditProbeStep::Sample { sequence: 10_004, phase: PointerPhase::Move, x: 10, y: 55 },
        5 => EditProbeStep::Sample { sequence: 10_005, phase: PointerPhase::End, x: 10, y: 10 },
        _ => EditProbeStep::Nothing,
    }
}

pub open spec fn edit_probe_step(kind: EditProbe, step: u8, facts: EditProbeFacts) -> EditProbeStep {
    match kind {
        EditProbe::CloseNativeFill => if step == 0 {
            EditProbeStep::SelectTool(DrawingTool::Fill)
        } else if step == 1 && facts.tool is Fill {
            EditProbeStep::Tap { sequence: 20_000, x: 20, y: 20 }
        } else {
            EditProbeStep::Nothing
        },
        EditProbe::LassoGuide => if step == 0 {
            EditProbeStep::SelectTool(DrawingTool::Lasso)
        } else if !(facts.tool is Lasso) || (step == 5 && !facts.released) {
            EditProbeStep::Nothing
        } else {
            lasso_sample(step)
        },
        EditProbe::SelectedBrush => if step == 0 {
            EditProbeStep::SelectLasso
        } else if !facts.busy && facts.has_selection {
            EditProbeStep::Finish
        } else {
            EditProbeStep::Nothing
        },
        EditProbe::WandAndFill => if step == 0 {
            EditProbeStep::SelectWand
        } else if step == 1 && !facts.busy && facts.has_selection {
            EditProbeStep::FillSelection
        } else if step == 2 && facts.busy {
            EditProbeStep::SaveWhileBusy
        } else if step == 3 && facts.save_pending && facts.busy {
            EditProbeStep::Finish
        } else {
            EditProbeStep::Nothing
        },
    }
}

fn advance_lasso_guide_probe(step: u8) -> (r: EditProbeStep)
    ensures
        r == lasso_sample(step),
{
    match step {
        1 => EditProbeStep::Sample { sequence: 10_001, phase: PointerPhase::Begin, x: 10, y: 10 },
        2 => EditProbeStep::Sample { sequence: 10_002, phase: PointerPhase::Move, x: 100, y: 10 },
        3 => EditProbeStep::Sample { sequence: 10_003, phase: PointerPhase::Move, x: 100, y: 55 },
        4 => EditProbeStep::Sample { sequence: 10_004, phase: PointerPhase::Move, x: 10, y: 55 },
        5 => EditProbeStep::Sample { sequence: 10_005, phase: PointerPhase::End, x: 10, y: 10 },
        _ => EditProbeStep::Nothing,
    }
}

/// What the edit probe does in this frame.
pub fn advance_edit_probe(kind: EditProbe, step: u8, facts: EditProbeFacts) -> (r: EditProbeStep)
    ensures
        r == edit_probe_step(kind, step, facts),
{
    match kind {
        EditProbe::CloseNativeFill => {
            if step == 0 {
                EditProbeStep::SelectTool(DrawingTool::Fill)
            } else if step == 1 && facts.tool == DrawingTool::Fill {
                EditProbeStep::Tap { sequence: 20_000, x: 20, y: 20 }
            } else {
                EditProbeStep::Nothing
            }
        },
        EditProbe::LassoGuide => {
            if step == 0 {
                return EditProbeStep::SelectTool(DrawingTool::Lasso);
            }
            if facts.tool != DrawingTool::Lasso || (step == 5 && !facts.released) {
                return EditProbeStep::Nothing;
            }
            advance_lasso_guide_probe(step)
        },
        EditProbe::SelectedBrush => {
            if step == 0 {
                EditProbeStep::SelectLasso
            } else if !facts.busy && facts.has_selection {
                EditProbeStep::Finish
            } else {
                EditProbeStep::Nothing
            }
        },
        EditProbe::WandAndFill => {
            if step == 0 {
                EditProbeStep::SelectWand
            } else if step == 1 && !facts.busy && facts.has_selection {
                EditProbeStep::FillSelection
            } else if step == 2 && facts.busy {
                EditProbeStep::SaveWhileBusy
            } else if step == 3 && facts.save_pending && facts.busy {
                EditProbeStep::Finish
            } else {
                EditProbeStep::Nothing
            }
        },
    }
}

/// What the save probe does in this frame.
#[derive(Clone, Copy, Debug, PartialEq, Eq, Structural)]
pub enum SaveProbeStep {
    Nothing,
    Save,
    /// End the open stroke while a save waits for it.
    EndStroke,
}

/// The save probe asks twice and then, in the mode for it, ends the stroke.
pub fn advance_save_probe(step: u8, ends_stroke: bool, save_pending: bool) -> (r: SaveProbeStep)
    ensures
        r == (if step < 2 {
            SaveProbeStep::Save
        } else if step == 2 && ends_stroke && save_pending {
            SaveProbeStep::EndStroke
        } else {
            SaveProbeStep::Nothing
        }),
{
    if step < 2 {
        SaveProbeStep::Save
    } else if step == 2 && ends_stroke && save_pending {
        SaveProbeStep::EndStroke
    } else {
        SaveProbeStep::Nothing
    }
}

/// The sample with which the save probe ends the stroke: the second one of the
/// script, under the number that follows it.
pub fn save_probe_end() -> (r: StylusSample<ProbeReading>)
    ensures
        r == (StylusSample {
            sequence: 3,
            ..scripted(
                2,
                PointerPhase::End,
                ProbeReading { x: 258, y: 256, pressure_hundredths: PROBE_PRESSURE },
            )
        }),
{
    let sample = input_probe_sample(2, PointerPhase::End);
    StylusSample { sequence: 3, ..sample }
}

/// A sample of the input safety probe, and whether the lane has to take it.
#[derive(Clone, Copy, Debug, PartialEq, Eq, Structural)]
pub struct SafetySample {
    pub sequence: u64,
    pub phase: PointerPhase,
    pub accepted: bool,
}

/// The samples of the input safety probe: both lanes are filled with
/// transitions, the last of them a `Begin`; what follows is lost and refused.
pub open spec fn safety_sample(capacity: u64, sequence: u64) -> Option<SafetySample> {
    let preserved = 2 * capacity;
    if sequence < preserved {
        Some(SafetySample { sequence, phase: PointerPhase::Cancel, accepted: true })
    } else if sequence == preserved {
        Some(SafetySample { sequence, phase: PointerPhase::Begin, accepted: true })
    } else if sequence == preserved + 1 || sequence == preserved + 3 {
        Some(SafetySample { sequence, phase: PointerPhase::End, accepted: false })
    } else if sequence == preserved + 2 {
        Some(SafetySample { sequence, phase: PointerPhase::Move, accepted: false })
    } else {
        None
    }
}

/// The sample of the input safety probe with this number, counted from one.
pub fn advance_input_safety_probe_before_drain(capacity: u64, sequence: u64) -> (r: Option<
    SafetySample,
>)
    requires
        capacity <= 0x7fff_ffff_ffff_fff0,
    ensures
        r == safety_sample(capacity, sequence),
{
    let preserved: u64 = capacity * 2;
    if sequence < preserved {
        return Some(SafetySample { sequence, phase: PointerPhase::Cancel, accepted: true });
    }
    if sequence == preserved {
        return Some(SafetySample { sequence, phase: PointerPhase::Begin, accepted: true });
    }
    if sequence == preserved + 1 || sequence == preserved + 3 {
        return Some(SafetySample { sequence, phase: PointerPhase::End, accepted: false });
    }
    if sequence == preserved + 2 {
        return Some(SafetySample { sequence, phase: PointerPhase::Move, accepted: false });
    }
    None
}

/// The phases with which the input safety probe recovers: the tail of the lost
/// contact and then a clean one.
pub fn advance_input_safety_probe_after_drain(offset: u8) -> (r: Option<PointerPhase>)
    ensures
        r == (match offset {
            0 => Some(PointerPhase::Move),
            1 => Some(PointerPhase::End),
            2 => Some(PointerPhase::Begin),
            3 => Some(PointerPhase::Move),
            4 => Some(PointerPhase::End),
            _ => None,
        }),
{
    match offset {
        0 => Some(PointerPhase::Move),
        1 => Some(PointerPhase::End),
        2 => Some(PointerPhase::Begin),
        3 => Some(PointerPhase::Move),
        4 => Some(PointerPhase::End),
        _ => None,
    }
}

/// The number of strokes of the durability probe.
pub const DURABILITY_STROKES: u64 = 32;

/// A sample of the durability probe: three per stroke, the last eight strokes
/// erasing.
pub fn enqueue_synthetic_durability_probe(stroke: u64, part: u8) -> (r: StylusSample<ProbeReading>)
    requires
        stroke < DURABILITY_STROKES,
        part < 3,
    ensures
        r.sequence == stroke * 3 + 1 + part,
        r.timestamp_ns == r.sequence * 1_000_000,
        r.device_id == u64::MAX,
        r.phase == (if part == 0 {
            PointerPhase::Begin
        } else if part == 1 {
            PointerPhase::Move
        } else {
            PointerPhase::End
        }),
        r.eraser == (stroke >= 24),
        r.viewport_revision == 0,
        r.reading.x == 180 + 60 * part + 18 * (stroke % 8),
        r.reading.y == (if part == 0 {
            210u32
        } else if part == 1 {
            270
        } else {
            230
        }),
        r.reading.pressure_hundredths == PROBE_PRESSURE,
{
    let sequence: u64 = stroke * 3 + 1 + part as u64;
    let (phase, y): (PointerPhase, u32) = if part == 0 {
        (PointerPhase::Begin, 210)
    } else if part == 1 {
        (PointerPhase::Move, 270)
    } else {
        (PointerPhase::End, 230)
    };
    StylusSample {
        sequence,
        timestamp_ns: sequence * 1_000_000,
        device_id: u64::MAX,
        phase,
        eraser: stroke >= 24,
        viewport_revision: 0,
        reading: ProbeReading {
            x: 180 + 60 * part as u32 + 18 * (stroke % 8) as u32,
            y,
            pressure_hundredths: PROBE_PRESSURE,
        },
    }
}

/// Whether an export may be paused for a harness: only where the harness names
/// this stage and owns the scratch directory in which the export lies.
#[derive(Clone, Copy, Debug, PartialEq, Eq, Structural)]
pub struct ExportProbeFacts {
    pub stage_named: bool,
    pub directory_known: bool,
    pub below_temporary: bool,
    pub holds_export: bool,
    pub marked_scratch: bool,
}

pub fn export_probe_boundary(facts: ExportProbeFacts) -> (r: bool)
    ensures
        r == (facts.stage_named && facts.directory_known && facts.below_temporary
            && facts.holds_export && facts.marked_scratch),
{
    facts.stage_named && facts.directory_known && facts.below_temporary && facts.holds_export
        && facts.marked_scratch
}

/// The probe loses exactly the transition after those that both lanes keep.
pub proof fn safety_probe_fills_both_lanes(capacity: u64, sequence: u64)
    requires
        1 <= sequence,
    ensures
        safety_sample(capacity, sequence) matches Some(sample) ==> (sample.accepted <==> sequence
            <= 2 * capacity),
{
}

} // verus!
