//! Drawing tools, brush settings and the commands that change them.
use vstd::prelude::*;

use crate::document::Rgba;

verus! {

#[derive(Clone, Copy, Debug, PartialEq, Eq, PartialOrd, Ord, Hash, Structural)]
pub enum DrawingTool {
    Move,
    MoveSelection,
    Pencil,
    Pen,
    Brush,
    Eraser,
    Wand,
    Lasso,
    RectangleSelection,
    Eyedropper,
    Fill,
    Gradient,
}

impl DrawingTool {
    /// Tools whose samples become an edit gesture instead of brush dabs.
    pub open spec fn edits(self) -> bool {
        self is MoveSelection || self is Wand || self is Lasso || self is RectangleSelection
            || self is Eyedropper || self is Fill || self is Gradient
    }

    pub fn is_edit(self) -> (r: bool)
        ensures
            r == self.edits(),
    {
        matches!(
            self,
            DrawingTool::MoveSelection
            | DrawingTool::Wand
            | DrawingTool::Lasso
            | DrawingTool::RectangleSelection
            | DrawingTool::Eyedropper
            | DrawingTool::Fill
            | DrawingTool::Gradient
        )
    }

    /// Tools that read the document without changing its pixels.
    pub open spec fn reads_only(self) -> bool {
        self is Wand || self is Lasso || self is RectangleSelection || self is Eyedropper
    }

    pub fn is_read_only(self) -> (r: bool)
        ensures
            r == self.reads_only(),
    {
        matches!(
            self,
            DrawingTool::Wand
            | DrawingTool::Lasso
            | DrawingTool::RectangleSelection
            | DrawingTool::Eyedropper
        )
    }
}

#[derive(Clone, Copy, Debug, PartialEq, Eq, PartialOrd, Ord, Hash, Structural)]
pub enum PencilTemplate {
    Mechanical2H,
    Graphite2B,
}

#[derive(Clone, Copy, Debug, PartialEq, Eq, Hash, Structural)]
pub enum EditSource {
    ActiveLayer,
    ReferenceLayers,
    AllVisible,
}

#[derive(Clone, Copy, Debug, PartialEq, Eq, Hash, Structural)]
pub enum SelectionMode {
    Replace,
    Add,
    Subtract,
}

#[derive(Clone, Copy, Debug, PartialEq, Eq, Hash, Structural)]
pub struct FillSettings {
    pub gap_close_px: u8,
    pub expand_px: u8,
    pub antialias: bool,
}

#[derive(Clone, Copy, Debug, PartialEq, Eq, Hash, Structural)]
pub struct EditSettings {
    pub source: EditSource,
    pub tolerance: u8,
    pub fill: FillSettings,
    pub selection_mode: SelectionMode,
}

#[derive(Clone, Copy, Debug, PartialEq, Eq, Hash, Structural)]
pub struct BrushSettings {
    pub size_pressure: bool,
    pub opacity_pressure: bool,
    pub size_minimum_u16: u16,
    pub opacity_minimum_u16: u16,
    pub hardness_u16: u16,
    pub smoothing: u8,
}

/// What a painting tool returns to when it is selected again.
#[derive(Clone, Copy, Debug, PartialEq, Eq, Hash, Structural)]
pub struct RememberedBrush {
    pub size_tenths: u16,
    pub opacity_u16: u16,
    pub settings: BrushSettings,
}

/// The settings with which each painting tool starts.
#[derive(Clone, Copy, Debug, PartialEq, Eq, Hash, Structural)]
pub struct BrushDefaults {
    pub pencil: BrushSettings,
    pub pen: BrushSettings,
    pub brush: BrushSettings,
    pub eraser: BrushSettings,
    pub graphite: BrushSettings,
}

/// The drawing controls as the interface last showed them.
#[derive(Clone, Copy, Debug, PartialEq, Eq, Hash, Structural)]
pub struct DrawingControls {
    pub edit_settings: EditSettings,
    pub drawing_tool: DrawingTool,
    pub pencil_template: PencilTemplate,
    pub brush_size_tenths: u16,
    pub brush_opacity_u16: u16,
    pub brush_settings: BrushSettings,
    pub brush_color: Rgba,
    pub background_color: Rgba,
}

/// The engine family of a brush. A pencil brings its own flow, spacing and
/// hardness; a round brush states them.
#[derive(Clone, Copy, Debug, PartialEq, Eq, Hash, Structural)]
pub enum BrushFamily {
    Pencil(PencilTemplate),
    Round { preset: u32, flow_percent: u8, spacing_percent: u8, hardness_u16: u16 },
}

/// A brush as it is frozen into a stroke.
#[derive(Clone, Copy, Debug, PartialEq, Eq, Hash, Structural)]
pub struct BrushPreset {
    pub family: BrushFamily,
    pub size_tenths: u16,
    pub opacity_u16: u16,
    pub size_pressure: bool,
    pub opacity_pressure: bool,
    pub size_minimum_u16: u16,
    pub opacity_minimum_u16: u16,
}

/// Everything that the tool commands change.
#[derive(Clone, Copy, Debug, PartialEq, Eq)]
pub struct DrawingConfig {
    pub edit_settings: EditSettings,
    pub tool: DrawingTool,
    pub pencil_template: PencilTemplate,
    pub size_tenths: u16,
    pub opacity_u16: u16,
    pub brush_settings: BrushSettings,
    pub remembered: [RememberedBrush; 5],
    pub last_painting_slot: usize,
    pub color: Rgba,
    pub background_color: Rgba,
}

/// The mathematical content of a [`DrawingConfig`].
#[verifier::ext_equal]
pub struct DrawingState {
    pub edit_settings: EditSettings,
    pub tool: DrawingTool,
    pub pencil_template: PencilTemplate,
    pub size_tenths: u16,
    pub opacity_u16: u16,
    pub brush_settings: BrushSettings,
    pub remembered: Seq<RememberedBrush>,
    pub last_painting_slot: int,
    pub color: Rgba,
    pub background_color: Rgba,
}

impl View for DrawingConfig {
    type V = DrawingState;

    open spec fn view(&self) -> DrawingState {
        DrawingState {
            edit_settings: self.edit_settings,
            tool: self.tool,
            pencil_template: self.pencil_template,
            size_tenths: self.size_tenths,
            opacity_u16: self.opacity_u16,
            brush_settings: self.brush_settings,
            remembered: self.remembered@,
            last_painting_slot: self.last_painting_slot as int,
            color: self.color,
            background_color: self.background_color,
        }
    }
}

/// The memory slot of a painting tool, not yet regarding the pencil template.
pub open spec fn slot_of(tool: DrawingTool) -> Option<usize> {
    match tool {
        DrawingTool::Pencil => Some(0),
        DrawingTool::Pen => Some(1),
        DrawingTool::Brush => Some(2),
        DrawingTool::Eraser => Some(3),
        _ => None,
    }
}

/// The slot whose brush is in use while `tool` is selected with `template`.
pub open spec fn brush_slot(tool: DrawingTool, template: PencilTemplate) -> Option<int> {
    if tool is Pencil && template is Graphite2B {
        Some(4)
    } else {
        match slot_of(tool) {
            Some(slot) => Some(slot as int),
            None => None,
        }
    }
}

impl DrawingState {
    /// The state has its five slots and points at one of them.
    pub open spec fn wf(self) -> bool {
        &&& self.remembered.len() == 5
        &&& 0 <= self.last_painting_slot < 5
    }

    /// A painting tool edits exactly the slot that it will return to.
    pub open spec fn coherent(self) -> bool {
        match brush_slot(self.tool, self.pencil_template) {
            Some(slot) => self.last_painting_slot == slot,
            None => true,
        }
    }

    pub open spec fn current_brush(self) -> RememberedBrush {
        RememberedBrush {
            size_tenths: self.size_tenths,
            opacity_u16: self.opacity_u16,
            settings: self.brush_settings,
        }
    }

    pub open spec fn remembering(self) -> DrawingState {
        DrawingState {
            remembered: self.remembered.update(self.last_painting_slot, self.current_brush()),
            ..self
        }
    }

    /// The state in which `slot` supplies the brush.
    pub open spec fn using_slot(self, slot: int) -> DrawingState {
        DrawingState {
            last_painting_slot: slot,
            size_tenths: self.remembered[slot].size_tenths,
            opacity_u16: self.remembered[slot].opacity_u16,
            brush_settings: self.remembered[slot].settings,
            ..self
        }
    }

    pub open spec fn selecting(self, tool: DrawingTool) -> DrawingState {
        let next = DrawingState { tool, ..self.remembering() };
        match brush_slot(tool, self.pencil_template) {
            Some(slot) => next.using_slot(slot),
            None => next,
        }
    }

    /// The state whose brush a stroke uses: a flipped pen borrows the eraser.
    pub open spec fn for_stroke(self, hardware_eraser: bool) -> DrawingState {
        if hardware_eraser && !(self.tool is Eraser) {
            self.selecting(DrawingTool::Eraser)
        } else {
            self
        }
    }

    pub open spec fn brush(self) -> BrushPreset {
        let settings = self.brush_settings;
        BrushPreset {
            family: match self.tool {
                DrawingTool::Pencil => BrushFamily::Pencil(self.pencil_template),
                DrawingTool::Pen => BrushFamily::Round {
                    preset: 3,
                    flow_percent: 100,
                    spacing_percent: 8,
                    hardness_u16: settings.hardness_u16,
                },
                DrawingTool::Eraser => BrushFamily::Round {
                    preset: 4,
                    flow_percent: 100,
                    spacing_percent: 8,
                    hardness_u16: settings.hardness_u16,
                },
                _ => BrushFamily::Round {
                    preset: 1,
                    flow_percent: 38,
                    spacing_percent: 12,
                    hardness_u16: settings.hardness_u16,
                },
            },
            size_tenths: self.size_tenths,
            opacity_u16: self.opacity_u16,
            size_pressure: settings.size_pressure,
            opacity_pressure: settings.opacity_pressure,
            size_minimum_u16: settings.size_minimum_u16,
            opacity_minimum_u16: settings.opacity_minimum_u16,
        }
    }
}

impl RememberedBrush {
    pub fn with_settings(settings: BrushSettings) -> (r: Self)
        ensures
            r == (RememberedBrush { size_tenths: 50, opacity_u16: u16::MAX, settings }),
    {
        RememberedBrush { size_tenths: 50, opacity_u16: u16::MAX, settings }
    }
}

/// The brushes of a fresh configuration, slot by slot.
pub open spec fn default_brushes(defaults: BrushDefaults) -> Seq<RememberedBrush> {
    seq![defaults.pencil, defaults.pen, defaults.brush, defaults.eraser, defaults.graphite].map_values(
        |settings: BrushSettings|
            RememberedBrush { size_tenths: 50, opacity_u16: u16::MAX, settings },
    )
}

/// The configuration that shows the given controls.
pub open spec fn shown_state(controls: DrawingControls, defaults: BrushDefaults) -> DrawingState {
    DrawingState {
        edit_settings: controls.edit_settings,
        tool: controls.drawing_tool,
        pencil_template: controls.pencil_template,
        size_tenths: controls.brush_size_tenths,
        opacity_u16: controls.brush_opacity_u16,
        brush_settings: controls.brush_settings,
        remembered: default_brushes(defaults),
        last_painting_slot: match brush_slot(controls.drawing_tool, controls.pencil_template) {
            Some(slot) => slot,
            None => 2,
        },
        color: controls.brush_color,
        background_color: controls.background_color,
    }.remembering()
}

impl DrawingConfig {
    pub fn from_projection(controls: DrawingControls, defaults: BrushDefaults) -> (r: Self)
        ensures
            r@ == shown_state(controls, defaults),
            r@.wf(),
            r@.coherent(),
    {
        let slot: usize = match Self::painting_slot(controls.drawing_tool) {
            Some(slot) => slot,
            None => 2,
        };
        let mut drawing = DrawingConfig {
            edit_settings: controls.edit_settings,
            tool: controls.drawing_tool,
            pencil_template: controls.pencil_template,
            size_tenths: controls.brush_size_tenths,
            opacity_u16: controls.brush_opacity_u16,
            brush_settings: controls.brush_settings,
            remembered: [
                RememberedBrush::with_settings(defaults.pencil),
                RememberedBrush::with_settings(defaults.pen),
                RememberedBrush::with_settings(defaults.brush),
                RememberedBrush::with_settings(defaults.eraser),
                RememberedBrush::with_settings(defaults.graphite),
            ],
            last_painting_slot: slot,
            color: controls.brush_color,
            background_color: controls.background_color,
        };
        assert(drawing.remembered@ =~= default_brushes(defaults));
        if controls.drawing_tool == DrawingTool::Pencil && controls.pencil_template
            == PencilTemplate::Graphite2B {
            drawing.last_painting_slot = 4;
        }
        drawing.remember_current();
        drawing
    }

    pub fn painting_slot(tool: DrawingTool) -> (r: Option<usize>)
        ensures
            r == slot_of(tool),
    {
        match tool {
            DrawingTool::Pencil => Some(0),
            DrawingTool::Pen => Some(1),
            DrawingTool::Brush => Some(2),
            DrawingTool::Eraser => Some(3),
            _ => None,
        }
    }

    pub fn remember_current(&mut self)
        requires
            old(self)@.wf(),
        ensures
            final(self)@ == old(self)@.remembering(),
            final(self)@.wf(),
    {
        self.remembered[self.last_painting_slot] = RememberedBrush {
            size_tenths: self.size_tenths,
            opacity_u16: self.opacity_u16,
            settings: self.brush_settings,
        };
    }

    pub fn select_tool(&mut self, tool: DrawingTool)
        requires
            old(self)@.wf(),
        ensures
            final(self)@ == old(self)@.selecting(tool),
            final(self)@.wf(),
            final(self)@.coherent(),
    {
        self.remember_current();
        self.tool = tool;
        if let Some(painting) = Self::painting_slot(tool) {
            let slot: usize = if tool == DrawingTool::Pencil && self.pencil_template
                == PencilTemplate::Graphite2B {
                4
            } else {
                painting
            };
            let brush = self.remembered[slot];
            self.last_painting_slot = slot;
            self.size_tenths = brush.size_tenths;
            self.opacity_u16 = brush.opacity_u16;
            self.brush_settings = brush.settings;
        }
    }

    pub fn preset(self) -> (r: BrushPreset)
        ensures
            r == self@.brush(),
    {
        let settings = self.brush_settings;
        let hardness_u16: u16 = settings.hardness_u16;
        let family = match self.tool {
            DrawingTool::Pencil => BrushFamily::Pencil(self.pencil_template),
            DrawingTool::Pen => BrushFamily::Round {
                preset: 3,
                flow_percent: 100,
                spacing_percent: 8,
                hardness_u16,
            },
            DrawingTool::Eraser => BrushFamily::Round {
                preset: 4,
                flow_percent: 100,
                spacing_percent: 8,
                hardness_u16,
            },
            _ => BrushFamily::Round {
                preset: 1,
                flow_percent: 38,
                spacing_percent: 12,
                hardness_u16,
            },
        };
        BrushPreset {
            family,
            size_tenths: self.size_tenths,
            opacity_u16: self.opacity_u16,
            size_pressure: settings.size_pressure,
            opacity_pressure: settings.opacity_pressure,
            size_minimum_u16: settings.size_minimum_u16,
            opacity_minimum_u16: settings.opacity_minimum_u16,
        }
    }

    /// A flipped pen uses the remembered eraser, without changing the selected
    /// tool or overwriting its settings for the next painted stroke.
    pub fn preset_for_stroke(self, hardware_eraser: bool) -> (r: BrushPreset)
        requires
            self@.wf(),
        ensures
            r == self@.for_stroke(hardware_eraser).brush(),
    {
        let mut drawing = self;
        if hardware_eraser && drawing.tool != DrawingTool::Eraser {
            drawing.select_tool(DrawingTool::Eraser);
        }
        drawing.preset()
    }

    pub fn smoothing_for_stroke(self, hardware_eraser: bool) -> (r: u8)
        requires
            self@.wf(),
        ensures
            r == self@.for_stroke(hardware_eraser).brush_settings.smoothing,
    {
        let mut drawing = self;
        if hardware_eraser && drawing.tool != DrawingTool::Eraser {
            drawing.select_tool(DrawingTool::Eraser);
        }
        drawing.brush_settings.smoothing
    }
}

/// The brush that the interface previews.
pub fn preset_for_ui_preview(controls: DrawingControls, defaults: BrushDefaults) -> (r: BrushPreset)
    ensures
        r == shown_state(controls, defaults).brush(),
{
    DrawingConfig::from_projection(controls, defaults).preset()
}

} // verus!
