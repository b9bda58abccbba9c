//! Tool commands: what each one does to the drawing configuration.
use vstd::prelude::*;

use crate::command::CommandRejectReason;
use crate::document::Rgba;
use crate::drawing::{
    BrushSettings, DrawingConfig, DrawingState, DrawingTool, EditSettings, EditSource, FillSettings,
    PencilTemplate, RememberedBrush, SelectionMode,
};

verus! {

#[derive(Clone, Copy, Debug, PartialEq, Eq, Structural)]
pub enum ToolCommand {
    Select(DrawingTool),
    SelectPencilTemplate(PencilTemplate),
    CycleBrushFamily,
    CycleSelectionFamily,
    CycleFillFamily,
    SetSizeTenths(u16),
    AdjustSizeSteps { tool: DrawingTool, steps: i8 },
    SetOpacityU16(u16),
    SetSizePressure(bool),
    SetOpacityPressure(bool),
    SetSizeMinimumU16(u16),
    SetOpacityMinimumU16(u16),
    SetHardnessU16(u16),
    SetSmoothing(u8),
    SetColor(Rgba),
    SwapColors,
    SetEditSource(EditSource),
    SetEditTolerance(u8),
    SetFillSettings(FillSettings),
    SetFillGapClose(u8),
    SetFillExpansion(u8),
    SetFillAntialias(bool),
    SetSelectionMode(SelectionMode),
    CancelGesture,
}

pub const MAX_SIZE_TENTHS: u16 = 2000;

pub const MAX_SMOOTHING: u8 = 100;

pub const MAX_GAP_CLOSE_PX: u8 = 8;

pub const MAX_EXPAND_PX: u8 = 64;

/// The tool that a selection or a cycling command leads to.
pub open spec fn next_tool(current: DrawingTool, command: ToolCommand) -> Option<DrawingTool> {
    match command {
        ToolCommand::Select(tool) => Some(tool),
        ToolCommand::SelectPencilTemplate(_) => Some(DrawingTool::Pencil),
        ToolCommand::CycleBrushFamily => Some(
            match current {
                DrawingTool::Pencil => DrawingTool::Pen,
                DrawingTool::Pen => DrawingTool::Brush,
                _ => DrawingTool::Pencil,
            },
        ),
        ToolCommand::CycleSelectionFamily => Some(
            match current {
                DrawingTool::Move => DrawingTool::MoveSelection,
                DrawingTool::MoveSelection => DrawingTool::Wand,
                DrawingTool::Wand => DrawingTool::Lasso,
                DrawingTool::Lasso => DrawingTool::RectangleSelection,
                _ => DrawingTool::Move,
            },
        ),
        ToolCommand::CycleFillFamily => Some(
            if current is Fill {
                DrawingTool::Gradient
            } else {
                DrawingTool::Fill
            },
        ),
        _ => None,
    }
}

/// The tool that `command` selects while `current` is selected.
pub fn selected_tool(current: DrawingTool, command: ToolCommand) -> (r: Option<DrawingTool>)
    ensures
        r == next_tool(current, command),
{
    match command {
        ToolCommand::Select(tool) => Some(tool),
        ToolCommand::SelectPencilTemplate(_) => Some(DrawingTool::Pencil),
        ToolCommand::CycleBrushFamily => Some(
            match current {
                DrawingTool::Pencil => DrawingTool::Pen,
                DrawingTool::Pen => DrawingTool::Brush,
                _ => DrawingTool::Pencil,
            },
        ),
        ToolCommand::CycleSelectionFamily => Some(
            match current {
                DrawingTool::Move => DrawingTool::MoveSelection,
                DrawingTool::MoveSelection => DrawingTool::Wand,
                DrawingTool::Wand => DrawingTool::Lasso,
                DrawingTool::Lasso => DrawingTool::RectangleSelection,
                _ => DrawingTool::Move,
            },
        ),
        ToolCommand::CycleFillFamily => Some(
            if current == DrawingTool::Fill {
                DrawingTool::Gradient
            } else {
                DrawingTool::Fill
            },
        ),
        _ => None,
    }
}

/// One step of the size control: a tenth up or an eleventh down, at least one
/// tenth of a pixel, within the range of the control.
pub open spec fn size_step(size: int, up: bool) -> int {
    if up {
        let grown = size + if size / 10 > 1 { size / 10 } else { 1 };
        if grown < MAX_SIZE_TENTHS { grown } else { MAX_SIZE_TENTHS as int }
    } else {
        let shrunk = size - if size / 11 > 1 { size / 11 } else { 1 };
        if shrunk > 1 { shrunk } else { 1 }
    }
}

/// `count` steps in one direction.
pub open spec fn size_steps(size: int, count: nat, up: bool) -> int
    decreases count,
{
    if count == 0 {
        size
    } else {
        size_step(size_steps(size, (count - 1) as nat, up), up)
    }
}

pub open spec fn magnitude(steps: i8) -> nat {
    if steps >= 0 { steps as nat } else { (-steps) as nat }
}

/// Commands that change the brush in use.
pub open spec fn changes_brush(command: ToolCommand) -> bool {
    match command {
        ToolCommand::SetSizeTenths(_)
        | ToolCommand::AdjustSizeSteps { .. }
        | ToolCommand::SetOpacityU16(_)
        | ToolCommand::SetSizePressure(_)
        | ToolCommand::SetOpacityPressure(_)
        | ToolCommand::SetSizeMinimumU16(_)
        | ToolCommand::SetOpacityMinimumU16(_)
        | ToolCommand::SetHardnessU16(_)
        | ToolCommand::SetSmoothing(_) => true,
        _ => false,
    }
}

/// The brush after a brush command; `None` where the command is refused.
pub open spec fn commanded_brush(
    brush: RememberedBrush,
    tool: DrawingTool,
    command: ToolCommand,
) -> Option<RememberedBrush> {
    let settings = brush.settings;
    match command {
        ToolCommand::SetSizeTenths(size) => if 1 <= size <= MAX_SIZE_TENTHS {
            Some(RememberedBrush { size_tenths: size, ..brush })
        } else {
            None
        },
        ToolCommand::AdjustSizeSteps { tool: wanted, steps } => if wanted == tool && crate::drawing::slot_of(
            tool,
        ) is Some {
            Some(
                RememberedBrush {
                    size_tenths: size_steps(
                        brush.size_tenths as int,
                        magnitude(steps),
                        steps > 0,
                    ) as u16,
                    ..brush
                },
            )
        } else {
            None
        },
        ToolCommand::SetOpacityU16(opacity) => if opacity > 0 {
            Some(RememberedBrush { opacity_u16: opacity, ..brush })
        } else {
            None
        },
        ToolCommand::SetSizePressure(enabled) => Some(
            RememberedBrush {
                settings: BrushSettings { size_pressure: enabled, ..settings },
                ..brush
            },
        ),
        ToolCommand::SetOpacityPressure(enabled) => Some(
            RememberedBrush {
                settings: BrushSettings { opacity_pressure: enabled, ..settings },
                ..brush
            },
        ),
        ToolCommand::SetSizeMinimumU16(minimum) => Some(
            RememberedBrush {
                settings: BrushSettings { size_minimum_u16: minimum, ..settings },
                ..brush
            },
        ),
        ToolCommand::SetOpacityMinimumU16(minimum) => Some(
            RememberedBrush {
                settings: BrushSettings { opacity_minimum_u16: minimum, ..settings },
                ..brush
            },
        ),
        ToolCommand::SetHardnessU16(hardness) => Some(
            RememberedBrush {
                settings: BrushSettings { hardness_u16: hardness, ..settings },
                ..brush
            },
        ),
        ToolCommand::SetSmoothing(strength) => Some(
            RememberedBrush {
                settings: BrushSettings {
                    smoothing: if strength < MAX_SMOOTHING {
                        strength
                    } else {
                        MAX_SMOOTHING
                    },
                    ..settings
                },
                ..brush
            },
        ),
        _ => None,
    }
}

/// Commands that change the settings of the edit tools.
pub open spec fn changes_edit_settings(command: ToolCommand) -> bool {
    match command {
        ToolCommand::SetEditSource(_)
        | ToolCommand::SetEditTolerance(_)
        | ToolCommand::SetFillSettings(_)
        | ToolCommand::SetFillGapClose(_)
        | ToolCommand::SetFillExpansion(_)
        | ToolCommand::SetFillAntialias(_)
        | ToolCommand::SetSelectionMode(_) => true,
        _ => false,
    }
}

/// The edit settings after such a command; `None` where it is refused.
pub open spec fn commanded_edit_settings(
    settings: EditSettings,
    command: ToolCommand,
) -> Option<EditSettings> {
    match command {
        ToolCommand::SetEditSource(source) => Some(EditSettings { source, ..settings }),
        ToolCommand::SetEditTolerance(tolerance) => Some(EditSettings { tolerance, ..settings }),
        ToolCommand::SetFillSettings(fill) => if fill.gap_close_px <= MAX_GAP_CLOSE_PX
            && fill.expand_px <= MAX_EXPAND_PX {
            Some(EditSettings { fill, ..settings })
        } else {
            None
        },
        ToolCommand::SetFillGapClose(radius) => if radius <= MAX_GAP_CLOSE_PX {
            Some(
                EditSettings {
                    fill: FillSettings { gap_close_px: radius, ..settings.fill },
                    ..settings
                },
            )
        } else {
            None
        },
        ToolCommand::SetFillExpansion(radius) => if radius <= MAX_EXPAND_PX {
            Some(
                EditSettings {
                    fill: FillSettings { expand_px: radius, ..settings.fill },
                    ..settings
                },
            )
        } else {
            None
        },
        ToolCommand::SetFillAntialias(enabled) => Some(
            EditSettings { fill: FillSettings { antialias: enabled, ..settings.fill }, ..settings },
        ),
        ToolCommand::SetSelectionMode(mode) => Some(
            EditSettings { selection_mode: mode, ..settings },
        ),
        _ => None,
    }
}

impl DrawingState {
    pub open spec fn with_brush(self, brush: RememberedBrush) -> DrawingState {
        DrawingState {
            size_tenths: brush.size_tenths,
            opacity_u16: brush.opacity_u16,
            brush_settings: brush.settings,
            ..self
        }
    }

    /// The state that `command` asks for, before the brush is remembered;
    /// `None` where the command is refused.
    pub open spec fn commanded(self, command: ToolCommand) -> Option<DrawingState> {
        if changes_brush(command) {
            match commanded_brush(self.current_brush(), self.tool, command) {
                Some(brush) => Some(self.with_brush(brush)),
                None => None,
            }
        } else if changes_edit_settings(command) {
            match commanded_edit_settings(self.edit_settings, command) {
                Some(edit_settings) => Some(DrawingState { edit_settings, ..self }),
                None => None,
            }
        } else {
            match command {
                ToolCommand::SelectPencilTemplate(template) => Some(
                    DrawingState { pencil_template: template, ..self.remembering() }.selecting(
                        DrawingTool::Pencil,
                    ),
                ),
                ToolCommand::SetColor(color) => if color.alpha > 0 {
                    Some(DrawingState { color, ..self })
                } else {
                    None
                },
                ToolCommand::SwapColors => Some(
                    DrawingState {
                        color: self.background_color,
                        background_color: self.color,
                        ..self
                    },
                ),
                _ => match next_tool(self.tool, command) {
                    Some(tool) => Some(self.selecting(tool)),
                    None => None,
                },
            }
        }
    }

    /// Every control lies in the range that its command admits.
    pub open spec fn in_range(self) -> bool {
        &&& self.wf()
        &&& brush_in_range(self.current_brush())
        &&& self.edit_settings.fill.gap_close_px <= MAX_GAP_CLOSE_PX
        &&& self.edit_settings.fill.expand_px <= MAX_EXPAND_PX
        &&& forall|slot: int| 0 <= slot < 5 ==> brush_in_range(#[trigger] self.remembered[slot])
    }
}

pub open spec fn brush_in_range(brush: RememberedBrush) -> bool {
    &&& 1 <= brush.size_tenths <= MAX_SIZE_TENTHS
    &&& brush.opacity_u16 > 0
    &&& brush.settings.smoothing <= MAX_SMOOTHING
}

proof fn lemma_size_steps_bounded(size: u16, count: nat, up: bool)
    ensures
        0 <= size_steps(size as int, count, up) <= u16::MAX,
        1 <= size <= MAX_SIZE_TENTHS ==> 1 <= size_steps(size as int, count, up) <= MAX_SIZE_TENTHS,
        count > 0 ==> 1 <= size_steps(size as int, count, up),
        count > 0 && up ==> size_steps(size as int, count, up) <= MAX_SIZE_TENTHS,
    decreases count,
{
    if count > 0 {
        lemma_size_steps_bounded(size, (count - 1) as nat, up);
    }
}

/// Moves a brush size by signed steps.
fn adjusted_size(start: u16, steps: i8) -> (r: u16)
    ensures
        r == size_steps(start as int, magnitude(steps), steps > 0),
{
    let count: u8 = if steps >= 0 {
        steps as u8
    } else {
        (-(steps as i16)) as u8
    };
    let up = steps > 0;
    let mut done: u8 = 0;
    let mut size: u16 = start;
    while done < count
        invariant
            done <= count,
            size == size_steps(start as int, done as nat, up),
        decreases count - done,
    {
        proof {
            lemma_size_steps_bounded(start, (done + 1) as nat, up);
        }
        size = if up {
            let step: u16 = if size / 10 > 1 {
                size / 10
            } else {
                1
            };
            let grown: u16 = size.saturating_add(step);
            if grown < MAX_SIZE_TENTHS {
                grown
            } else {
                MAX_SIZE_TENTHS
            }
        } else {
            let step: u16 = if size / 11 > 1 {
                size / 11
            } else {
                1
            };
            let shrunk: u16 = size.saturating_sub(step);
            if shrunk > 1 {
                shrunk
            } else {
                1
            }
        };
        done = done + 1;
    }
    size
}

/// Carries a brush command out on one brush.
fn brush_command(brush: RememberedBrush, tool: DrawingTool, command: ToolCommand) -> (r: Option<
    RememberedBrush,
>)
    requires
        changes_brush(command),
    ensures
        r == commanded_brush(brush, tool, command),
{
    let mut next = brush;
    match command {
        ToolCommand::SetSizeTenths(size) => {
            if size < 1 || size > MAX_SIZE_TENTHS {
                return None;
            }
            next.size_tenths = size;
        },
        ToolCommand::AdjustSizeSteps { tool: wanted, steps } => {
            if wanted != tool || DrawingConfig::painting_slot(tool).is_none() {
                return None;
            }
            proof {
                lemma_size_steps_bounded(brush.size_tenths, magnitude(steps), steps > 0);
            }
            next.size_tenths = adjusted_size(brush.size_tenths, steps);
        },
        ToolCommand::SetOpacityU16(opacity) => {
            if opacity == 0 {
                return None;
            }
            next.opacity_u16 = opacity;
        },
        ToolCommand::SetSizePressure(enabled) => {
            next.settings.size_pressure = enabled;
        },
        ToolCommand::SetOpacityPressure(enabled) => {
            next.settings.opacity_pressure = enabled;
        },
        ToolCommand::SetSizeMinimumU16(minimum) => {
            next.settings.size_minimum_u16 = minimum;
        },
        ToolCommand::SetOpacityMinimumU16(minimum) => {
            next.settings.opacity_minimum_u16 = minimum;
        },
        ToolCommand::SetHardnessU16(hardness) => {
            next.settings.hardness_u16 = hardness;
        },
        ToolCommand::SetSmoothing(strength) => {
            next.settings.smoothing = if strength < MAX_SMOOTHING {
                strength
            } else {
                MAX_SMOOTHING
            };
        },
        _ => {
            return None;
        },
    }
    Some(next)
}

/// Carries a command on the edit settings out.
fn edit_settings_command(settings: EditSettings, command: ToolCommand) -> (r: Option<EditSettings>)
    requires
        changes_edit_settings(command),
    ensures
        r == commanded_edit_settings(settings, command),
{
    let mut next = settings;
    match command {
        ToolCommand::SetEditSource(source) => {
            next.source = source;
        },
        ToolCommand::SetEditTolerance(tolerance) => {
            next.tolerance = tolerance;
        },
        ToolCommand::SetFillSettings(fill) => {
            if fill.gap_close_px > MAX_GAP_CLOSE_PX || fill.expand_px > MAX_EXPAND_PX {
                return None;
            }
            next.fill = fill;
        },
        ToolCommand::SetFillGapClose(radius) => {
            if radius > MAX_GAP_CLOSE_PX {
                return None;
            }
            next.fill.gap_close_px = radius;
        },
        ToolCommand::SetFillExpansion(radius) => {
            if radius > MAX_EXPAND_PX {
                return None;
            }
            next.fill.expand_px = radius;
        },
        ToolCommand::SetFillAntialias(enabled) => {
            next.fill.antialias = enabled;
        },
        ToolCommand::SetSelectionMode(mode) => {
            next.selection_mode = mode;
        },
        _ => {
            return None;
        },
    }
    Some(next)
}

impl DrawingConfig {
    /// Applies one tool command and remembers the resulting brush. A refused
    /// command changes nothing.
    pub fn apply_tool_command(&mut self, command: ToolCommand) -> (r: Result<
        (),
        CommandRejectReason,
    >)
        requires
            old(self)@.wf(),
        ensures
            final(self)@.wf(),
            match old(self)@.commanded(command) {
                Some(next) => r is Ok && final(self)@ == next.remembering(),
                None => r == Err::<(), _>(CommandRejectReason::UnsupportedCommand)
                    && final(self)@ == old(self)@,
            },
    {
        match command {
            ToolCommand::Select(_)
            | ToolCommand::CycleBrushFamily
            | ToolCommand::CycleSelectionFamily
            | ToolCommand::CycleFillFamily => {
                if let Some(tool) = selected_tool(self.tool, command) {
                    self.select_tool(tool);
                }
            },
            ToolCommand::SelectPencilTemplate(template) => {
                self.remember_current();
                self.pencil_template = template;
                self.select_tool(DrawingTool::Pencil);
            },
            ToolCommand::SetColor(color) => {
                if color.alpha == 0 {
                    return Err(CommandRejectReason::UnsupportedCommand);
                }
                self.color = color;
            },
            ToolCommand::SwapColors => {
                let color = self.color;
                self.color = self.background_color;
                self.background_color = color;
            },
            ToolCommand::CancelGesture => {
                return Err(CommandRejectReason::UnsupportedCommand);
            },
            ToolCommand::SetEditSource(_)
            | ToolCommand::SetEditTolerance(_)
            | ToolCommand::SetFillSettings(_)
            | ToolCommand::SetFillGapClose(_)
            | ToolCommand::SetFillExpansion(_)
            | ToolCommand::SetFillAntialias(_)
            | ToolCommand::SetSelectionMode(_) => {
                match edit_settings_command(self.edit_settings, command) {
                    Some(settings) => {
                        self.edit_settings = settings;
                    },
                    None => {
                        return Err(CommandRejectReason::UnsupportedCommand);
                    },
                }
            },
            _ => {
                let brush = RememberedBrush {
                    size_tenths: self.size_tenths,
                    opacity_u16: self.opacity_u16,
                    settings: self.brush_settings,
                };
                match brush_command(brush, self.tool, command) {
                    Some(next) => {
                        self.size_tenths = next.size_tenths;
                        self.opacity_u16 = next.opacity_u16;
                        self.brush_settings = next.settings;
                    },
                    None => {
                        return Err(CommandRejectReason::UnsupportedCommand);
                    },
                }
            },
        }
        self.remember_current();
        Ok(())
    }
}

/// Selecting any tool and coming back gives the painting tool its brush again.
pub proof fn selecting_back_restores_the_brush(
    state: DrawingState,
    other: DrawingTool,
)
    requires
        state.wf(),
        state.coherent(),
        crate::drawing::slot_of(state.tool) is Some,
    ensures
        state.selecting(other).selecting(state.tool).current_brush() == state.current_brush(),
        state.selecting(other).selecting(state.tool).tool == state.tool,
        state.selecting(other).selecting(state.tool).remembered == state.remembering().remembered,
{
    let there = state.selecting(other);
    let back = there.selecting(state.tool);
    assert(there.remembering().remembered =~= state.remembering().remembered);
}

/// A flipped pen takes the brush that the eraser was left with, whatever tool
/// is selected, and the selected tool keeps its own.
pub proof fn flipped_pen_borrows_the_remembered_eraser(state: DrawingState)
    requires
        state.wf(),
        state.coherent(),
    ensures
        state.for_stroke(true).tool is Eraser,
        !(state.tool is Eraser) ==> state.for_stroke(true).current_brush() == (
        if state.last_painting_slot == 3 {
            state.current_brush()
        } else {
            state.remembered[3]
        }),
        state.tool is Eraser ==> state.for_stroke(true) == state,
        state.for_stroke(false) == state,
{
}

/// Accepted commands keep every control in its range, and keep the brush in
/// use tied to the slot of its tool.
pub proof fn commands_keep_controls_in_range(
    state: DrawingState,
    command: ToolCommand,
)
    requires
        state.in_range(),
        state.coherent(),
    ensures
        match state.commanded(command) {
            Some(next) => next.remembering().in_range() && next.remembering().coherent(),
            None => true,
        },
{
    if let ToolCommand::AdjustSizeSteps { tool, steps } = command {
        lemma_size_steps_bounded(state.size_tenths, magnitude(steps), steps > 0);
    }
    assert(state.remembering().in_range());
    if let Some(next) = state.commanded(command) {
        assert(next.in_range());
    }
}

/// Swapping the two colours twice changes nothing.
pub proof fn swapping_colors_twice_is_identity(state: DrawingState)
    ensures
        state.commanded(ToolCommand::SwapColors) matches Some(once) && once.commanded(
            ToolCommand::SwapColors,
        ) == Some(state),
{
}

} // verus!
