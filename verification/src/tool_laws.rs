//! What tool commands are for: what each of them changes, what it leaves, and
//! what the next stroke is drawn with.
use vstd::prelude::*;

use crate::document::{LayerId, Rgba};
use crate::drawing::{
    BrushDefaults, BrushFamily, DrawingControls, DrawingState, DrawingTool, EditSource,
    FillSettings, PencilTemplate, SelectionMode,
};
use crate::input::StylusSample;
use crate::stroke_pipeline::PipelineState;
use crate::tool_command::ToolCommand;
use crate::tool_state::ProjectToolState;

verus! {

/// The state after an accepted command, its brush remembered.
pub open spec fn accepted(before: DrawingState, command: ToolCommand, after: DrawingState) -> bool {
    before.commanded(command) matches Some(next) && after == next.remembering()
}

/// Everything but the brush memory agrees, once the named controls are put back.
pub open spec fn same_controls(a: DrawingState, b: DrawingState) -> bool {
    &&& a.tool == b.tool
    &&& a.pencil_template == b.pencil_template
    &&& a.edit_settings == b.edit_settings
    &&& a.color == b.color
    &&& a.background_color == b.background_color
    &&& a.last_painting_slot == b.last_painting_slot
}

pub open spec fn same_brush(a: DrawingState, b: DrawingState) -> bool {
    &&& a.size_tenths == b.size_tenths
    &&& a.opacity_u16 == b.opacity_u16
    &&& a.brush_settings == b.brush_settings
}

/// A stroke is drawn with the size, opacity and pressure settings that the
/// controls show. Only a pencil brings its own hardness.
pub proof fn strokes_are_drawn_as_the_controls_show(state: DrawingState)
    ensures
        state.brush().size_tenths == state.size_tenths,
        state.brush().opacity_u16 == state.opacity_u16,
        state.brush().size_pressure == state.brush_settings.size_pressure,
        state.brush().opacity_pressure == state.brush_settings.opacity_pressure,
        state.brush().size_minimum_u16 == state.brush_settings.size_minimum_u16,
        state.brush().opacity_minimum_u16 == state.brush_settings.opacity_minimum_u16,
        state.brush().family is Pencil <==> state.tool is Pencil,
        state.brush().family matches BrushFamily::Pencil(template) ==> template
            == state.pencil_template,
        state.brush().family matches BrushFamily::Round {
            preset,
            flow_percent,
            spacing_percent,
            hardness_u16,
        } ==> hardness_u16 == state.brush_settings.hardness_u16,
{
}

/// The pen and the eraser lay all their ink down at once and space it closely;
/// any other round brush builds it up. Each has a preset of its own.
pub proof fn brush_families_differ(state: DrawingState)
    ensures
        state.tool is Pen ==> state.brush().family == (BrushFamily::Round {
            preset: 3,
            flow_percent: 100,
            spacing_percent: 8,
            hardness_u16: state.brush_settings.hardness_u16,
        }),
        state.tool is Eraser ==> state.brush().family == (BrushFamily::Round {
            preset: 4,
            flow_percent: 100,
            spacing_percent: 8,
            hardness_u16: state.brush_settings.hardness_u16,
        }),
        state.tool is Brush ==> state.brush().family == (BrushFamily::Round {
            preset: 1,
            flow_percent: 38,
            spacing_percent: 12,
            hardness_u16: state.brush_settings.hardness_u16,
        }),
{
}

/// A stroke that starts takes over the colour, the brush and the selection of
/// its moment, on the layer it was admitted for, under the next number.
pub proof fn strokes_start_with_the_controls<P, D, A>(
    state: PipelineState<P, D, A>,
    sample: StylusSample<P>,
    begin_layer: Option<LayerId>,
)
    requires
        state.brush_begun(sample, begin_layer).1 is Some,
    ensures
        ({
            let (after, started) = state.brush_begun(sample, begin_layer);
            let start = started->0;
            &&& after.active matches Some(active) && {
                &&& active.generation == start.generation
                &&& active.layer == start.layer
                &&& active.brush == start.brush
                &&& active.color == start.color
                &&& active.eraser == start.eraser
                &&& active.alpha_locked == start.alpha_locked
                &&& active.selection == start.selection
                &&& active.samples == seq![start.sample]
                &&& !active.sample_limit_exceeded
            }
            &&& start.color == state.drawing.color
            &&& start.selection == state.selection
            &&& start.alpha_locked == state.focus.alpha_locked
            &&& start.generation == state.count.next_generation
            &&& begin_layer matches Some(layer) ==> start.layer == layer
            &&& begin_layer is None ==> start.layer == state.focus.layer
            &&& start.eraser <==> (sample.eraser || state.drawing.tool is Eraser)
            &&& start.sample == (StylusSample { eraser: start.eraser, ..sample })
            &&& !sample.eraser ==> {
                &&& start.brush.size_tenths == state.drawing.size_tenths
                &&& start.brush.opacity_u16 == state.drawing.opacity_u16
                &&& start.brush.size_pressure == state.drawing.brush_settings.size_pressure
                &&& start.brush.opacity_pressure == state.drawing.brush_settings.opacity_pressure
                &&& start.brush.size_minimum_u16 == state.drawing.brush_settings.size_minimum_u16
                &&& start.brush.opacity_minimum_u16
                    == state.drawing.brush_settings.opacity_minimum_u16
            }
            &&& after.count.next_generation >= state.count.next_generation
            &&& after.drawing == state.drawing
            &&& after.backlog == state.backlog
            &&& after.gpu_ops.len() > 0
            &&& after.gpu_ops.last() == (crate::stroke::GpuOp::Replace::<D> {
                generation: start.generation,
                layer: start.layer,
                color: state.drawing.color,
                eraser: start.eraser,
                alpha_locked: state.focus.alpha_locked,
            })
        }),
{
}

/// A brush begin is refused exactly where the writer's backlog is full or
/// where erasing would cut locked alpha.
pub proof fn strokes_start_wherever_they_may<P, D, A>(
    state: PipelineState<P, D, A>,
    sample: StylusSample<P>,
    begin_layer: Option<LayerId>,
)
    ensures
        state.brush_begun(sample, begin_layer).1 is None <==> state.backlog.len()
            >= state.limits.backlog || (state.focus.alpha_locked && (sample.eraser
            || state.drawing.tool is Eraser)),
        state.brush_begun(sample, begin_layer).1 is None ==> state.brush_begun(
            sample,
            begin_layer,
        ).0.active is None || state.recovery.fatal,
        state.backlog.len() >= state.limits.backlog ==> state.brush_begun(
            sample,
            begin_layer,
        ).0.recovery.fatal,
{
}

/// What a started stroke is reported to have used: the size it is drawn with
/// and, where it paints, its colour.
pub proof fn usage_reports_what_is_drawn<P, D, A>(
    state: PipelineState<P, D, A>,
    sample: StylusSample<P>,
)
    requires
        state.drawing.wf(),
        state.drawing.coherent(),
    ensures
        !sample.eraser ==> state.used_size(sample) == state.drawing.size_tenths,
        sample.eraser && state.drawing.last_painting_slot != 3 ==> state.used_size(sample)
            == state.drawing.for_stroke(true).brush().size_tenths,
        state.used_color(sample) is Some <==> !sample.eraser && (state.drawing.tool is Pencil
            || state.drawing.tool is Pen || state.drawing.tool is Brush),
        state.used_color(sample) matches Some(color) ==> color == state.drawing.color,
{
}

/// An opacity is taken exactly where it is not zero; the next stroke has it,
/// and nothing else differs.
pub proof fn opacity_reaches_the_next_stroke(state: DrawingState, opacity: u16, after: DrawingState)
    requires
        state.wf(),
        accepted(state, ToolCommand::SetOpacityU16(opacity), after),
    ensures
        opacity > 0,
        after.brush().opacity_u16 == opacity,
        after.remembered[after.last_painting_slot].opacity_u16 == opacity,
        same_controls(state, after),
        same_brush(state, DrawingState { opacity_u16: state.opacity_u16, ..after }),
{
}

/// A size is taken exactly where the control can show it; the next stroke has
/// it, and nothing else differs.
pub proof fn size_reaches_the_next_stroke(state: DrawingState, size: u16, after: DrawingState)
    requires
        state.wf(),
        accepted(state, ToolCommand::SetSizeTenths(size), after),
    ensures
        1 <= size <= 2000,
        after.brush().size_tenths == size,
        after.remembered[after.last_painting_slot].size_tenths == size,
        same_controls(state, after),
        same_brush(state, DrawingState { size_tenths: state.size_tenths, ..after }),
{
}

/// Controls are refused only outside their range.
pub proof fn controls_in_range_are_taken(
    state: DrawingState,
    size: u16,
    opacity: u16,
    smoothing: u8,
    minimum: u16,
    enabled: bool,
    color: Rgba,
)
    ensures
        1 <= size <= 2000 <==> state.commanded(ToolCommand::SetSizeTenths(size)) is Some,
        opacity > 0 <==> state.commanded(ToolCommand::SetOpacityU16(opacity)) is Some,
        color.alpha > 0 <==> state.commanded(ToolCommand::SetColor(color)) is Some,
        state.commanded(ToolCommand::SetSmoothing(smoothing)) is Some,
        state.commanded(ToolCommand::SetHardnessU16(minimum)) is Some,
        state.commanded(ToolCommand::SetSizeMinimumU16(minimum)) is Some,
        state.commanded(ToolCommand::SetOpacityMinimumU16(minimum)) is Some,
        state.commanded(ToolCommand::SetSizePressure(enabled)) is Some,
        state.commanded(ToolCommand::SetOpacityPressure(enabled)) is Some,
        state.commanded(ToolCommand::SwapColors) is Some,
        state.commanded(ToolCommand::CancelGesture) is None,
{
}

/// Pressure, its floors, hardness and smoothing each change alone and show in
/// the next stroke. Smoothing beyond a hundred counts as a hundred.
pub proof fn brush_settings_change_alone(
    state: DrawingState,
    enabled: bool,
    value: u16,
    strength: u8,
    after: DrawingState,
)
    requires
        state.wf(),
    ensures
        accepted(state, ToolCommand::SetSizePressure(enabled), after) ==> {
            &&& after.brush().size_pressure == enabled
            &&& same_controls(state, after)
            &&& same_brush(
                state,
                DrawingState {
                    brush_settings: crate::drawing::BrushSettings {
                        size_pressure: state.brush_settings.size_pressure,
                        ..after.brush_settings
                    },
                    ..after
                },
            )
        },
        accepted(state, ToolCommand::SetOpacityPressure(enabled), after) ==> {
            &&& after.brush().opacity_pressure == enabled
            &&& same_controls(state, after)
            &&& same_brush(
                state,
                DrawingState {
                    brush_settings: crate::drawing::BrushSettings {
                        opacity_pressure: state.brush_settings.opacity_pressure,
                        ..after.brush_settings
                    },
                    ..after
                },
            )
        },
        accepted(state, ToolCommand::SetSizeMinimumU16(value), after) ==> {
            &&& after.brush().size_minimum_u16 == value
            &&& same_controls(state, after)
            &&& same_brush(
                state,
                DrawingState {
                    brush_settings: crate::drawing::BrushSettings {
                        size_minimum_u16: state.brush_settings.size_minimum_u16,
                        ..after.brush_settings
                    },
                    ..after
                },
            )
        },
        accepted(state, ToolCommand::SetOpacityMinimumU16(value), after) ==> {
            &&& after.brush().opacity_minimum_u16 == value
            &&& same_controls(state, after)
            &&& same_brush(
                state,
                DrawingState {
                    brush_settings: crate::drawing::BrushSettings {
                        opacity_minimum_u16: state.brush_settings.opacity_minimum_u16,
                        ..after.brush_settings
                    },
                    ..after
                },
            )
        },
        accepted(state, ToolCommand::SetHardnessU16(value), after) ==> {
            &&& after.brush_settings.hardness_u16 == value
            &&& same_controls(state, after)
            &&& same_brush(
                state,
                DrawingState {
                    brush_settings: crate::drawing::BrushSettings {
                        hardness_u16: state.brush_settings.hardness_u16,
                        ..after.brush_settings
                    },
                    ..after
                },
            )
        },
        accepted(state, ToolCommand::SetSmoothing(strength), after) ==> {
            &&& strength <= 100 ==> after.brush_settings.smoothing == strength
            &&& strength > 100 ==> after.brush_settings.smoothing == 100
            &&& same_controls(state, after)
            &&& same_brush(
                state,
                DrawingState {
                    brush_settings: crate::drawing::BrushSettings {
                        smoothing: state.brush_settings.smoothing,
                        ..after.brush_settings
                    },
                    ..after
                },
            )
        },
{
}

/// A stroke is smoothed by the strength that its brush has; a flipped pen by
/// that of the eraser.
pub proof fn smoothing_follows_the_brush<P, D, A>(
    state: PipelineState<P, D, A>,
    sample: StylusSample<P>,
)
    ensures
        sample.phase is Begin && !sample.eraser ==> state.smoothing_plan(sample)
            == crate::brush_step::SmoothingPlan::Fresh(state.drawing.brush_settings.smoothing),
        sample.phase is Begin && sample.eraser && !(state.drawing.tool is Eraser)
            && state.drawing.wf() && state.drawing.last_painting_slot != 3 ==> state.smoothing_plan(
            sample,
        ) == crate::brush_step::SmoothingPlan::Fresh(
            state.drawing.remembered[3].settings.smoothing,
        ),
        !(sample.phase is Begin) && state.active is Some ==> state.smoothing_plan(sample) == (
        crate::brush_step::SmoothingPlan::Continue { generation: state.active->0.generation }),
        !(sample.phase is Begin) && state.active is None ==> state.smoothing_plan(
            sample,
        ) is Unsmoothed,
{
}

/// A colour that is not transparent becomes the drawing colour and the colour
/// of the next stroke; the background and everything else stay.
pub proof fn colors_reach_the_next_stroke<P, D, A>(
    state: PipelineState<P, D, A>,
    color: Rgba,
    after: DrawingState,
    sample: StylusSample<P>,
    begin_layer: Option<LayerId>,
)
    requires
        state.drawing.wf(),
        accepted(state.drawing, ToolCommand::SetColor(color), after),
    ensures
        color.alpha > 0,
        after.color == color,
        after.background_color == state.drawing.background_color,
        after.tool == state.drawing.tool,
        after.pencil_template == state.drawing.pencil_template,
        after.edit_settings == state.drawing.edit_settings,
        after.last_painting_slot == state.drawing.last_painting_slot,
        same_brush(state.drawing, after),
        (PipelineState { drawing: after, ..state }).brush_begun(sample, begin_layer).1 matches Some(
            start,
        ) ==> start.color == color,
{
}

/// Swapping exchanges the two colours and nothing else.
pub proof fn swapping_exchanges_the_colors(state: DrawingState, after: DrawingState)
    requires
        state.wf(),
        accepted(state, ToolCommand::SwapColors, after),
    ensures
        after.color == state.background_color,
        after.background_color == state.color,
        after.tool == state.tool,
        after.pencil_template == state.pencil_template,
        after.edit_settings == state.edit_settings,
        after.last_painting_slot == state.last_painting_slot,
        same_brush(state, after),
{
}

/// Each edit setting changes alone, within its range, and leaves brush and
/// colours.
pub proof fn edit_settings_change_alone(
    state: DrawingState,
    source: EditSource,
    tolerance: u8,
    radius: u8,
    enabled: bool,
    mode: SelectionMode,
    fill: FillSettings,
    after: DrawingState,
)
    requires
        state.wf(),
    ensures
        accepted(state, ToolCommand::SetEditSource(source), after) ==> {
            &&& after.edit_settings.source == source
            &&& after.edit_settings.tolerance == state.edit_settings.tolerance
            &&& after.edit_settings.fill == state.edit_settings.fill
            &&& after.edit_settings.selection_mode == state.edit_settings.selection_mode
        },
        accepted(state, ToolCommand::SetEditTolerance(tolerance), after) ==> {
            &&& after.edit_settings.tolerance == tolerance
            &&& after.edit_settings.source == state.edit_settings.source
            &&& after.edit_settings.fill == state.edit_settings.fill
            &&& after.edit_settings.selection_mode == state.edit_settings.selection_mode
        },
        accepted(state, ToolCommand::SetSelectionMode(mode), after) ==> {
            &&& after.edit_settings.selection_mode == mode
            &&& after.edit_settings.source == state.edit_settings.source
            &&& after.edit_settings.tolerance == state.edit_settings.tolerance
            &&& after.edit_settings.fill == state.edit_settings.fill
        },
        accepted(state, ToolCommand::SetFillGapClose(radius), after) ==> {
            &&& radius <= 8
            &&& after.edit_settings.fill.gap_close_px == radius
            &&& after.edit_settings.fill.expand_px == state.edit_settings.fill.expand_px
            &&& after.edit_settings.fill.antialias == state.edit_settings.fill.antialias
            &&& after.edit_settings.source == state.edit_settings.source
            &&& after.edit_settings.tolerance == state.edit_settings.tolerance
            &&& after.edit_settings.selection_mode == state.edit_settings.selection_mode
        },
        accepted(state, ToolCommand::SetFillExpansion(radius), after) ==> {
            &&& radius <= 64
            &&& after.edit_settings.fill.expand_px == radius
            &&& after.edit_settings.fill.gap_close_px == state.edit_settings.fill.gap_close_px
            &&& after.edit_settings.fill.antialias == state.edit_settings.fill.antialias
            &&& after.edit_settings.source == state.edit_settings.source
            &&& after.edit_settings.tolerance == state.edit_settings.tolerance
            &&& after.edit_settings.selection_mode == state.edit_settings.selection_mode
        },
        accepted(state, ToolCommand::SetFillAntialias(enabled), after) ==> {
            &&& after.edit_settings.fill.antialias == enabled
            &&& after.edit_settings.fill.gap_close_px == state.edit_settings.fill.gap_close_px
            &&& after.edit_settings.fill.expand_px == state.edit_settings.fill.expand_px
            &&& after.edit_settings.source == state.edit_settings.source
            &&& after.edit_settings.tolerance == state.edit_settings.tolerance
            &&& after.edit_settings.selection_mode == state.edit_settings.selection_mode
        },
        accepted(state, ToolCommand::SetFillSettings(fill), after) ==> {
            &&& after.edit_settings.fill == fill
            &&& fill.gap_close_px <= 8
            &&& fill.expand_px <= 64
            &&& after.edit_settings.source == state.edit_settings.source
            &&& after.edit_settings.tolerance == state.edit_settings.tolerance
            &&& after.edit_settings.selection_mode == state.edit_settings.selection_mode
        },
        state.commanded(ToolCommand::SetEditSource(source)) is Some,
        state.commanded(ToolCommand::SetEditTolerance(tolerance)) is Some,
        state.commanded(ToolCommand::SetSelectionMode(mode)) is Some,
        state.commanded(ToolCommand::SetFillAntialias(enabled)) is Some,
        state.commanded(ToolCommand::SetFillGapClose(radius)) is Some <==> radius <= 8,
        state.commanded(ToolCommand::SetFillExpansion(radius)) is Some <==> radius <= 64,
        state.commanded(ToolCommand::SetFillSettings(fill)) is Some <==> fill.gap_close_px <= 8
            && fill.expand_px <= 64,
{
}

/// Commands on the edit settings leave tool, brush and colours alone.
pub proof fn edit_settings_leave_the_brush(
    state: DrawingState,
    command: ToolCommand,
    after: DrawingState,
)
    requires
        state.wf(),
        accepted(state, command, after),
        command is SetEditSource || command is SetEditTolerance || command is SetFillSettings
            || command is SetFillGapClose || command is SetFillExpansion
            || command is SetFillAntialias || command is SetSelectionMode,
    ensures
        after.tool == state.tool,
        after.pencil_template == state.pencil_template,
        after.color == state.color,
        after.background_color == state.background_color,
        after.last_painting_slot == state.last_painting_slot,
        same_brush(state, after),
{
}

/// Selecting a tool selects it, and leaves colours, template and edit settings
/// alone. A tool that does not paint keeps the brush that was in use.
pub proof fn selecting_selects(state: DrawingState, tool: DrawingTool, after: DrawingState)
    requires
        state.wf(),
        accepted(state, ToolCommand::Select(tool), after),
    ensures
        after.tool == tool,
        after.color == state.color,
        after.background_color == state.background_color,
        after.edit_settings == state.edit_settings,
        after.pencil_template == state.pencil_template,
        !(tool is Pencil || tool is Pen || tool is Brush || tool is Eraser) ==> {
            &&& same_brush(state, after)
            &&& after.last_painting_slot == state.last_painting_slot
        },
{
}

/// Every tool can be selected.
pub proof fn every_tool_can_be_selected(state: DrawingState, tool: DrawingTool)
    ensures
        state.commanded(ToolCommand::Select(tool)) is Some,
{
}

/// Choosing a pencil takes the pencil in that template, and each template
/// comes back with the brush it was left with.
pub proof fn pencils_keep_their_own_brushes(
    state: DrawingState,
    template: PencilTemplate,
    other: PencilTemplate,
    there: DrawingState,
    back: DrawingState,
)
    requires
        state.wf(),
        state.coherent(),
        state.tool is Pencil,
        state.pencil_template == template,
        other != template,
        accepted(state, ToolCommand::SelectPencilTemplate(other), there),
        accepted(there, ToolCommand::SelectPencilTemplate(template), back),
    ensures
        there.tool is Pencil,
        there.pencil_template == other,
        there.brush().family == BrushFamily::Pencil(other),
        there.color == state.color,
        there.background_color == state.background_color,
        there.edit_settings == state.edit_settings,
        back.pencil_template == template,
        same_brush(state, back),
{
    assert(there.remembered.len() == 5);
}

pub open spec fn paints(tool: DrawingTool) -> bool {
    tool is Pencil || tool is Pen || tool is Brush || tool is Eraser
}

/// What is set while another painting tool is selected never reaches this one:
/// coming back finds the brush as it was left.
pub proof fn painting_tools_keep_their_own_brushes(
    state: DrawingState,
    other: DrawingTool,
    opacity: u16,
    size: u16,
    there: DrawingState,
    dimmed: DrawingState,
    resized: DrawingState,
    back: DrawingState,
)
    requires
        state.wf(),
        state.coherent(),
        paints(state.tool),
        paints(other),
        other != state.tool,
        accepted(state, ToolCommand::Select(other), there),
        accepted(there, ToolCommand::SetOpacityU16(opacity), dimmed),
        accepted(dimmed, ToolCommand::SetSizeTenths(size), resized),
        accepted(resized, ToolCommand::Select(state.tool), back),
    ensures
        same_brush(state, back),
        back.tool == state.tool,
{
    assert(there.coherent());
    assert(dimmed.coherent());
    assert(resized.coherent());
}

/// The three families go round: each step stays in its family, three steps
/// through the brushes and five through the selection tools come back, and the
/// two fills alternate. From outside a family a step enters it at its start.
pub proof fn families_go_round(current: DrawingTool)
    ensures
        ({
            let brush = |tool: DrawingTool|
                crate::tool_command::next_tool(tool, ToolCommand::CycleBrushFamily);
            &&& current is Pencil ==> brush(current) == Some(DrawingTool::Pen)
            &&& current is Pen ==> brush(current) == Some(DrawingTool::Brush)
            &&& !(current is Pencil || current is Pen) ==> brush(current) == Some(
                DrawingTool::Pencil,
            )
        }),
        ({
            let select = |tool: DrawingTool|
                crate::tool_command::next_tool(tool, ToolCommand::CycleSelectionFamily);
            &&& current is Move ==> select(current) == Some(DrawingTool::MoveSelection)
            &&& current is MoveSelection ==> select(current) == Some(DrawingTool::Wand)
            &&& current is Wand ==> select(current) == Some(DrawingTool::Lasso)
            &&& current is Lasso ==> select(current) == Some(DrawingTool::RectangleSelection)
            &&& !(current is Move || current is MoveSelection || current is Wand || current
                is Lasso) ==> select(current) == Some(DrawingTool::Move)
        }),
        current is Fill ==> crate::tool_command::next_tool(current, ToolCommand::CycleFillFamily)
            == Some(DrawingTool::Gradient),
        !(current is Fill) ==> crate::tool_command::next_tool(current, ToolCommand::CycleFillFamily)
            == Some(DrawingTool::Fill),
{
}

/// A cycling command does what selecting the next tool of its family does.
pub proof fn cycling_selects(state: DrawingState, command: ToolCommand)
    requires
        command is CycleBrushFamily || command is CycleSelectionFamily || command is CycleFillFamily,
    ensures
        crate::tool_command::next_tool(state.tool, command) matches Some(tool) && state.commanded(
            command,
        ) == state.commanded(ToolCommand::Select(tool)),
{
}

/// One step down takes one step up back, as long as the step up was not cut
/// off at the largest size; and each step moves by at least a tenth of a
/// pixel and at most by a tenth of the size.
pub proof fn size_steps_take_each_other_back(size: int)
    requires
        1 <= size,
        crate::tool_command::size_step(size, true) < 2000,
    ensures
        crate::tool_command::size_step(crate::tool_command::size_step(size, true), false) == size,
        crate::tool_command::size_step(size, true) > size,
        size < 20 ==> crate::tool_command::size_step(size, true) == size + 1,
        size >= 20 ==> 10 * (crate::tool_command::size_step(size, true) - size) <= size < 10 * (
        crate::tool_command::size_step(size, true) - size) + 10,
{
}

/// Steps never leave the control's range, and rest only at its ends.
pub proof fn size_steps_rest_at_the_ends(size: int, up: bool)
    requires
        1 <= size <= 2000,
    ensures
        1 <= crate::tool_command::size_step(size, up) <= 2000,
        up && size < 2000 ==> crate::tool_command::size_step(size, up) > size,
        !up && size > 1 ==> crate::tool_command::size_step(size, up) < size,
        up && size == 2000 ==> crate::tool_command::size_step(size, up) == 2000,
        !up && size == 1 ==> crate::tool_command::size_step(size, up) == 1,
        up && size >= 1819 ==> crate::tool_command::size_step(size, up) == 2000,
{
}

/// Several steps are as many single ones, in one direction; a size command for
/// another tool, or while no painting tool is selected, is refused.
pub proof fn size_commands_step_by_step(
    state: DrawingState,
    tool: DrawingTool,
    steps: i8,
    after: DrawingState,
)
    requires
        state.wf(),
        1 <= state.size_tenths <= 2000,
        state.commanded(ToolCommand::AdjustSizeSteps { tool, steps }) is Some,
        accepted(state, ToolCommand::AdjustSizeSteps { tool, steps }, after),
    ensures
        tool == state.tool,
        paints(state.tool),
        steps == 0 ==> after.size_tenths == state.size_tenths,
        steps == 1 ==> after.size_tenths == crate::tool_command::size_step(
            state.size_tenths as int,
            true,
        ),
        steps == -1 ==> after.size_tenths == crate::tool_command::size_step(
            state.size_tenths as int,
            false,
        ),
        steps > 0 ==> after.size_tenths >= state.size_tenths,
        steps < 0 ==> after.size_tenths <= state.size_tenths,
        1 <= after.size_tenths <= 2000,
        same_controls(state, after),
        same_brush(state, DrawingState { size_tenths: state.size_tenths, ..after }),
{
    let count = crate::tool_command::magnitude(steps);
    lemma_steps_move_one_way(state.size_tenths as int, count, steps > 0);
    if steps == 1 || steps == -1 {
        assert(count == 1);
        assert(crate::tool_command::size_steps(state.size_tenths as int, 0, steps > 0)
            == state.size_tenths);
        assert(crate::tool_command::size_steps(state.size_tenths as int, 1, steps > 0)
            == crate::tool_command::size_step(state.size_tenths as int, steps > 0));
    }
}

proof fn lemma_steps_move_one_way(size: int, count: nat, up: bool)
    requires
        1 <= size <= 2000,
    ensures
        1 <= crate::tool_command::size_steps(size, count, up) <= 2000,
        up ==> crate::tool_command::size_steps(size, count, up) >= size,
        !up ==> crate::tool_command::size_steps(size, count, up) <= size,
    decreases count,
{
    if count > 0 {
        lemma_steps_move_one_way(size, (count - 1) as nat, up);
        size_steps_rest_at_the_ends(
            crate::tool_command::size_steps(size, (count - 1) as nat, up),
            up,
        );
    }
}

/// More steps are the steps before them and then the rest.
pub proof fn size_steps_add_up(size: int, first: nat, second: nat, up: bool)
    ensures
        crate::tool_command::size_steps(size, first + second, up)
            == crate::tool_command::size_steps(
            crate::tool_command::size_steps(size, first, up),
            second,
            up,
        ),
    decreases second,
{
    if second > 0 {
        size_steps_add_up(size, first, (second - 1) as nat, up);
        assert((first + second - 1) as nat == first + (second - 1) as nat);
    }
}

/// A size command is taken exactly for the painting tool that is selected.
pub proof fn size_commands_name_their_tool(state: DrawingState, tool: DrawingTool, steps: i8)
    ensures
        state.commanded(ToolCommand::AdjustSizeSteps { tool, steps }) is Some <==> tool == state.tool
            && paints(tool),
{
}

/// A fresh configuration shows the controls that it was made from, and every
/// other painting tool starts with its own defaults, at five pixels and full
/// opacity.
pub proof fn fresh_configurations_show_their_controls(
    controls: DrawingControls,
    defaults: BrushDefaults,
)
    ensures
        ({
            let shown = crate::drawing::shown_state(controls, defaults);
            &&& shown.tool == controls.drawing_tool
            &&& shown.pencil_template == controls.pencil_template
            &&& shown.edit_settings == controls.edit_settings
            &&& shown.color == controls.brush_color
            &&& shown.background_color == controls.background_color
            &&& shown.size_tenths == controls.brush_size_tenths
            &&& shown.opacity_u16 == controls.brush_opacity_u16
            &&& shown.brush_settings == controls.brush_settings
            &&& shown.brush().size_tenths == controls.brush_size_tenths
            &&& shown.brush().opacity_u16 == controls.brush_opacity_u16
            &&& !(controls.drawing_tool is Pen) ==> starts_with(
                shown.selecting(DrawingTool::Pen),
                defaults.pen,
            )
            &&& !(controls.drawing_tool is Eraser) ==> starts_with(
                shown.selecting(DrawingTool::Eraser),
                defaults.eraser,
            )
            &&& controls.drawing_tool is Pen || controls.drawing_tool is Pencil
                || controls.drawing_tool is Eraser ==> starts_with(
                shown.selecting(DrawingTool::Brush),
                defaults.brush,
            )
            &&& !(controls.drawing_tool is Pencil) && controls.pencil_template is Mechanical2H
                ==> starts_with(shown.selecting(DrawingTool::Pencil), defaults.pencil)
            &&& !(controls.drawing_tool is Pencil) && controls.pencil_template is Graphite2B
                ==> starts_with(shown.selecting(DrawingTool::Pencil), defaults.graphite)
        }),
{
}

pub open spec fn starts_with(
    state: DrawingState,
    settings: crate::drawing::BrushSettings,
) -> bool {
    state.size_tenths == 50 && state.opacity_u16 == 65535 && state.brush_settings == settings
}

/// A stored record stands for the controls that its fields name.
pub proof fn records_hold_the_controls(record: ProjectToolState)
    requires
        record.wf(),
    ensures
        record.restored().tool == record.tool,
        record.restored().pencil_template == record.pencil_template,
        record.restored().color == record.color,
        record.restored().background_color == record.background_color,
        record.restored().edit_settings == record.edit_settings,
        record.restored().remembered == record.remembered@,
        record.restored().last_painting_slot == record.last_painting_slot,
        record.restored().size_tenths == record.remembered@[record.last_painting_slot as int]
            .size_tenths,
        record.restored().opacity_u16 == record.remembered@[record.last_painting_slot as int]
            .opacity_u16,
        record.restored().brush_settings == record.remembered@[record.last_painting_slot as int]
            .settings,
{
}

/// Tools that read, tools that edit and tools that paint.
pub proof fn tools_are_told_apart(tool: DrawingTool)
    ensures
        tool.edits() <==> !(tool is Move || tool is Pencil || tool is Pen || tool is Brush
            || tool is Eraser),
        tool.reads_only() <==> (tool is Wand || tool is Lasso || tool is RectangleSelection || tool
            is Eyedropper),
        paints(tool) <==> crate::drawing::slot_of(tool) is Some,
{
}

} // verus!
