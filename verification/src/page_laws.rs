//! What the page dialog does to a size: typing, presets, factors, axes and
//! undo, in terms of the texts shown and the size they denote.
use vstd::prelude::*;

use crate::decimal::{decimal, decimal_round_trip};
use crate::document::{CanvasSpec, PixelSize};
use crate::page_panel::{
    fits, page_change, preset_name, preset_ratio, preset_size, sizes_round_trip, CanvasDraft,
    CanvasSizeInput, DraftState, PageChange, PresetUse, SizeError, SizeInput, PRESET_COUNT,
    SIZE_UNDO_LIMIT,
};

verus! {

/// The number that was typed reads exactly as typed, the other one is left as
/// it was, and what stands there is no preset any more.
pub proof fn typing_changes_one_number(draft: DraftState, text: Seq<char>)
    ensures
        draft.typing(true, text).current.width == text,
        draft.typing(true, text).current.height == draft.current.height,
        draft.typing(false, text).current.height == text,
        draft.typing(false, text).current.width == draft.current.width,
        draft.typing(true, text).current.source is None,
        draft.typing(false, text).current.source is None,
        draft.typing(true, text).undo == draft.undo,
        draft.typing(false, text).undo == draft.undo,
{
}

/// Typing the two numbers of a size, in either order, makes the dialog hold
/// that size, whatever stood there before.
pub proof fn typed_sizes_are_denoted(draft: DraftState, size: PixelSize, limit: u64)
    requires
        fits(size, limit),
    ensures
        draft.typing(true, decimal(size.width as nat)).typing(
            false,
            decimal(size.height as nat),
        ).current.denotes(limit) == Ok::<_, SizeError>(size),
        draft.typing(false, decimal(size.height as nat)).typing(
            true,
            decimal(size.width as nat),
        ).current.denotes(limit) == Ok::<_, SizeError>(size),
{
    decimal_round_trip(size.width as nat);
    decimal_round_trip(size.height as nat);
}

/// Typing the second time in the same field replaces what the first one typed.
pub proof fn the_last_typing_stands(
    draft: DraftState,
    horizontal: bool,
    first: Seq<char>,
    second: Seq<char>,
)
    ensures
        draft.typing(horizontal, first).typing(horizontal, second) == draft.typing(
            horizontal,
            second,
        ),
{
}

/// Sizes that are denoted have two sides, a whole area within the limit, and
/// read back from the numbers that are shown; a zero, too large an area and
/// anything but a number are told apart.
pub proof fn denoted_sizes_fit(input: SizeInput, limit: u64)
    ensures
        input.denotes(limit) matches Ok(size) ==> {
            &&& size.width > 0
            &&& size.height > 0
            &&& size.width * size.height <= limit
            &&& input.swapped().denotes(limit) == Ok::<_, SizeError>(
                PixelSize { width: size.height, height: size.width },
            )
        },
        input.denotes(limit) is Err ==> input.swapped().denotes(limit) == input.denotes(limit),
{
    if let Ok(size) = input.denotes(limit) {
        let w = size.width as int;
        let h = size.height as int;
        assert(w * h == h * w) by (nonlinear_arith);
    } else {
        let width = crate::page_panel::typed(input.width);
        let height = crate::page_panel::typed(input.height);
        if width is Some && height is Some {
            let w = (width->0) as u32 as int;
            let h = (height->0) as u32 as int;
            assert(w * h == h * w) by (nonlinear_arith);
        }
    }
}

/// Written numbers are refused for what is wrong with them.
pub proof fn refused_sizes_say_why(width: u32, height: u32, source: Option<PresetUse>, limit: u64)
    ensures
        ({
            let input = SizeInput {
                width: decimal(width as nat),
                height: decimal(height as nat),
                source,
            };
            &&& input.denotes(limit) == Err::<PixelSize, _>(SizeError::Zero) <==> width == 0
                || height == 0
            &&& input.denotes(limit) == Err::<PixelSize, _>(SizeError::OverLimit) <==> width > 0
                && height > 0 && width * height > limit
            &&& input.denotes(limit) is Ok <==> width > 0 && height > 0 && width * height <= limit
        }),
{
    decimal_round_trip(width as nat);
    decimal_round_trip(height as nat);
}

/// A text that is no number is refused as such in either field.
pub proof fn only_numbers_are_sizes(text: Seq<char>, other: Seq<char>, limit: u64)
    requires
        text.len() == 0 || exists|i: int|
            1 <= i < text.len() && !('0' <= #[trigger] text[i] && text[i] <= '9'),
    ensures
        forall|source: Option<PresetUse>|
            (#[trigger] (SizeInput { width: text, height: other, source }).denotes(limit)) == Err::<
                PixelSize,
                _,
            >(SizeError::NotNumbers),
        forall|source: Option<PresetUse>|
            (#[trigger] (SizeInput { width: other, height: text, source }).denotes(limit)) == Err::<
                PixelSize,
                _,
            >(SizeError::NotNumbers),
{
    let digits = crate::decimal::without_plus(text);
    if text.len() > 0 {
        let bad = choose|i: int|
            1 <= i < text.len() && !('0' <= #[trigger] text[i] && text[i] <= '9');
        if text[0] == '+' {
            assert(digits[bad - 1] == text[bad]);
            assert(!crate::decimal::is_digit(digits[bad - 1]));
        } else {
            assert(!crate::decimal::is_digit(digits[bad]));
        }
    }
    assert(crate::page_panel::typed(text) is None);
}

/// A multiplied size denotes the product of both sides; a preset is still named,
/// with its factor multiplied too.
pub proof fn multiplied_sizes_are_products(input: SizeInput, factor: u32, limit: u64)
    ensures
        input.multiplied(factor, limit) matches Some(next) ==> {
            &&& input.denotes(limit) matches Ok(size) && (next.denotes(limit) matches Ok(larger)
                && larger.width == size.width * factor && larger.height == size.height * factor)
            &&& next.source is Some <==> input.source is Some
            &&& next.source matches Some(used) ==> used.preset == input.source->0.preset
                && used.multiplier == input.source->0.multiplier * factor
        },
        input.multiplied(factor, limit) is None <==> match input.denotes(limit) {
            Err(_) => true,
            Ok(size) => {
                ||| size.width * factor > u32::MAX
                ||| size.height * factor > u32::MAX
                ||| factor == 0
                ||| (size.width * factor) * (size.height * factor) > limit
                ||| input.source matches Some(used) && used.multiplier * factor > u32::MAX
            },
        },
{
    if let Ok(size) = input.denotes(limit) {
        let w = size.width as int;
        let h = size.height as int;
        let f = factor as int;
        assert(f == 0 ==> w * f == 0) by (nonlinear_arith);
        assert(f > 0 && w > 0 ==> w * f > 0) by (nonlinear_arith);
        assert(f > 0 && h > 0 ==> h * f > 0) by (nonlinear_arith);
        assert(w * f >= 0 && h * f >= 0) by (nonlinear_arith)
            requires
                w >= 0,
                h >= 0,
                f >= 0,
        ;
    }
    if let Some(next) = input.multiplied(factor, limit) {
        let size = input.denotes(limit)->Ok_0;
        let larger = PixelSize {
            width: (size.width * factor) as u32,
            height: (size.height * factor) as u32,
        };
        assert(size.width * factor >= 0 && size.height * factor >= 0) by (nonlinear_arith);
        if let Some(used) = input.source {
            assert(used.multiplier * factor >= 0) by (nonlinear_arith);
        }
        sizes_round_trip(larger, next.source, limit);
    }
}

/// A chosen preset is held in full and named: on its side exactly where an
/// upright size stood there, else as it is listed.
pub proof fn chosen_presets_are_held(draft: DraftState, index: int, limit: u64)
    requires
        0 <= index < PRESET_COUNT,
        preset_size(index).width * preset_size(index).height <= limit,
    ensures
        ({
            let chosen = draft.with_preset(index, limit).current;
            let upright = draft.current.denotes(limit) matches Ok(stood) && stood.width
                < stood.height;
            &&& chosen.denotes(limit) matches Ok(size) && {
                &&& upright ==> size.width == preset_size(index).height && size.height
                    == preset_size(index).width
                &&& !upright ==> size == preset_size(index)
            }
            &&& chosen.source == Some(PresetUse { preset: index as usize, multiplier: 1 })
            &&& chosen.shown_label() == preset_name(index)
            &&& draft.with_preset(index, limit).typing_start is None
        }),
{
    let size = preset_size(index);
    let w = size.width as int;
    let h = size.height as int;
    assert(w * h == h * w) by (nonlinear_arith);
    let turned = PixelSize { width: size.height, height: size.width };
    let used = Some(PresetUse { preset: index as usize, multiplier: 1 });
    sizes_round_trip(size, used, limit);
    sizes_round_trip(turned, used, limit);
}

/// Presets lie on their side, no two have the same size, and their ratio is
/// that of their sides.
pub proof fn presets_are_as_they_are_named(index: int, other: int)
    requires
        0 <= index < PRESET_COUNT,
        0 <= other < PRESET_COUNT,
    ensures
        preset_size(index).width >= preset_size(index).height,
        preset_size(index).height > 0,
        index != other ==> preset_size(index) != preset_size(other),
        preset_ratio(index) == "16:9"@ ==> preset_size(index).width * 9 == preset_size(index).height
            * 16,
        preset_ratio(index) == "4:3"@ ==> preset_size(index).width * 3 == preset_size(index).height
            * 4,
        preset_ratio(index) == "1:1"@ ==> preset_size(index).width == preset_size(index).height,
        preset_ratio(index) == "16:9"@ || preset_ratio(index) == "4:3"@ || preset_ratio(index)
            == "1:1"@,
{
    reveal_strlit("16:9");
    reveal_strlit("4:3");
    reveal_strlit("1:1");
    assert("16:9"@[0] != "4:3"@[0]);
    assert("1:1"@.len() == 3);
    assert("16:9"@.len() == 4);
    assert("4:3"@[0] != "1:1"@[0]);
}

/// A page is named after a preset exactly where it has that preset's size in
/// one of the two orientations, and shows its own sides.
pub proof fn pages_are_named_after_presets(canvas: CanvasSpec, input: CanvasSizeInput, limit: u64)
    requires
        call_ensures(CanvasSizeInput::new, (canvas,), input),
    ensures
        input@.source is Some <==> exists|i: int|
            0 <= i < PRESET_COUNT && {
                ||| (#[trigger] preset_size(i)) == (PixelSize {
                    width: canvas.width_px,
                    height: canvas.height_px,
                })
                ||| preset_size(i) == (PixelSize {
                    width: canvas.height_px,
                    height: canvas.width_px,
                })
            },
        input@.source matches Some(used) ==> input@.shown_label() == preset_name(
            used.preset as int,
        ),
        fits(PixelSize { width: canvas.width_px, height: canvas.height_px }, limit)
            ==> input@.denotes(limit) == Ok::<_, SizeError>(
            PixelSize { width: canvas.width_px, height: canvas.height_px },
        ),
{
    if let Some(used) = input@.source {
        assert(0 <= used.preset < PRESET_COUNT);
        let size = preset_size(used.preset as int);
    } else {
        assert forall|i: int| 0 <= i < PRESET_COUNT implies (#[trigger] preset_size(i)) != (
        PixelSize { width: canvas.width_px, height: canvas.height_px }) && preset_size(i) != (
        PixelSize { width: canvas.height_px, height: canvas.width_px }) by {
            presets_are_as_they_are_named(i, i);
        }
    }
    if fits(PixelSize { width: canvas.width_px, height: canvas.height_px }, limit) {
        sizes_round_trip(
            PixelSize { width: canvas.width_px, height: canvas.height_px },
            input@.source,
            limit,
        );
    }
}

/// A label names the preset and, beyond once, its factor; a size of one's own
/// has one label whatever it is.
pub proof fn labels_name_the_preset(input: SizeInput)
    ensures
        input.source matches Some(used) ==> preset_name(used.preset as int).is_prefix_of(
            input.shown_label(),
        ),
        input.source matches Some(used) ==> (used.multiplier == 1 <==> input.shown_label()
            == preset_name(used.preset as int)),
        input.source is None ==> input.shown_label() == "커스텀"@,
{
    if let Some(used) = input.source {
        let name = preset_name(used.preset as int);
        if used.multiplier != 1 {
            reveal_strlit(" ×");
            assert(input.shown_label().len() > name.len());
            assert(name =~= input.shown_label().take(name.len() as int));
        }
    }
}

/// Exchanging the axes exchanges the two numbers and nothing else.
pub proof fn swapped_axes_exchange_the_numbers(input: SizeInput)
    ensures
        input.swapped().width == input.height,
        input.swapped().height == input.width,
        input.swapped().source == input.source,
{
}

/// A replacement stands as it was given, ends the typing, and remembers what
/// stood before, last in line.
pub proof fn replacements_stand_and_are_remembered(draft: DraftState, next: SizeInput)
    requires
        draft.wf(),
        draft.typing_start is None,
    ensures
        draft.replaced(next).current == next,
        draft.replaced(next).typing_start is None,
        next != draft.current ==> draft.replaced(next).undo.len() > 0 && draft.replaced(
            next,
        ).undo.last() == draft.current,
        next != draft.current && draft.undo.len() < SIZE_UNDO_LIMIT ==> draft.replaced(
            next,
        ).undo.drop_last() == draft.undo,
        next != draft.current && draft.undo.len() == SIZE_UNDO_LIMIT ==> draft.replaced(
            next,
        ).undo.drop_last() == draft.undo.drop_first(),
        next == draft.current ==> draft.replaced(next) == draft,
        draft.replaced(next).wf(),
{
    assert(draft.undo.push(draft.current).drop_last() =~= draft.undo);
    assert(draft.undo.drop_first().push(draft.current).drop_last() =~= draft.undo.drop_first());
}

/// What was typed counts as one change, back to what stood before it began;
/// typing that ended where it began counts as none.
pub proof fn typing_is_undone_as_one(draft: DraftState)
    requires
        draft.wf(),
    ensures
        draft.typing_finished().current == draft.current,
        draft.typing_finished().typing_start is None,
        draft.typing_start matches Some(start) ==> start != draft.current
            ==> draft.undone().current == start,
        draft.typing_start == Some(draft.current) ==> draft.typing_finished().undo == draft.undo,
        draft.typing_start is None ==> draft.typing_finished() == draft,
        draft.undoable() <==> draft.typing_finished().undo.len() > 0,
        !draft.undoable() ==> draft.undone().current == draft.current,
        draft.undoable() ==> draft.undone().undo == draft.typing_finished().undo.drop_last(),
        draft.undoable() ==> draft.undone().current == draft.typing_finished().undo.last(),
{
}

/// Applying the dialog resizes the page to the denoted size exactly where it
/// has another one, and says why where the texts denote none.
pub proof fn applied_sizes_reach_the_page(
    input: CanvasSizeInput,
    canvas: CanvasSpec,
    limit: u64,
    change: PageChange,
)
    requires
        call_ensures(page_change, (&input, canvas, limit), change),
    ensures
        change is Invalid <==> input@.denotes(limit) is Err,
        change matches PageChange::Invalid(error) ==> input@.denotes(limit) == Err::<
            PixelSize,
            _,
        >(error),
        change matches PageChange::Resize(size) ==> input@.denotes(limit) == Ok::<_, SizeError>(
            size,
        ) && (size.width != canvas.width_px || size.height != canvas.height_px),
        change is Unchanged ==> input@.denotes(limit) == Ok::<_, SizeError>(
            PixelSize { width: canvas.width_px, height: canvas.height_px },
        ),
{
}

/// Multiplying and turning go through the same history as a preset: what stood
/// there can be taken back, and a refused factor changes nothing.
pub proof fn draft_changes_can_be_taken_back(factor: u32, limit: u64)
    ensures
        forall|draft: &mut CanvasDraft|
            draft@.wf() && draft@.typing_start is None && #[trigger] call_ensures(
                CanvasDraft::multiply,
                (draft, factor, limit),
                (),
            ) ==> {
                &&& draft@.current.multiplied(factor, limit) matches Some(next)
                    ==> final(draft)@.current == next
                &&& draft@.current.multiplied(factor, limit) is None ==> final(draft)@ == draft@
                &&& final(draft)@.current != draft@.current ==> final(draft)@.undone().current
                    == draft@.current
            },
        forall|draft: &mut CanvasDraft|
            draft@.wf() && draft@.typing_start is None && #[trigger] call_ensures(
                CanvasDraft::swap_axes,
                (draft,),
                (),
            ) ==> {
                &&& final(draft)@.current.width == draft@.current.height
                &&& final(draft)@.current.height == draft@.current.width
                &&& final(draft)@.current.source == draft@.current.source
                &&& final(draft)@.current != draft@.current ==> final(draft)@.undone().current
                    == draft@.current
            },
{
}

/// The area fits exactly where both sides are there and their product is
/// within the limit; more room never refuses a size that fitted.
pub proof fn larger_limits_refuse_no_more(size: PixelSize, limit: u64, larger: u64)
    requires
        limit <= larger,
        fits(size, limit),
    ensures
        fits(size, larger),
        size.width > 0 && size.height > 0,
{
}

/// A preset that is chosen in the dialog is held there, and what stood before
/// can be taken back.
pub proof fn presets_are_chosen_in_the_dialog(index: usize, limit: u64)
    requires
        index < PRESET_COUNT,
        preset_size(index as int).width * preset_size(index as int).height <= limit,
    ensures
        forall|draft: &mut CanvasDraft|
            draft@.wf() && draft@.typing_start is None && #[trigger] call_ensures(
                CanvasDraft::choose_preset,
                (draft, index, limit),
                (),
            ) ==> {
                &&& final(draft).current.source == Some(PresetUse { preset: index, multiplier: 1 })
                &&& final(draft)@.current.denotes(limit) is Ok
                &&& final(draft)@.current != draft@.current ==> final(draft)@.undone().current
                    == draft@.current
            },
        forall|draft: &mut CanvasDraft|
            draft@.wf() && #[trigger] call_ensures(CanvasDraft::undo, (draft,), ()) ==> {
                &&& !draft@.undoable() ==> final(draft)@.current == draft@.current
                &&& draft@.typing_start is None && draft@.undo.len() > 0 ==> final(draft)@.current
                    == draft@.undo.last()
            },
{
    assert forall|draft: &mut CanvasDraft|
        draft@.wf() && draft@.typing_start is None && #[trigger] call_ensures(
            CanvasDraft::choose_preset,
            (draft, index, limit),
            (),
        ) implies ({
        &&& final(draft).current.source == Some(PresetUse { preset: index, multiplier: 1 })
        &&& final(draft)@.current.denotes(limit) is Ok
        &&& final(draft)@.current != draft@.current ==> final(draft)@.undone().current
            == draft@.current
    }) by {
        chosen_presets_are_held(draft@, index as int, limit);
    }
}

} // verus!
