//! The page dialog: presets, typed sizes and their local undo.
use std::collections::VecDeque;

use vstd::prelude::*;
use vstd::string::*;

use crate::decimal::{parse_decimal, to_decimal};
use crate::document::{CanvasSpec, PixelSize};

verus! {

/// How many size changes can be taken back.
pub const SIZE_UNDO_LIMIT: usize = 32;

/// The number of presets; the first three are offered directly.
pub const PRESET_COUNT: usize = 13;

pub const COMMON_PRESET_COUNT: usize = 3;

#[derive(Clone, Copy, Debug)]
pub struct CanvasPreset {
    pub name: &'static str,
    pub size: PixelSize,
    pub ratio: &'static str,
}

pub open spec fn preset_name(index: int) -> Seq<char> {
    if index == 0 {
        "FHD"@
    } else if index == 1 {
        "UXGA"@
    } else if index == 2 {
        "64 × 64"@
    } else if index == 3 {
        "HD"@
    } else if index == 4 {
        "QHD"@
    } else if index == 5 {
        "4K UHD"@
    } else if index == 6 {
        "XGA"@
    } else if index == 7 {
        "SVGA"@
    } else if index == 8 {
        "VGA"@
    } else if index == 9 {
        "128 × 128"@
    } else if index == 10 {
        "256 × 256"@
    } else if index == 11 {
        "512 × 512"@
    } else {
        "1024 × 1024"@
    }
}

pub open spec fn preset_size(index: int) -> PixelSize {
    if index == 0 {
        PixelSize { width: 1920, height: 1080 }
    } else if index == 1 {
        PixelSize { width: 1600, height: 1200 }
    } else if index == 2 {
        PixelSize { width: 64, height: 64 }
    } else if index == 3 {
        PixelSize { width: 1280, height: 720 }
    } else if index == 4 {
        PixelSize { width: 2560, height: 1440 }
    } else if index == 5 {
        PixelSize { width: 3840, height: 2160 }
    } else if index == 6 {
        PixelSize { width: 1024, height: 768 }
    } else if index == 7 {
        PixelSize { width: 800, height: 600 }
    } else if index == 8 {
        PixelSize { width: 640, height: 480 }
    } else if index == 9 {
        PixelSize { width: 128, height: 128 }
    } else if index == 10 {
        PixelSize { width: 256, height: 256 }
    } else if index == 11 {
        PixelSize { width: 512, height: 512 }
    } else {
        PixelSize { width: 1024, height: 1024 }
    }
}

pub open spec fn preset_ratio(index: int) -> Seq<char> {
    if index == 0 || index == 3 || index == 4 || index == 5 {
        "16:9"@
    } else if index == 1 || index == 6 || index == 7 || index == 8 {
        "4:3"@
    } else {
        "1:1"@
    }
}

fn make_preset(name: &'static str, width: u32, height: u32, ratio: &'static str) -> (r:
    CanvasPreset)
    ensures
        r.name@ == name@,
        r.size == (PixelSize { width, height }),
        r.ratio@ == ratio@,
{
    CanvasPreset { name, size: PixelSize { width, height }, ratio }
}

/// The preset with this number.
pub fn preset(index: usize) -> (r: CanvasPreset)
    requires
        index < PRESET_COUNT,
    ensures
        r.name@ == preset_name(index as int),
        r.size == preset_size(index as int),
        r.ratio@ == preset_ratio(index as int),
{
    match index {
        0 => make_preset("FHD", 1920, 1080, "16:9"),
        1 => make_preset("UXGA", 1600, 1200, "4:3"),
        2 => make_preset("64 × 64", 64, 64, "1:1"),
        3 => make_preset("HD", 1280, 720, "16:9"),
        4 => make_preset("QHD", 2560, 1440, "16:9"),
        5 => make_preset("4K UHD", 3840, 2160, "16:9"),
        6 => make_preset("XGA", 1024, 768, "4:3"),
        7 => make_preset("SVGA", 800, 600, "4:3"),
        8 => make_preset("VGA", 640, 480, "4:3"),
        9 => make_preset("128 × 128", 128, 128, "1:1"),
        10 => make_preset("256 × 256", 256, 256, "1:1"),
        11 => make_preset("512 × 512", 512, 512, "1:1"),
        _ => make_preset("1024 × 1024", 1024, 1024, "1:1"),
    }
}

/// A size that came from a preset, possibly multiplied.
#[derive(Clone, Copy, Debug, PartialEq, Eq, Structural)]
pub struct PresetUse {
    pub preset: usize,
    pub multiplier: u32,
}

#[derive(Clone, Copy, Debug, PartialEq, Eq, Structural)]
pub enum SizeError {
    NotNumbers,
    Zero,
    OverLimit,
}

impl SizeError {
    pub fn message(self) -> (r: &'static str)
        ensures
            self is NotNumbers ==> r@ == "가로와 세로를 양의 정수로 입력하세요."@,
            self is Zero ==> r@ == "가로와 세로는 1 이상이어야 합니다."@,
            self is OverLimit ==> r@
                == "현재 출력 한도를 초과합니다. 크기를 줄여주세요."@,
    {
        match self {
            SizeError::NotNumbers => "가로와 세로를 양의 정수로 입력하세요.",
            SizeError::Zero => "가로와 세로는 1 이상이어야 합니다.",
            SizeError::OverLimit => "현재 출력 한도를 초과합니다. 크기를 줄여주세요.",
        }
    }
}

pub open spec fn fits(size: PixelSize, limit: u64) -> bool {
    size.width > 0 && size.height > 0 && size.width * size.height <= limit
}

/// A page of this size can be put out. `limit` is the most pixels that can.
pub fn within_output_limit(size: PixelSize, limit: u64) -> (r: bool)
    ensures
        r == fits(size, limit),
{
    proof {
        lemma_area(size);
    }
    size.width > 0 && size.height > 0 && size.width as u64 * size.height as u64 <= limit
}

proof fn lemma_area(size: PixelSize)
    ensures
        0 <= size.width * size.height <= u64::MAX,
{
    let w = size.width as int;
    let h = size.height as int;
    assert(0 <= w * h <= 0xffff_ffff * 0xffff_ffff) by (nonlinear_arith)
        requires
            0 <= w <= 0xffff_ffff,
            0 <= h <= 0xffff_ffff,
    ;
}

/// The size as it is typed.
#[derive(Debug)]
pub struct CanvasSizeInput {
    pub width: String,
    pub height: String,
    pub source: Option<PresetUse>,
}

/// The mathematical content of a [`CanvasSizeInput`].
#[verifier::ext_equal]
pub struct SizeInput {
    pub width: Seq<char>,
    pub height: Seq<char>,
    pub source: Option<PresetUse>,
}

impl View for CanvasSizeInput {
    type V = SizeInput;

    open spec fn view(&self) -> SizeInput {
        SizeInput { width: self.width@, height: self.height@, source: self.source }
    }
}

pub open spec fn typed(text: Seq<char>) -> Option<int> {
    crate::decimal::parsed(text, u32::MAX as int)
}

pub open spec fn input_for(size: PixelSize, source: Option<PresetUse>) -> SizeInput {
    SizeInput {
        width: crate::decimal::decimal(size.width as nat),
        height: crate::decimal::decimal(size.height as nat),
        source,
    }
}

impl SizeInput {
    pub open spec fn wf(self) -> bool {
        self.source matches Some(used) ==> used.preset < PRESET_COUNT
    }

    /// The size that the texts denote, or why they denote none.
    pub open spec fn denotes(self, limit: u64) -> Result<PixelSize, SizeError> {
        match (typed(self.width), typed(self.height)) {
            (Some(width), Some(height)) => {
                let size = PixelSize { width: width as u32, height: height as u32 };
                if width == 0 || height == 0 {
                    Err(SizeError::Zero)
                } else if fits(size, limit) {
                    Ok(size)
                } else {
                    Err(SizeError::OverLimit)
                }
            },
            _ => Err(SizeError::NotNumbers),
        }
    }

    pub open spec fn multiplied(self, factor: u32, limit: u64) -> Option<SizeInput> {
        match self.denotes(limit) {
            Err(_) => None,
            Ok(size) => if size.width * factor > u32::MAX || size.height * factor > u32::MAX {
                None
            } else {
                let next = PixelSize {
                    width: (size.width * factor) as u32,
                    height: (size.height * factor) as u32,
                };
                if !fits(next, limit) {
                    None
                } else {
                    match self.source {
                        None => Some(input_for(next, None)),
                        Some(used) => if used.multiplier * factor > u32::MAX {
                            None
                        } else {
                            Some(
                                input_for(
                                    next,
                                    Some(
                                        PresetUse {
                                            preset: used.preset,
                                            multiplier: (used.multiplier * factor) as u32,
                                        },
                                    ),
                                ),
                            )
                        },
                    }
                }
            },
        }
    }

    pub open spec fn shown_label(self) -> Seq<char> {
        match self.source {
            Some(used) => if used.multiplier == 1 {
                preset_name(used.preset as int)
            } else {
                preset_name(used.preset as int) + " ×"@ + crate::decimal::decimal(
                    used.multiplier as nat,
                )
            },
            None => "커스텀"@,
        }
    }

    pub open spec fn swapped(self) -> SizeInput {
        SizeInput { width: self.height, height: self.width, ..self }
    }
}

pub open spec fn landscape(canvas: CanvasSpec) -> PixelSize {
    if canvas.width_px >= canvas.height_px {
        PixelSize { width: canvas.width_px, height: canvas.height_px }
    } else {
        PixelSize { width: canvas.height_px, height: canvas.width_px }
    }
}

pub open spec fn optional_input(input: Option<CanvasSizeInput>) -> Option<SizeInput> {
    match input {
        Some(input) => Some(input@),
        None => None,
    }
}

impl CanvasSizeInput {
    fn for_size(size: PixelSize, source: Option<PresetUse>) -> (r: Self)
        ensures
            r@ == input_for(size, source),
    {
        CanvasSizeInput {
            width: to_decimal(size.width as u128),
            height: to_decimal(size.height as u128),
            source,
        }
    }

    /// The size of a page, named after the preset it has in either orientation.
    pub fn new(canvas: CanvasSpec) -> (r: Self)
        ensures
            r@.wf(),
            r@.width == crate::decimal::decimal(canvas.width_px as nat),
            r@.height == crate::decimal::decimal(canvas.height_px as nat),
            match r@.source {
                Some(used) => used.multiplier == 1 && preset_size(used.preset as int) == landscape(
                    canvas,
                ),
                None => forall|i: int|
                    0 <= i < PRESET_COUNT ==> #[trigger] preset_size(i) != landscape(canvas),
            },
    {
        let wide = if canvas.width_px >= canvas.height_px {
            PixelSize { width: canvas.width_px, height: canvas.height_px }
        } else {
            PixelSize { width: canvas.height_px, height: canvas.width_px }
        };
        let size = PixelSize { width: canvas.width_px, height: canvas.height_px };
        let mut index: usize = 0;
        while index < PRESET_COUNT
            invariant
                index <= PRESET_COUNT,
                wide == landscape(canvas),
                forall|i: int| 0 <= i < index ==> #[trigger] preset_size(i) != wide,
                size == (PixelSize { width: canvas.width_px, height: canvas.height_px }),
            decreases PRESET_COUNT - index,
        {
            if preset(index).size == wide {
                return Self::for_size(size, Some(PresetUse { preset: index, multiplier: 1 }));
            }
            index = index + 1;
        }
        Self::for_size(size, None)
    }

    /// The size that the texts denote, or why they denote none.
    pub fn size(&self, limit: u64) -> (r: Result<PixelSize, SizeError>)
        ensures
            r == self@.denotes(limit),
    {
        let width = parse_decimal(self.width.as_str(), 4_294_967_295);
        let height = parse_decimal(self.height.as_str(), 4_294_967_295);
        match (width, height) {
            (Some(width), Some(height)) => {
                if width == 0 || height == 0 {
                    return Err(SizeError::Zero);
                }
                let size = PixelSize { width: width as u32, height: height as u32 };
                if within_output_limit(size, limit) {
                    Ok(size)
                } else {
                    Err(SizeError::OverLimit)
                }
            },
            _ => Err(SizeError::NotNumbers),
        }
    }

    /// The size multiplied, where the result can still be put out.
    pub fn multiplied(&self, factor: u32, limit: u64) -> (r: Option<Self>)
        ensures
            optional_input(r) == self@.multiplied(factor, limit),
    {
        let size = match self.size(limit) {
            Ok(size) => size,
            Err(_) => {
                return None;
            },
        };
        let width: u32 = match size.width.checked_mul(factor) {
            Some(width) => width,
            None => {
                return None;
            },
        };
        let height: u32 = match size.height.checked_mul(factor) {
            Some(height) => height,
            None => {
                return None;
            },
        };
        let next = PixelSize { width, height };
        if !within_output_limit(next, limit) {
            return None;
        }
        let source = match self.source {
            Some(used) => match used.multiplier.checked_mul(factor) {
                Some(multiplier) => Some(PresetUse { preset: used.preset, multiplier }),
                None => {
                    return None;
                },
            },
            None => None,
        };
        Some(Self::for_size(next, source))
    }

    pub fn label(&self) -> (r: String)
        requires
            self@.wf(),
        ensures
            r@ == self@.shown_label(),
    {
        match self.source {
            Some(used) => {
                let mut text = preset(used.preset).name.to_owned();
                if used.multiplier != 1 {
                    text.append(" ×");
                    text.append(to_decimal(used.multiplier as u128).as_str());
                }
                text
            },
            None => "커스텀".to_owned(),
        }
    }

    fn same(&self, other: &Self) -> (r: bool)
        ensures
            r == (self@ == other@),
    {
        self.width == other.width && self.height == other.height && self.source == other.source
    }

    fn copy(&self) -> (r: Self)
        ensures
            r@ == self@,
    {
        CanvasSizeInput {
            width: self.width.clone(),
            height: self.height.clone(),
            source: self.source,
        }
    }
}

/// A size in the making. Only changes of this dialog can be taken back here.
pub struct CanvasDraft {
    pub current: CanvasSizeInput,
    pub undo: VecDeque<CanvasSizeInput>,
    /// What stood before the typing in progress.
    pub typing_start: Option<CanvasSizeInput>,
}

/// The mathematical content of a [`CanvasDraft`].
#[verifier::ext_equal]
pub struct DraftState {
    pub current: SizeInput,
    pub undo: Seq<SizeInput>,
    pub typing_start: Option<SizeInput>,
}

impl View for CanvasDraft {
    type V = DraftState;

    open spec fn view(&self) -> DraftState {
        DraftState {
            current: self.current@,
            undo: self.undo@.map_values(|input: CanvasSizeInput| input@),
            typing_start: optional_input(self.typing_start),
        }
    }
}

impl DraftState {
    pub open spec fn wf(self) -> bool {
        self.undo.len() <= SIZE_UNDO_LIMIT
    }

    /// `previous` can be taken back to, unless nothing changed. The oldest
    /// change gives way.
    pub open spec fn remembering(self, previous: SizeInput) -> DraftState {
        if previous == self.current {
            self
        } else if self.undo.len() == SIZE_UNDO_LIMIT {
            DraftState { undo: self.undo.drop_first().push(previous), ..self }
        } else {
            DraftState { undo: self.undo.push(previous), ..self }
        }
    }

    pub open spec fn typing_finished(self) -> DraftState {
        match self.typing_start {
            Some(previous) => DraftState { typing_start: None, ..self }.remembering(previous),
            None => self,
        }
    }

    pub open spec fn typing(self, horizontal: bool, text: Seq<char>) -> DraftState {
        DraftState {
            current: SizeInput {
                width: if horizontal { text } else { self.current.width },
                height: if horizontal { self.current.height } else { text },
                source: None,
            },
            typing_start: match self.typing_start {
                Some(previous) => Some(previous),
                None => Some(self.current),
            },
            ..self
        }
    }

    pub open spec fn replaced(self, next: SizeInput) -> DraftState {
        let finished = self.typing_finished();
        DraftState { current: next, ..finished }.remembering(finished.current)
    }

    /// A preset keeps the orientation of the size that stands there.
    pub open spec fn with_preset(self, index: int, limit: u64) -> DraftState {
        let size = preset_size(index);
        let upright = self.current.denotes(limit) matches Ok(current) && current.width
            < current.height;
        self.replaced(
            input_for(
                if upright {
                    PixelSize { width: size.height, height: size.width }
                } else {
                    size
                },
                Some(PresetUse { preset: index as usize, multiplier: 1 }),
            ),
        )
    }

    pub open spec fn undoable(self) -> bool {
        self.undo.len() > 0 || (self.typing_start matches Some(start) && start != self.current)
    }

    pub open spec fn undone(self) -> DraftState {
        let finished = self.typing_finished();
        if finished.undo.len() > 0 {
            DraftState {
                current: finished.undo.last(),
                undo: finished.undo.drop_last(),
                ..finished
            }
        } else {
            finished
        }
    }
}

impl CanvasDraft {
    pub fn new(canvas: CanvasSpec) -> (r: Self)
        ensures
            r@.wf(),
            r@.undo == Seq::<SizeInput>::empty(),
            r@.typing_start is None,
            r@.current.wf(),
            r@.current.width == crate::decimal::decimal(canvas.width_px as nat),
            r@.current.height == crate::decimal::decimal(canvas.height_px as nat),
            match r@.current.source {
                Some(used) => used.multiplier == 1 && preset_size(used.preset as int) == landscape(
                    canvas,
                ),
                None => forall|i: int|
                    0 <= i < PRESET_COUNT ==> #[trigger] preset_size(i) != landscape(canvas),
            },
    {
        let r = CanvasDraft {
            current: CanvasSizeInput::new(canvas),
            undo: VecDeque::new(),
            typing_start: None,
        };
        assert(r@.undo =~= Seq::empty());
        r
    }

    pub fn remember(&mut self, previous: CanvasSizeInput)
        requires
            old(self)@.wf(),
        ensures
            final(self)@ == old(self)@.remembering(previous@),
            final(self)@.wf(),
    {
        if previous.same(&self.current) {
            return ;
        }
        if self.undo.len() == SIZE_UNDO_LIMIT {
            self.undo.pop_front();
        }
        self.undo.push_back(previous);
        assert(self@.undo =~= old(self)@.remembering(previous@).undo);
    }

    pub fn finish_typing(&mut self)
        requires
            old(self)@.wf(),
        ensures
            final(self)@ == old(self)@.typing_finished(),
            final(self)@.wf(),
    {
        if let Some(previous) = self.typing_start.take() {
            self.remember(previous);
        }
    }

    /// Types one of the two numbers. What is typed is no preset any more.
    pub fn type_dimension(&mut self, horizontal: bool, text: String)
        requires
            old(self)@.wf(),
        ensures
            final(self)@ == old(self)@.typing(horizontal, text@),
            final(self)@.wf(),
    {
        if self.typing_start.is_none() {
            self.typing_start = Some(self.current.copy());
        }
        if horizontal {
            self.current.width = text;
        } else {
            self.current.height = text;
        }
        self.current.source = None;
    }

    pub fn replace(&mut self, next: CanvasSizeInput)
        requires
            old(self)@.wf(),
        ensures
            final(self)@ == old(self)@.replaced(next@),
            final(self)@.wf(),
    {
        self.finish_typing();
        let mut previous = next;
        std::mem::swap(&mut previous, &mut self.current);
        self.remember(previous);
    }

    pub fn choose_preset(&mut self, index: usize, limit: u64)
        requires
            old(self)@.wf(),
            index < PRESET_COUNT,
        ensures
            final(self)@ == old(self)@.with_preset(index as int, limit),
            final(self)@.wf(),
    {
        let size = preset(index).size;
        let upright = match self.current.size(limit) {
            Ok(current) => current.width < current.height,
            Err(_) => false,
        };
        let turned = if upright {
            PixelSize { width: size.height, height: size.width }
        } else {
            size
        };
        self.replace(
            CanvasSizeInput::for_size(turned, Some(PresetUse { preset: index, multiplier: 1 })),
        );
    }

    pub fn multiply(&mut self, factor: u32, limit: u64)
        requires
            old(self)@.wf(),
        ensures
            final(self)@ == (match old(self)@.current.multiplied(factor, limit) {
                Some(next) => old(self)@.replaced(next),
                None => old(self)@,
            }),
            final(self)@.wf(),
    {
        if let Some(next) = self.current.multiplied(factor, limit) {
            self.replace(next);
        }
    }

    pub fn swap_axes(&mut self)
        requires
            old(self)@.wf(),
        ensures
            final(self)@ == old(self)@.replaced(old(self)@.current.swapped()),
            final(self)@.wf(),
    {
        let next = CanvasSizeInput {
            width: self.current.height.clone(),
            height: self.current.width.clone(),
            source: self.current.source,
        };
        self.replace(next);
    }

    pub fn can_undo(&self) -> (r: bool)
        ensures
            r == self@.undoable(),
    {
        self.undo.len() > 0 || match &self.typing_start {
            Some(start) => !start.same(&self.current),
            None => false,
        }
    }

    /// Takes back the last change of this dialog.
    pub fn undo(&mut self)
        requires
            old(self)@.wf(),
        ensures
            final(self)@ == old(self)@.undone(),
            final(self)@.wf(),
    {
        self.finish_typing();
        let ghost finished = self@;
        if let Some(previous) = self.undo.pop_back() {
            self.current = previous;
            assert(self@.undo =~= finished.undo.drop_last());
        } else {
            assert(self@.undo =~= finished.undo);
        }
    }
}

/// What applying the dialog asks for.
#[derive(Clone, Copy, Debug, PartialEq, Eq, Structural)]
pub enum PageChange {
    /// The size cannot be used.
    Invalid(SizeError),
    /// The page has that size already: only the appearance changes.
    Unchanged,
    Resize(PixelSize),
}

/// What applying a size to a page asks for.
pub fn page_change(input: &CanvasSizeInput, canvas: CanvasSpec, limit: u64) -> (r: PageChange)
    ensures
        r == (match input@.denotes(limit) {
            Err(error) => PageChange::Invalid(error),
            Ok(size) => if size.width == canvas.width_px && size.height == canvas.height_px {
                PageChange::Unchanged
            } else {
                PageChange::Resize(size)
            },
        }),
{
    match input.size(limit) {
        Err(error) => PageChange::Invalid(error),
        Ok(size) => {
            if size.width == canvas.width_px && size.height == canvas.height_px {
                PageChange::Unchanged
            } else {
                PageChange::Resize(size)
            }
        },
    }
}

/// The dialog's answer where the canvas took no command.
pub fn page_busy_message() -> (r: &'static str)
    ensures
        r@ == "현재 작업이 끝난 뒤 다시 적용하세요."@,
{
    "현재 작업이 끝난 뒤 다시 적용하세요."
}

/// Undo takes back a replacement that changed something.
pub proof fn undo_takes_back_a_replacement(draft: DraftState, next: SizeInput)
    requires
        draft.wf(),
        draft.typing_finished().current != next,
    ensures
        draft.replaced(next).undone().current == draft.current,
        draft.replaced(next).undoable(),
        draft.undo.len() < SIZE_UNDO_LIMIT && draft.typing_start is None
            ==> draft.replaced(next).undone() == draft,
{
    let finished = draft.typing_finished();
    assert(finished.current == draft.current);
    assert(finished.typing_start is None);
    assert(finished.undo.push(finished.current).drop_last() =~= finished.undo);
    assert(finished.undo.drop_first().push(finished.current).drop_last()
        =~= finished.undo.drop_first());
}

/// Everything typed in one go is taken back at once.
pub proof fn typing_is_one_change(draft: DraftState, first: Seq<char>, second: Seq<char>)
    requires
        draft.wf(),
        draft.typing_start is None,
        draft.typing(true, first).typing(false, second).current != draft.current,
    ensures
        draft.typing(true, first).typing(false, second).undone().current == draft.current,
{
}

/// Exchanging the axes twice gives back the size.
pub proof fn swapping_axes_twice_is_identity(input: SizeInput)
    ensures
        input.swapped().swapped() == input,
{
}

/// A size that was written out reads back as itself.
pub proof fn sizes_round_trip(size: PixelSize, source: Option<PresetUse>, limit: u64)
    requires
        fits(size, limit),
    ensures
        input_for(size, source).denotes(limit) == Ok::<_, SizeError>(size),
{
    crate::decimal::decimal_round_trip(size.width as nat);
    crate::decimal::decimal_round_trip(size.height as nat);
}

} // verus!
