//! The patch shown beside the cursor while a colour is picked. Neither the
//! candidate nor its pixels are editor commands.
use vstd::prelude::*;

use crate::canvas::{ActiveCanvas, BridgeFacts, CanvasState};
use crate::document::{PixelPoint, Rgba};
use crate::effect::InkEffect;
use crate::picker::{PickerGesture, PickerRead};
use crate::stroke_pipeline::GestureState;

verus! {

/// The time between two reads of a patch, in nanoseconds.
pub const PREVIEW_INTERVAL_NS: u128 = 33_000_000;

/// The width and height of a patch.
pub const PATCH_SIZE: usize = 13;

/// What a read of a patch gave. Numbers are the host's frames and messages.
#[derive(Clone, Copy, Debug, PartialEq, Eq, Structural)]
pub enum PreviewAnswer {
    /// A transparent pixel is no candidate; its neighbours are still shown.
    Frame { frame: u64, candidate: Option<Rgba> },
    Failed(u64),
    Disconnected,
}

impl PreviewAnswer {
    /// The message beside the patch, where it is not the host's own.
    pub fn notice(self) -> (r: Option<&'static str>)
        ensures
            match self {
                PreviewAnswer::Frame { frame, candidate } => match candidate {
                    Some(_) => r is None,
                    None => r matches Some(text) && text@ == "투명한 픽셀"@,
                },
                PreviewAnswer::Failed(_) => r is None,
                PreviewAnswer::Disconnected => r matches Some(text) && text@
                    == "색상 미리보기를 읽지 못했습니다."@,
            },
    {
        match self {
            PreviewAnswer::Frame { candidate, .. } => match candidate {
                Some(_) => None,
                None => Some("투명한 픽셀"),
            },
            PreviewAnswer::Failed(_) => None,
            PreviewAnswer::Disconnected => Some("색상 미리보기를 읽지 못했습니다."),
        }
    }
}

/// The reads of a patch that are under way.
#[derive(Clone, Copy, Debug, PartialEq, Eq, Structural)]
pub struct PickerPreview {
    pub job: Option<PickerRead>,
    pub submitted_ns: Option<u128>,
    /// The answer to the read that the gesture names as sampled.
    pub shown: Option<PreviewAnswer>,
}

/// What the preview depends on beside the canvas.
#[derive(Clone, Copy, Debug, PartialEq, Eq, Structural)]
pub struct PreviewFacts {
    pub viewport_revision: u64,
    /// The answer to the read under way, if it came.
    pub answer: Option<PreviewAnswer>,
    pub writer_pending: usize,
    pub now_ns: u128,
}

/// What the cursor shows. The host adds where it is.
#[derive(Clone, Copy, Debug, PartialEq, Eq, Structural)]
pub struct PreviewSnapshot {
    pub pending: bool,
    pub answer: Option<PreviewAnswer>,
}

#[derive(Clone, Copy, Debug, PartialEq, Eq, Structural)]
pub enum PreviewNext {
    Nothing,
    /// Wake the canvas after this time; without a timer, submit the read now.
    Wait { delay_ns: u128, read: PickerRead },
    Submit(PickerRead),
}

impl PickerPreview {
    pub open spec fn idle() -> PickerPreview {
        PickerPreview { job: None, submitted_ns: None, shown: None }
    }

    pub fn new() -> (r: Self)
        ensures
            r == PickerPreview::idle(),
    {
        PickerPreview { job: None, submitted_ns: None, shown: None }
    }

    /// The rest of the interval since the last read.
    pub open spec fn delay(self, now_ns: u128) -> int {
        match self.submitted_ns {
            Some(submitted) => {
                let elapsed = if now_ns >= submitted { now_ns - submitted } else { 0 };
                if elapsed >= PREVIEW_INTERVAL_NS { 0 } else { PREVIEW_INTERVAL_NS - elapsed }
            },
            None => 0,
        }
    }

    fn remaining_delay(&self, now_ns: u128) -> (r: u128)
        ensures
            r == self.delay(now_ns),
    {
        match self.submitted_ns {
            Some(submitted) => {
                let elapsed: u128 = now_ns.saturating_sub(submitted);
                PREVIEW_INTERVAL_NS.saturating_sub(elapsed)
            },
            None => 0,
        }
    }

    /// Takes the writer's answer to a submitted read.
    pub fn submitted(&mut self, read: PickerRead, accepted: bool, now_ns: u128)
        ensures
            *final(self) == (if accepted {
                PickerPreview { job: Some(read), submitted_ns: Some(now_ns), ..*old(self) }
            } else {
                *old(self)
            }),
    {
        if accepted {
            self.job = Some(read);
            self.submitted_ns = Some(now_ns);
        }
    }
}

/// An answer belongs to the gesture that still asks for exactly that read.
pub open spec fn answer_fits(picker: Option<PickerGesture>, job: PickerRead) -> bool {
    picker matches Some(gesture) && !gesture.released && gesture.latest == job
}

/// The shown patch does not answer the latest position.
pub open spec fn preview_pending(gesture: PickerGesture) -> bool {
    gesture.sampled != Some(gesture.latest)
}

impl<P, D, A> CanvasState<P, D, A> {
    /// The pick in progress has lost its contact or its view.
    pub open spec fn preview_stale(self, bridge: BridgeFacts, viewport_revision: u64) -> bool {
        self.stroke.gesture.picker matches Some(gesture) && (!self.owns_pick(gesture.token, bridge)
            || gesture.viewport_revision != viewport_revision)
    }

    pub open spec fn preview_refreshed(self, bridge: BridgeFacts, viewport_revision: u64) -> Self {
        if self.preview_stale(bridge, viewport_revision) {
            self.picker_given_up()
        } else {
            self
        }
    }

    /// The answer to the read under way is taken in.
    pub open spec fn preview_answered(self, preview: PickerPreview, answer: Option<PreviewAnswer>) -> (
        Self,
        PickerPreview,
    ) {
        match (preview.job, answer) {
            (Some(job), Some(answer)) => {
                let done = PickerPreview { job: None, ..preview };
                if answer_fits(self.stroke.gesture.picker, job) {
                    (
                        self.with_gesture(
                            GestureState {
                                picker: Some(
                                    PickerGesture {
                                        sampled: Some(job),
                                        ..self.stroke.gesture.picker->0
                                    },
                                ),
                                ..self.stroke.gesture
                            },
                        ),
                        PickerPreview { shown: Some(answer), ..done },
                    )
                } else {
                    (self, done)
                }
            },
            _ => (self, preview),
        }
    }

    /// What is shown and read next for the gesture as it stands.
    pub open spec fn preview_next(self, preview: PickerPreview, facts: PreviewFacts) -> (
        Option<PreviewSnapshot>,
        PreviewNext,
    ) {
        match self.stroke.gesture.picker {
            None => (None, PreviewNext::Nothing),
            Some(gesture) => if gesture.released {
                (None, PreviewNext::Nothing)
            } else {
                let pending = preview_pending(gesture);
                (
                    Some(
                        PreviewSnapshot {
                            pending,
                            answer: if pending { None } else { preview.shown },
                        },
                    ),
                    if !pending || preview.job is Some || self.stroke.backlog.len() > 0
                        || facts.writer_pending != 0 {
                        PreviewNext::Nothing
                    } else if preview.delay(facts.now_ns) > 0 {
                        PreviewNext::Wait {
                            delay_ns: preview.delay(facts.now_ns) as u128,
                            read: gesture.latest,
                        }
                    } else {
                        PreviewNext::Submit(gesture.latest)
                    },
                )
            },
        }
    }

    /// A released pick shows no patch any more.
    pub open spec fn preview_hidden(self) -> Self {
        if self.stroke.gesture.picker matches Some(gesture) && gesture.released {
            self.with_effect(InkEffect::ClearPickerSnapshot)
        } else {
            self
        }
    }
}

impl<P: Copy, D, A> ActiveCanvas<P, D, A> {
    fn take_preview_answer(&mut self, preview: &mut PickerPreview, answer: Option<PreviewAnswer>)
        ensures
            (final(self)@, *final(preview)) == old(self)@.preview_answered(*old(preview), answer),
    {
        if let (Some(job), Some(answer)) = (preview.job, answer) {
            preview.job = None;
            if let Some(gesture) = self.stroke.gesture.picker {
                if !gesture.released && gesture.latest == job {
                    self.stroke.gesture.picker = Some(
                        PickerGesture { sampled: Some(job), ..gesture },
                    );
                    preview.shown = Some(answer);
                }
            }
        }
    }

    /// Refreshes the patch: a pick that lost its contact or its view is given
    /// up, an answer is kept only for the read that is still asked for, and a
    /// new read waits for its turn.
    pub fn update_picker_preview(
        &mut self,
        preview: &mut PickerPreview,
        bridge: BridgeFacts,
        facts: PreviewFacts,
    ) -> (r: (Option<PreviewSnapshot>, PreviewNext))
        ensures
            ({
                let kept = old(self)@.preview_refreshed(bridge, facts.viewport_revision);
                let (answered, state) = kept.preview_answered(*old(preview), facts.answer);
                &&& final(self)@ == answered.preview_hidden()
                &&& *final(preview) == state
                &&& r == answered.preview_next(state, facts)
            }),
    {
        if let Some(gesture) = self.stroke.gesture.picker {
            if !self.picker_token_valid(gesture.token, bridge) || gesture.viewport_revision
                != facts.viewport_revision {
                self.stroke.cancel_picker();
            }
        }
        self.take_preview_answer(preview, facts.answer);
        let gesture = match self.stroke.gesture.picker {
            None => {
                return (None, PreviewNext::Nothing);
            },
            Some(gesture) => gesture,
        };
        if gesture.released {
            self.stroke.effects.push(InkEffect::ClearPickerSnapshot);
            return (None, PreviewNext::Nothing);
        }
        let pending = match gesture.sampled {
            Some(sampled) => sampled != gesture.latest,
            None => true,
        };
        let snapshot = PreviewSnapshot {
            pending,
            answer: if pending {
                None
            } else {
                preview.shown
            },
        };
        if !pending || preview.job.is_some() || self.stroke.pending_materializations.len() > 0
            || facts.writer_pending != 0 {
            return (Some(snapshot), PreviewNext::Nothing);
        }
        let delay_ns: u128 = preview.remaining_delay(facts.now_ns);
        if delay_ns > 0 {
            return (Some(snapshot), PreviewNext::Wait { delay_ns, read: gesture.latest });
        }
        (Some(snapshot), PreviewNext::Submit(gesture.latest))
    }
}

/// One lazy timer: at most one deadline is outstanding.
#[derive(Clone, Copy, Debug, PartialEq, Eq, Structural)]
pub struct PickerWake {
    pub pending: bool,
}

impl PickerWake {
    pub fn new() -> (r: Self)
        ensures
            !r.pending,
    {
        PickerWake { pending: false }
    }

    /// The delay to hand to the timer, unless one is outstanding.
    pub fn schedule(&mut self, delay_ns: u128) -> (r: Option<u128>)
        ensures
            r == (if old(self).pending { None } else { Some(delay_ns) }),
            final(self).pending,
    {
        if self.pending {
            return None;
        }
        self.pending = true;
        Some(delay_ns)
    }

    /// The deadline has passed, or the timer did not take it.
    pub fn settle(&mut self)
        ensures
            !final(self).pending,
    {
        self.pending = false;
    }
}

/// A coordinate moved by a few pixels, where it still exists.
pub open spec fn shifted(value: i32, by: int) -> Option<i32> {
    if i32::MIN <= value + by <= i32::MAX { Some((value + by) as i32) } else { None }
}

/// The pixel at a place of the patch around `center`, row by row.
pub open spec fn patch_point(center: PixelPoint, place: int) -> Option<PixelPoint> {
    match (shifted(center.x, place % 13 - 6), shifted(center.y, place / 13 - 6)) {
        (Some(x), Some(y)) => Some(PixelPoint { x, y }),
        _ => None,
    }
}

/// The pixels of the patch around a point, row by row. Pixels beyond the
/// coordinate range are left out.
pub fn patch_points(center: PixelPoint) -> (r: Vec<Option<PixelPoint>>)
    ensures
        r@ == Seq::new(169, |place: int| patch_point(center, place)),
{
    let mut points: Vec<Option<PixelPoint>> = Vec::new();
    let mut row: usize = 0;
    while row < PATCH_SIZE
        invariant
            row <= 13,
            points@ == Seq::new((row * 13) as nat, |place: int| patch_point(center, place)),
        decreases 13 - row,
    {
        let y = center.y.checked_add(row as i32 - 6);
        let mut column: usize = 0;
        while column < PATCH_SIZE
            invariant
                row < 13,
                column <= 13,
                y == shifted(center.y, row - 6),
                points@ == Seq::new(
                    (row * 13 + column) as nat,
                    |place: int| patch_point(center, place),
                ),
            decreases 13 - column,
        {
            let x = center.x.checked_add(column as i32 - 6);
            let point = match (x, y) {
                (Some(x), Some(y)) => Some(PixelPoint { x, y }),
                _ => None,
            };
            assert((row * 13 + column) % 13 == column) by (nonlinear_arith)
                requires
                    row < 13,
                    column < 13,
            ;
            assert((row * 13 + column) / 13 == row) by (nonlinear_arith)
                requires
                    row < 13,
                    column < 13,
            ;
            assert(point == patch_point(center, row * 13 + column));
            points.push(point);
            assert(points@ =~= Seq::new(
                (row * 13 + column + 1) as nat,
                |place: int| patch_point(center, place),
            ));
            column = column + 1;
        }
        assert(row * 13 + 13 == (row + 1) * 13);
        row = row + 1;
    }
    points
}

/// The place of the picked pixel itself.
pub fn patch_center() -> (r: usize)
    ensures
        r == 84,
        r as int % 13 - 6 == 0,
        r as int / 13 - 6 == 0,
{
    84
}

/// The bytes of a pixel; one that was not read is transparent.
pub open spec fn pixel_bytes(pixel: Option<Rgba>) -> Seq<u8> {
    match pixel {
        Some(pixel) => seq![pixel.red, pixel.green, pixel.blue, pixel.alpha],
        None => seq![0u8, 0u8, 0u8, 0u8],
    }
}

pub open spec fn patch_bytes(pixels: Seq<Option<Rgba>>) -> Seq<u8>
    decreases pixels.len(),
{
    if pixels.len() == 0 {
        Seq::empty()
    } else {
        patch_bytes(pixels.drop_last()) + pixel_bytes(pixels.last())
    }
}

/// The bytes of a read patch, in the order of its points.
pub fn sample_patch(pixels: &Vec<Option<Rgba>>) -> (r: Vec<u8>)
    ensures
        r@ == patch_bytes(pixels@),
{
    let mut bytes: Vec<u8> = Vec::new();
    let mut index: usize = 0;
    assert(pixels@.take(0) =~= Seq::empty());
    while index < pixels.len()
        invariant
            index <= pixels@.len(),
            bytes@ == patch_bytes(pixels@.take(index as int)),
        decreases pixels@.len() - index,
    {
        let ghost before = bytes@;
        assert(pixels@.take(index + 1).drop_last() =~= pixels@.take(index as int));
        let pixel = match pixels[index] {
            Some(pixel) => pixel,
            None => Rgba { red: 0, green: 0, blue: 0, alpha: 0 },
        };
        bytes.push(pixel.red);
        bytes.push(pixel.green);
        bytes.push(pixel.blue);
        bytes.push(pixel.alpha);
        assert(bytes@ =~= before + pixel_bytes(pixels@[index as int]));
        index = index + 1;
    }
    assert(pixels@.take(index as int) =~= pixels@);
    bytes
}

/// A patch that was read elsewhere is never shown as the cursor's candidate.
pub proof fn shown_patches_answer_the_cursor<P, D, A>(
    state: CanvasState<P, D, A>,
    preview: PickerPreview,
    facts: PreviewFacts,
)
    ensures
        state.preview_next(preview, facts).0 matches Some(snapshot) ==> (snapshot.answer is Some
            ==> (state.stroke.gesture.picker matches Some(gesture) && gesture.sampled == Some(
            gesture.latest,
        ))),
{
}

/// At most one read is under way, and two reads are an interval apart.
pub proof fn reads_keep_their_distance<P, D, A>(
    state: CanvasState<P, D, A>,
    preview: PickerPreview,
    facts: PreviewFacts,
)
    ensures
        state.preview_next(preview, facts).1 is Submit ==> preview.job is None && (
        preview.submitted_ns matches Some(submitted) ==> submitted + PREVIEW_INTERVAL_NS
            <= facts.now_ns),
{
}

} // verus!
