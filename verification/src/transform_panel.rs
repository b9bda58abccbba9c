//! The transform panel: what its inputs denote and when it opens and closes.
use vstd::prelude::*;

use crate::transform::{AffineTransform, MilliPoint, ScalePpm, TransformProjection};

verus! {

/// Why an input denotes no transform.
#[derive(Clone, Copy, Debug, PartialEq, Eq, Structural)]
pub enum InputError {
    NotANumber,
    OutOfRange,
}

impl InputError {
    pub fn message(self) -> (r: &'static str)
        ensures
            self is NotANumber ==> r@ == "숫자를 입력하세요."@,
            self is OutOfRange ==> r@
                == "이동·배율·회전 범위를 확인하세요. 배율은 0보다 커야 합니다."@,
    {
        match self {
            InputError::NotANumber => "숫자를 입력하세요.",
            InputError::OutOfRange =>
                "이동·배율·회전 범위를 확인하세요. 배율은 0보다 커야 합니다.",
        }
    }
}

/// The inputs of the panel as rounded numbers: thousandths of a pixel, parts
/// per million and thousandths of a degree.
#[derive(Clone, Copy, Debug, PartialEq, Eq)]
pub struct TransformInputs {
    pub x: Result<i64, InputError>,
    pub y: Result<i64, InputError>,
    pub width: Result<i64, InputError>,
    pub height: Result<i64, InputError>,
    pub angle: Result<i64, InputError>,
    pub flip_x: bool,
    pub flip_y: bool,
}

pub const MIN_OFFSET_MILLI: i64 = -2_147_483_648_000;

pub const MAX_OFFSET_MILLI: i64 = 2_147_483_647_000;

/// A typed number within its range.
pub open spec fn ranged(value: Result<i64, InputError>, min: int, max: int) -> Result<
    i64,
    InputError,
> {
    match value {
        Ok(value) => if min <= value <= max {
            Ok(value)
        } else {
            Err(InputError::OutOfRange)
        },
        Err(error) => Err(error),
    }
}

fn within(value: Result<i64, InputError>, min: i64, max: i64) -> (r: Result<i64, InputError>)
    ensures
        r == ranged(value, min as int, max as int),
{
    match value {
        Ok(value) => {
            if min <= value && value <= max {
                Ok(value)
            } else {
                Err(InputError::OutOfRange)
            }
        },
        Err(error) => Err(error),
    }
}

impl TransformInputs {
    /// The transform of the inputs, or the first input that speaks against one.
    pub open spec fn denotes(self) -> Result<AffineTransform, InputError> {
        let offset_min = MIN_OFFSET_MILLI as int;
        let offset_max = MAX_OFFSET_MILLI as int;
        match (
            ranged(self.x, offset_min, offset_max),
            ranged(self.y, offset_min, offset_max),
            ranged(self.width, 1, u32::MAX as int),
            ranged(self.height, 1, u32::MAX as int),
            ranged(self.angle, i32::MIN as int, i32::MAX as int),
        ) {
            (Err(error), _, _, _, _) => Err(error),
            (_, Err(error), _, _, _) => Err(error),
            (_, _, Err(error), _, _) => Err(error),
            (_, _, _, Err(error), _) => Err(error),
            (_, _, _, _, Err(error)) => Err(error),
            (Ok(x), Ok(y), Ok(width), Ok(height), Ok(angle)) => Ok(
                AffineTransform {
                    offset_milli: MilliPoint { x, y },
                    scale_ppm: ScalePpm { x: width as u32, y: height as u32 },
                    rotation_millidegrees: angle as i32,
                    flip_x: self.flip_x,
                    flip_y: self.flip_y,
                },
            ),
        }
    }

    pub fn parse(&self) -> (r: Result<AffineTransform, InputError>)
        ensures
            r == self.denotes(),
    {
        let x: i64 = match within(self.x, MIN_OFFSET_MILLI, MAX_OFFSET_MILLI) {
            Ok(x) => x,
            Err(error) => {
                return Err(error);
            },
        };
        let y: i64 = match within(self.y, MIN_OFFSET_MILLI, MAX_OFFSET_MILLI) {
            Ok(y) => y,
            Err(error) => {
                return Err(error);
            },
        };
        let width: i64 = match within(self.width, 1, 4_294_967_295) {
            Ok(width) => width,
            Err(error) => {
                return Err(error);
            },
        };
        let height: i64 = match within(self.height, 1, 4_294_967_295) {
            Ok(height) => height,
            Err(error) => {
                return Err(error);
            },
        };
        let angle: i64 = match within(self.angle, -2_147_483_648, 2_147_483_647) {
            Ok(angle) => angle,
            Err(error) => {
                return Err(error);
            },
        };
        Ok(
            AffineTransform {
                offset_milli: MilliPoint { x, y },
                scale_ppm: ScalePpm { x: width as u32, y: height as u32 },
                rotation_millidegrees: angle as i32,
                flip_x: self.flip_x,
                flip_y: self.flip_y,
            },
        )
    }
}

/// What the panel remembers between two projections.
#[derive(Clone, Copy, Debug, PartialEq, Eq, Structural)]
pub struct TransformPanel {
    pub previous: Option<TransformProjection>,
    pub started: bool,
    pub dirty: bool,
}

/// What a new projection means for the panel.
#[derive(Clone, Copy, Debug, PartialEq, Eq, Structural)]
pub enum PanelChange {
    Nothing,
    /// Show the draft; bring the panel forward where it is the first one.
    Show { activate: bool, refresh: bool },
    /// The draft is gone for good: only that closes the panel.
    Close,
    /// Ask for a draft.
    Begin,
}

impl TransformPanel {
    pub open spec fn change(self, current: Option<TransformProjection>) -> PanelChange {
        match current {
            Some(transform) => PanelChange::Show {
                activate: self.previous is None,
                refresh: match self.previous {
                    Some(last) => last.generation != transform.generation || last.transform
                        != transform.transform,
                    None => true,
                },
            },
            None => if self.previous is Some {
                PanelChange::Close
            } else if !self.started {
                PanelChange::Begin
            } else {
                PanelChange::Nothing
            },
        }
    }

    pub fn new() -> (r: Self)
        ensures
            r == (TransformPanel { previous: None, started: false, dirty: false }),
    {
        TransformPanel { previous: None, started: false, dirty: false }
    }

    /// Takes a new projection of the canvas.
    pub fn observe(&mut self, current: Option<TransformProjection>) -> (r: PanelChange)
        ensures
            r == old(self).change(current),
            *final(self) == (match r {
                PanelChange::Show { activate, refresh } => TransformPanel {
                    previous: current,
                    started: true,
                    dirty: old(self).dirty && !refresh,
                },
                PanelChange::Begin => TransformPanel { started: true, ..*old(self) },
                _ => *old(self),
            }),
    {
        match current {
            Some(transform) => {
                let activate = self.previous.is_none();
                let refresh = match self.previous {
                    Some(last) => last.generation != transform.generation || last.transform
                        != transform.transform,
                    None => true,
                };
                self.previous = current;
                self.started = true;
                if refresh {
                    self.dirty = false;
                }
                PanelChange::Show { activate, refresh }
            },
            None => {
                if self.previous.is_some() {
                    PanelChange::Close
                } else if !self.started {
                    self.started = true;
                    PanelChange::Begin
                } else {
                    PanelChange::Nothing
                }
            },
        }
    }

    /// The shown draft may be committed: it was confirmed and nothing was typed
    /// since.
    pub fn can_commit(&self, current: Option<TransformProjection>, busy: bool) -> (r: bool)
        ensures
            r == ((current matches Some(transform) && transform.can_commit) && !busy
                && !self.dirty),
    {
        let confirmed = match current {
            Some(transform) => transform.can_commit,
            None => false,
        };
        confirmed && !busy && !self.dirty
    }

    /// Cancelling closes the panel where no draft can be taken away later.
    pub fn closes_on_cancel(current: Option<TransformProjection>) -> (r: bool)
        ensures
            r == (current is None),
    {
        current.is_none()
    }
}

/// The panel's answer where the canvas took no command.
pub fn panel_busy_message() -> (r: &'static str)
    ensures
        r@ == "현재 작업이 끝난 뒤 다시 시도하세요."@,
{
    "현재 작업이 끝난 뒤 다시 시도하세요."
}

/// Typing withdraws the right to commit until the draft is confirmed again.
pub proof fn typed_values_are_never_committed_unseen(
    panel: TransformPanel,
    current: TransformProjection,
)
    requires
        panel.dirty,
        panel.previous == Some(current),
    ensures
        panel.change(Some(current)) == (PanelChange::Show { activate: false, refresh: false }),
{
}

} // verus!
