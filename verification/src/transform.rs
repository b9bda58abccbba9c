//! Free transforms: exact integer parameters and what a drag may make of them.
use vstd::prelude::*;

use crate::document::{PixelPoint, PixelSize};

verus! {

/// A pair of thousandths of a document pixel.
#[derive(Clone, Copy, Debug, PartialEq, Eq, Hash, Structural)]
pub struct MilliPoint {
    pub x: i64,
    pub y: i64,
}

/// A pair of scale factors in parts per million.
#[derive(Clone, Copy, Debug, PartialEq, Eq, Hash, Structural)]
pub struct ScalePpm {
    pub x: u32,
    pub y: u32,
}

#[derive(Clone, Copy, Debug, PartialEq, Eq, Hash, Structural)]
pub struct AffineTransform {
    pub offset_milli: MilliPoint,
    pub scale_ppm: ScalePpm,
    pub rotation_millidegrees: i32,
    pub flip_x: bool,
    pub flip_y: bool,
}

/// The outline of a transformed selection, clockwise from its first corner.
#[derive(Clone, Copy, Debug, PartialEq, Eq, Hash, Structural)]
pub struct Corners {
    pub first: MilliPoint,
    pub second: MilliPoint,
    pub third: MilliPoint,
    pub fourth: MilliPoint,
}

/// A transform draft as the worker last confirmed it.
#[derive(Clone, Copy, Debug, PartialEq, Eq, Hash, Structural)]
pub struct TransformProjection {
    pub generation: u64,
    pub transform: AffineTransform,
    pub origin: PixelPoint,
    pub size: PixelSize,
    pub corners_milli: Corners,
    pub can_commit: bool,
}

#[derive(Clone, Copy, Debug, PartialEq, Eq, Hash, Structural)]
pub enum TransformCommand {
    Begin,
    Paste,
    Preview(AffineTransform),
    Commit { generation: u64 },
    Cancel,
}

/// The rectangle that encloses a selection.
#[derive(Clone, Copy, Debug, PartialEq, Eq, Hash, Structural)]
pub struct SelectionBounds {
    pub origin: PixelPoint,
    pub size: PixelSize,
}

/// Why a drag or a typed value gives no transform.
#[derive(Clone, Copy, Debug, PartialEq, Eq, Hash, Structural)]
pub enum TransformRefusal {
    InvalidPoint,
    MoveOutOfRange,
    ScaleThroughPivot,
    AngleAtPivot,
}

impl TransformRefusal {
    pub fn message(self) -> (r: String)
        ensures
            self is InvalidPoint ==> r@ == "변형 좌표가 유효하지 않습니다."@,
            self is MoveOutOfRange ==> r@ == "이동 거리가 허용 범위를 벗어났습니다."@,
            self is ScaleThroughPivot ==> r@
                == "중심을 넘는 크기 조절은 적용하지 않습니다. 반전 도구를 사용하세요."@,
            self is AngleAtPivot ==> r@ == "회전 중심에서는 각도를 정할 수 없습니다."@,
    {
        let text = match self {
            TransformRefusal::InvalidPoint => "변형 좌표가 유효하지 않습니다.",
            TransformRefusal::MoveOutOfRange => "이동 거리가 허용 범위를 벗어났습니다.",
            TransformRefusal::ScaleThroughPivot =>
                "중심을 넘는 크기 조절은 적용하지 않습니다. 반전 도구를 사용하세요.",
            TransformRefusal::AngleAtPivot => "회전 중심에서는 각도를 정할 수 없습니다.",
        };
        text.to_owned()
    }
}

/// The transform that changes nothing.
pub open spec fn identity() -> AffineTransform {
    AffineTransform {
        offset_milli: MilliPoint { x: 0, y: 0 },
        scale_ppm: ScalePpm { x: 1_000_000, y: 1_000_000 },
        rotation_millidegrees: 0,
        flip_x: false,
        flip_y: false,
    }
}

impl Default for AffineTransform {
    fn default() -> (r: Self)
        ensures
            r == identity(),
    {
        AffineTransform {
            offset_milli: MilliPoint { x: 0, y: 0 },
            scale_ppm: ScalePpm { x: 1_000_000, y: 1_000_000 },
            rotation_millidegrees: 0,
            flip_x: false,
            flip_y: false,
        }
    }
}

/// Offsets and corners stay within the drawable plane, in thousandths.
pub const DRAWABLE_LIMIT_MILLI: i64 = 4_294_967_296_000;

/// The largest single drag, in thousandths.
pub const DRAG_LIMIT_MILLI: i64 = 4_294_967_295_000;

pub open spec fn drawable(point: MilliPoint) -> bool {
    -DRAWABLE_LIMIT_MILLI <= point.x <= DRAWABLE_LIMIT_MILLI && -DRAWABLE_LIMIT_MILLI <= point.y
        <= DRAWABLE_LIMIT_MILLI
}

fn is_drawable(point: MilliPoint) -> (r: bool)
    ensures
        r == drawable(point),
{
    -DRAWABLE_LIMIT_MILLI <= point.x && point.x <= DRAWABLE_LIMIT_MILLI && -DRAWABLE_LIMIT_MILLI
        <= point.y && point.y <= DRAWABLE_LIMIT_MILLI
}

impl TransformProjection {
    /// A draft whose handles can be placed: it has an area, a scale, and lies
    /// within the drawable plane.
    pub open spec fn has_handles(self) -> bool {
        &&& self.size.width != 0 && self.size.height != 0
        &&& self.transform.scale_ppm.x != 0 && self.transform.scale_ppm.y != 0
        &&& drawable(self.transform.offset_milli)
        &&& drawable(self.corners_milli.first) && drawable(self.corners_milli.second)
        &&& drawable(self.corners_milli.third) && drawable(self.corners_milli.fourth)
    }

    pub fn can_be_dragged(&self) -> (r: bool)
        ensures
            r == self.has_handles(),
    {
        self.size.width != 0 && self.size.height != 0 && self.transform.scale_ppm.x != 0
            && self.transform.scale_ppm.y != 0 && is_drawable(self.transform.offset_milli)
            && is_drawable(self.corners_milli.first) && is_drawable(self.corners_milli.second)
            && is_drawable(self.corners_milli.third) && is_drawable(self.corners_milli.fourth)
    }

    /// The draft that stands for an untouched selection until the worker
    /// confirms one. It cannot be committed.
    pub open spec fn untouched(bounds: SelectionBounds) -> TransformProjection {
        let left = (bounds.origin.x * 1000) as i64;
        let top = (bounds.origin.y * 1000) as i64;
        let right = ((bounds.origin.x + bounds.size.width) * 1000) as i64;
        let bottom = ((bounds.origin.y + bounds.size.height) * 1000) as i64;
        TransformProjection {
            generation: 0,
            transform: identity(),
            origin: bounds.origin,
            size: bounds.size,
            corners_milli: Corners {
                first: MilliPoint { x: left, y: top },
                second: MilliPoint { x: right, y: top },
                third: MilliPoint { x: right, y: bottom },
                fourth: MilliPoint { x: left, y: bottom },
            },
            can_commit: false,
        }
    }

    pub fn for_selection(bounds: SelectionBounds) -> (r: TransformProjection)
        ensures
            r == TransformProjection::untouched(bounds),
    {
        let left: i64 = bounds.origin.x as i64 * 1000;
        let top: i64 = bounds.origin.y as i64 * 1000;
        let right: i64 = left + bounds.size.width as i64 * 1000;
        let bottom: i64 = top + bounds.size.height as i64 * 1000;
        TransformProjection {
            generation: 0,
            transform: AffineTransform::default(),
            origin: bounds.origin,
            size: bounds.size,
            corners_milli: Corners {
                first: MilliPoint { x: left, y: top },
                second: MilliPoint { x: right, y: top },
                third: MilliPoint { x: right, y: bottom },
                fourth: MilliPoint { x: left, y: bottom },
            },
            can_commit: false,
        }
    }
}

impl AffineTransform {
    pub open spec fn offset_moved(self, x: int, y: int) -> AffineTransform {
        AffineTransform {
            offset_milli: MilliPoint {
                x: (self.offset_milli.x + x) as i64,
                y: (self.offset_milli.y + y) as i64,
            },
            ..self
        }
    }

    pub open spec fn move_fits(self, x: int, y: int) -> bool {
        &&& -DRAG_LIMIT_MILLI <= x <= DRAG_LIMIT_MILLI
        &&& -DRAG_LIMIT_MILLI <= y <= DRAG_LIMIT_MILLI
        &&& i64::MIN <= self.offset_milli.x + x <= i64::MAX
        &&& i64::MIN <= self.offset_milli.y + y <= i64::MAX
    }

    /// Moves by whole thousandths of a pixel. The exact starting offset is
    /// kept even far from the origin.
    pub fn moved(self, x: i64, y: i64) -> (r: Result<AffineTransform, TransformRefusal>)
        ensures
            self.move_fits(x as int, y as int) ==> r == Ok::<_, TransformRefusal>(
                self.offset_moved(x as int, y as int),
            ),
            !self.move_fits(x as int, y as int) ==> r == Err::<AffineTransform, _>(
                TransformRefusal::MoveOutOfRange,
            ),
    {
        if x < -DRAG_LIMIT_MILLI || x > DRAG_LIMIT_MILLI || y < -DRAG_LIMIT_MILLI || y
            > DRAG_LIMIT_MILLI {
            return Err(TransformRefusal::MoveOutOfRange);
        }
        let next_x: i64 = match self.offset_milli.x.checked_add(x) {
            Some(value) => value,
            None => {
                return Err(TransformRefusal::MoveOutOfRange);
            },
        };
        let next_y: i64 = match self.offset_milli.y.checked_add(y) {
            Some(value) => value,
            None => {
                return Err(TransformRefusal::MoveOutOfRange);
            },
        };
        Ok(AffineTransform { offset_milli: MilliPoint { x: next_x, y: next_y }, ..self })
    }

    /// Takes new scale factors. Factors that cross the pivot are refused;
    /// flips stay explicit.
    pub fn scaled(self, x_ppm: i64, y_ppm: i64) -> (r: Result<AffineTransform, TransformRefusal>)
        ensures
            1 <= x_ppm <= u32::MAX && 1 <= y_ppm <= u32::MAX ==> r == Ok::<_, TransformRefusal>(
                AffineTransform {
                    scale_ppm: ScalePpm { x: x_ppm as u32, y: y_ppm as u32 },
                    ..self
                },
            ),
            !(1 <= x_ppm <= u32::MAX && 1 <= y_ppm <= u32::MAX) ==> r == Err::<
                AffineTransform,
                _,
            >(TransformRefusal::ScaleThroughPivot),
    {
        if x_ppm < 1 || x_ppm > 4_294_967_295 || y_ppm < 1 || y_ppm > 4_294_967_295 {
            return Err(TransformRefusal::ScaleThroughPivot);
        }
        Ok(
            AffineTransform {
                scale_ppm: ScalePpm { x: x_ppm as u32, y: y_ppm as u32 },
                ..self
            },
        )
    }

    /// Takes a new angle, brought into one full turn.
    pub fn rotated(self, millidegrees: i64) -> (r: AffineTransform)
        ensures
            r == (AffineTransform {
                rotation_millidegrees: (millidegrees as int % 360_000) as i32,
                ..self
            }),
            0 <= r.rotation_millidegrees < 360_000,
    {
        let remainder: i64 = match millidegrees.checked_rem_euclid(360_000) {
            Some(value) => value,
            None => 0,
        };
        AffineTransform { rotation_millidegrees: remainder as i32, ..self }
    }
}

/// A move and the opposite move give the transform back.
pub proof fn opposite_moves_cancel(transform: AffineTransform, x: int, y: int)
    requires
        transform.move_fits(x, y),
    ensures
        transform.offset_moved(x, y).move_fits(-x, -y),
        transform.offset_moved(x, y).offset_moved(-x, -y) == transform,
{
}

} // verus!
