//! Edit commands and the messages of refused gestures.
use vstd::prelude::*;

use crate::document::{LayerTreeNodeId, PixelPoint, PixelSize};
use crate::drawing::EditSource;
use crate::input::PickSequence;
use crate::transform::TransformCommand;

verus! {

/// An edit of the artwork. `Artwork` stands for every edit whose shape or
/// pixels the host keeps under the given number.
#[derive(Clone, Copy, Debug, PartialEq, Eq, Structural)]
pub enum EditCommand {
    FreeTransform(TransformCommand),
    PasteSelection,
    PickColor { point: PixelPoint, source: EditSource },
    PickDisplayColor {
        point: PixelPoint,
        solo: Option<LayerTreeNodeId>,
        input_sequence: PickSequence,
    },
    /// A move of the selected pixels by whole pixels.
    Transform { offset: PixelPoint, edit: u64 },
    ResizePage { size: PixelSize },
    CropPageToSelection,
    ClearSelection,
    Artwork(u64),
}

impl EditCommand {
    /// Reads that change nothing but the selected colour.
    pub open spec fn picks(self) -> bool {
        self is PickColor || self is PickDisplayColor
    }

    pub fn is_pick(&self) -> (r: bool)
        ensures
            r == self.picks(),
    {
        matches!(self, EditCommand::PickColor { .. } | EditCommand::PickDisplayColor { .. })
    }
}

/// Why a native gesture became no edit. `Refused` carries the host's number
/// for a message of the gesture itself.
#[derive(Clone, Copy, Debug, PartialEq, Eq, Structural)]
pub enum GestureError {
    TargetLayerChanged,
    InputInterrupted,
    Overlapping,
    EraseOnLockedAlpha,
    Refused(u64),
}

impl GestureError {
    /// The message for the reasons that the pipeline itself gives.
    pub fn message(self) -> (r: Option<String>)
        ensures
            self is Refused <==> r is None,
            self is TargetLayerChanged ==> r->0@
                == "대상 레이어가 변경되어 선택 제스처를 취소했습니다."@,
            self is InputInterrupted ==> r->0@
                == "입력 연속성이 끊겨 선택 제스처를 취소했습니다."@,
            self is Overlapping ==> r->0@
                == "여러 선택 제스처가 겹쳐 적용하지 않았습니다. 다시 시도하세요."@,
            self is EraseOnLockedAlpha ==> r->0@
                == "투명도 잠금 중에는 지울 수 없습니다. 잠금을 해제하세요."@,
    {
        let text = match self {
            GestureError::TargetLayerChanged =>
                "대상 레이어가 변경되어 선택 제스처를 취소했습니다.",
            GestureError::InputInterrupted =>
                "입력 연속성이 끊겨 선택 제스처를 취소했습니다.",
            GestureError::Overlapping =>
                "여러 선택 제스처가 겹쳐 적용하지 않았습니다. 다시 시도하세요.",
            GestureError::EraseOnLockedAlpha =>
                "투명도 잠금 중에는 지울 수 없습니다. 잠금을 해제하세요.",
            GestureError::Refused(_) => {
                return None;
            },
        };
        Some(text.to_owned())
    }
}

} // verus!
