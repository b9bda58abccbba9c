//! Colour picking: which read a gesture stands for and who owns its answer.
use vstd::prelude::*;

use crate::document::{LayerId, LayerTreeNodeId, PixelPoint};
use crate::drawing::EditSource;

verus! {

/// The contact that a pick belongs to.
#[derive(Clone, Copy, Debug, PartialEq, Eq, Hash, Structural)]
pub struct PickerToken {
    pub device: u64,
    pub begin: u64,
    pub epoch: u64,
}

/// Where a pick reads: the artwork itself, or what the canvas displays.
#[derive(Clone, Copy, Debug, PartialEq, Eq, Hash, Structural)]
pub enum PickerSource {
    Artwork(EditSource),
    Display(Option<LayerTreeNodeId>),
}

/// One exact read.
#[derive(Clone, Copy, Debug, PartialEq, Eq, Hash, Structural)]
pub struct PickerRead {
    pub token: PickerToken,
    pub point: PixelPoint,
    pub target: LayerId,
    pub source: PickerSource,
}

/// A pick in progress. `sampled` is the read that the shown patch answers.
#[derive(Clone, Copy, Debug, PartialEq, Eq, Hash, Structural)]
pub struct PickerGesture {
    pub token: PickerToken,
    pub source: PickerSource,
    pub released: bool,
    pub viewport_revision: u64,
    pub latest: PickerRead,
    pub sampled: Option<PickerRead>,
}

} // verus!
