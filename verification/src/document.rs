//! Identities and plain geometry shared by the other modules.
use vstd::prelude::*;

verus! {

/// A raster layer of the document.
#[derive(Clone, Copy, Debug, PartialEq, Eq, PartialOrd, Ord, Hash, Structural)]
pub struct LayerId(pub u128);

/// A layer group of the document.
#[derive(Clone, Copy, Debug, PartialEq, Eq, PartialOrd, Ord, Hash, Structural)]
pub struct GroupId(pub u128);

/// Any node of the layer tree.
#[derive(Clone, Copy, Debug, PartialEq, Eq, PartialOrd, Ord, Hash, Structural)]
pub enum LayerTreeNodeId {
    Raster(LayerId),
    Group(GroupId),
}

/// An eight-bit colour with straight alpha.
#[derive(Clone, Copy, Debug, PartialEq, Eq, PartialOrd, Ord, Hash, Structural)]
pub struct Rgba {
    pub red: u8,
    pub green: u8,
    pub blue: u8,
    pub alpha: u8,
}

/// A document pixel, possibly off the page.
#[derive(Clone, Copy, Debug, PartialEq, Eq, PartialOrd, Ord, Hash, Structural)]
pub struct PixelPoint {
    pub x: i32,
    pub y: i32,
}

/// A width and a height in pixels.
#[derive(Clone, Copy, Debug, PartialEq, Eq, PartialOrd, Ord, Hash, Structural)]
pub struct PixelSize {
    pub width: u32,
    pub height: u32,
}

/// The page of a document.
#[derive(Clone, Copy, Debug, PartialEq, Eq, PartialOrd, Ord, Hash, Structural)]
pub struct CanvasSpec {
    pub width_px: u32,
    pub height_px: u32,
    pub pixels_per_inch: u32,
}

} // verus!
