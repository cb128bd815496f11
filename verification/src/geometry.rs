//! Whole-pixel sizes and rectangles.

use vstd::prelude::*;

verus! {

/// A pair of unsigned pixel counts: a size, or a position inside a sheet.
#[derive(Debug, Clone, Copy, PartialEq, Eq, Structural)]
pub struct UVec2 {
    pub x: u32,
    pub y: u32,
}

/// A region of a sheet: top-left corner and extent, in pixels. The corner
/// is wider than the extent, so that the far cells of a long strip can be
/// named whatever the cell size.
#[derive(Debug, Clone, Copy, PartialEq, Eq, Structural)]
pub struct Rect {
    pub x: u64,
    pub y: u64,
    pub w: u32,
    pub h: u32,
}

impl Rect {
    /// The rectangle's extent.
    pub open spec fn extent(self) -> UVec2 {
        UVec2 { x: self.w, y: self.h }
    }

    /// The rectangle's extent.
    pub fn size(&self) -> (r: UVec2)
        ensures
            r == self.extent(),
    {
        UVec2 { x: self.w, y: self.h }
    }

    /// Whether the rectangle lies inside a sheet of the given extent.
    pub open spec fn within(self, width: u32, height: u32) -> bool {
        self.x + self.w <= width && self.y + self.h <= height
    }
}

/// What a renderer is handed for one visible component: the region of the
/// sheet to copy, the mirroring asked for, and whether the component's
/// outline is drawn over it.
#[derive(Debug, Clone, Copy, PartialEq, Eq, Structural)]
pub struct DrawCall {
    pub source: Rect,
    pub flip_x: bool,
    pub flip_y: bool,
    pub outline: bool,
}

} // verus!
