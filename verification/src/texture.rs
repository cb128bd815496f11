//! What the components need to know of a loaded texture.

use vstd::prelude::*;
use crate::geometry::UVec2;

verus! {

/// The extent of a loaded texture and, where its entry fixes one, the size
/// of the cells it is cut into.
#[derive(Debug, Clone, Copy, PartialEq, Eq, Structural)]
pub struct TextureInfo {
    pub width: u32,
    pub height: u32,
    pub sprite_size: Option<UVec2>,
}

impl TextureInfo {
    /// The cell size in force: the explicit one, else the texture's own,
    /// else the whole texture.
    pub open spec fn cell_size(self, explicit: Option<UVec2>) -> UVec2 {
        match explicit {
            Some(size) => size,
            None => match self.sprite_size {
                Some(size) => size,
                None => UVec2 { x: self.width, y: self.height },
            },
        }
    }

    /// Computes [`Self::cell_size`].
    pub fn resolve_cell_size(&self, explicit: Option<UVec2>) -> (r: UVec2)
        ensures
            r == self.cell_size(explicit),
    {
        match explicit {
            Some(size) => size,
            None => match self.sprite_size {
                Some(size) => size,
                None => UVec2 { x: self.width, y: self.height },
            },
        }
    }
}

} // verus!
