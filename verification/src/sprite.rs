//! A still image: one cell of a sheet, chosen by its linear index.

use vstd::prelude::*;
use crate::error::ConfigurationError;
use crate::geometry::{DrawCall, Rect, UVec2};
use crate::texture::TextureInfo;

verus! {

/// How many whole cells of extent `cell` fit into `extent`. A cell without
/// extent fits nowhere.
pub open spec fn grid_dim(extent: u32, cell: u32) -> nat {
    if cell == 0 {
        0
    } else {
        (extent / cell) as nat
    }
}

/// The number of cells in a sheet cut into cells of size `cell`.
pub open spec fn frame_count(texture: TextureInfo, cell: UVec2) -> nat {
    grid_dim(texture.width, cell.x) * grid_dim(texture.height, cell.y)
}

/// The left edge of cell `index`: its column times the cell width.
pub open spec fn cell_left(texture: TextureInfo, cell: UVec2, index: nat) -> int {
    (index as int % grid_dim(texture.width, cell.x) as int) * cell.x
}

/// The top edge of cell `index`: its row times the cell height.
pub open spec fn cell_top(texture: TextureInfo, cell: UVec2, index: nat) -> int {
    (index as int / grid_dim(texture.width, cell.x) as int) * cell.y
}

/// Every cell of a sheet lies inside the sheet: for an index below the
/// frame count, the cell's right and bottom edges do not pass the texture's.
pub proof fn lemma_cell_within(texture: TextureInfo, cell: UVec2, index: nat)
    requires
        index < frame_count(texture, cell),
    ensures
        cell.x > 0,
        cell.y > 0,
        0 <= cell_left(texture, cell, index),
        0 <= cell_top(texture, cell, index),
        cell_left(texture, cell, index) + cell.x <= texture.width,
        cell_top(texture, cell, index) + cell.y <= texture.height,
{
    let gw = grid_dim(texture.width, cell.x) as int;
    let gh = grid_dim(texture.height, cell.y) as int;
    let i = index as int;
    assert(gw > 0 && gh > 0) by (nonlinear_arith)
        requires
            0 <= i < gw * gh,
            gw >= 0,
            gh >= 0,
    ;
    let cw = cell.x as int;
    let ch = cell.y as int;
    let w = texture.width as int;
    let h = texture.height as int;
    assert(gw * cw <= w) by (nonlinear_arith)
        requires
            cw > 0,
            w >= 0,
            gw == w / cw,
    ;
    assert(gh * ch <= h) by (nonlinear_arith)
        requires
            ch > 0,
            h >= 0,
            gh == h / ch,
    ;
    let col = i % gw;
    let row = i / gw;
    assert(0 <= col < gw && 0 <= row < gh) by (nonlinear_arith)
        requires
            0 <= i < gw * gh,
            gw > 0,
            col == i % gw,
            row == i / gw,
    ;
    assert(0 <= col * cw && col * cw + cw <= gw * cw) by (nonlinear_arith)
        requires
            0 <= col < gw,
            cw > 0,
    ;
    assert(0 <= row * ch && row * ch + ch <= gh * ch) by (nonlinear_arith)
        requires
            0 <= row < gh,
            ch > 0,
    ;
}

/// No two cells of a sheet start at the same place: two indices below the
/// frame count whose cells share their top-left corner are one index.
pub proof fn lemma_cells_differ(texture: TextureInfo, cell: UVec2, i: nat, j: nat)
    requires
        i < frame_count(texture, cell),
        j < frame_count(texture, cell),
        cell_left(texture, cell, i) == cell_left(texture, cell, j),
        cell_top(texture, cell, i) == cell_top(texture, cell, j),
    ensures
        i == j,
{
    lemma_cell_within(texture, cell, i);
    let gw = grid_dim(texture.width, cell.x) as int;
    let gh = grid_dim(texture.height, cell.y) as int;
    assert(gw > 0) by (nonlinear_arith)
        requires
            0 <= i < gw * gh,
            gw >= 0,
            gh >= 0,
    ;
    let cw = cell.x as int;
    let ch = cell.y as int;
    let (ci, ri) = (i as int % gw, i as int / gw);
    let (cj, rj) = (j as int % gw, j as int / gw);
    assert(ci == cj) by (nonlinear_arith)
        requires
            ci * cw == cj * cw,
            cw > 0,
    ;
    assert(ri == rj) by (nonlinear_arith)
        requires
            ri * ch == rj * ch,
            ch > 0,
    ;
    vstd::arithmetic::div_mod::lemma_fundamental_div_mod(i as int, gw);
    vstd::arithmetic::div_mod::lemma_fundamental_div_mod(j as int, gw);
}

/// What a [`Sprite`] is built from.
#[derive(Debug, Clone)]
pub struct SpriteParams {
    /// The id of the texture the sprite is cut from.
    pub texture_id: String,
    /// The sprite's index in the sheet, counted row by row.
    pub index: usize,
    /// The cell size. Without one the texture's own is used, and without
    /// that the whole texture.
    pub size: Option<UVec2>,
    /// A deactivated sprite is not drawn.
    pub is_deactivated: bool,
}

impl Default for SpriteParams {
    fn default() -> (r: Self)
        ensures
            r.texture_id@ == Seq::<char>::empty(),
            r.index == 0,
            r.size is None,
            !r.is_deactivated,
    {
        SpriteParams { texture_id: String::new(), index: 0, size: None, is_deactivated: false }
    }
}

/// A sprite as the contracts speak of it.
pub struct SpriteState {
    /// The region of the sheet that the sprite shows.
    pub source_rect: Rect,
    /// A deactivated sprite is not drawn.
    pub is_deactivated: bool,
}

/// One cell of a sheet, fixed when the sprite is built. Only whether the
/// sprite is active can change afterwards.
#[derive(Debug, Clone)]
pub struct Sprite {
    source_rect: Rect,
    is_deactivated: bool,
}

impl View for Sprite {
    type V = SpriteState;

    closed spec fn view(&self) -> SpriteState {
        SpriteState { source_rect: self.source_rect, is_deactivated: self.is_deactivated }
    }
}

impl Sprite {
    /// Builds the sprite for `params` over the texture found under
    /// `params.texture_id`, or `None` where there is none.
    ///
    /// Fails when the texture is missing, and when the index is not below
    /// the number of cells in the sheet. Otherwise the source rectangle is
    /// the indexed cell, counted row by row from the top left.
    pub fn new(params: SpriteParams, texture: Option<TextureInfo>) -> (r: Result<
        Sprite,
        ConfigurationError,
    >)
        ensures
            r is Ok <==> texture is Some && params.index < frame_count(
                texture.unwrap(),
                texture.unwrap().cell_size(params.size),
            ),
            match r {
                Ok(sprite) => {
                    &&& texture is Some
                    &&& params.index < frame_count(
                        texture.unwrap(),
                        texture.unwrap().cell_size(params.size),
                    )
                    &&& sprite@.source_rect.x == cell_left(
                        texture.unwrap(),
                        texture.unwrap().cell_size(params.size),
                        params.index as nat,
                    )
                    &&& sprite@.source_rect.y == cell_top(
                        texture.unwrap(),
                        texture.unwrap().cell_size(params.size),
                        params.index as nat,
                    )
                    &&& sprite@.source_rect.extent() == texture.unwrap().cell_size(params.size)
                    &&& sprite@.source_rect.within(
                        texture.unwrap().width,
                        texture.unwrap().height,
                    )
                    &&& sprite@.is_deactivated == params.is_deactivated
                },
                Err(ConfigurationError::MissingTexture) => texture is None,
                Err(ConfigurationError::IndexOutOfRange { index, frame_count: count }) => {
                    &&& texture is Some
                    &&& index == params.index
                    &&& count == frame_count(
                        texture.unwrap(),
                        texture.unwrap().cell_size(params.size),
                    )
                    &&& params.index >= count
                },
                Err(_) => false,
            },
    {
        let texture = match texture {
            Some(texture) => texture,
            None => {
                return Err(ConfigurationError::MissingTexture);
            },
        };
        let cell = texture.resolve_cell_size(params.size);
        let grid_w: u32 = if cell.x == 0 {
            0
        } else {
            texture.width / cell.x
        };
        let grid_h: u32 = if cell.y == 0 {
            0
        } else {
            texture.height / cell.y
        };
        assert(grid_w as u64 * grid_h as u64 <= u64::MAX) by (nonlinear_arith)
            requires
                grid_w <= u32::MAX,
                grid_h <= u32::MAX,
        ;
        let count: u64 = grid_w as u64 * grid_h as u64;
        let index: u64 = params.index as u64;
        if index >= count {
            return Err(
                ConfigurationError::IndexOutOfRange { index: params.index, frame_count: count },
            );
        }
        proof {
            lemma_cell_within(texture, cell, params.index as nat);
        }
        let col: u64 = index % (grid_w as u64);
        let row: u64 = index / (grid_w as u64);
        let x: u64 = col * (cell.x as u64);
        let y: u64 = row * (cell.y as u64);
        Ok(
            Sprite {
                source_rect: Rect { x, y, w: cell.x, h: cell.y },
                is_deactivated: params.is_deactivated,
            },
        )
    }

    /// The region of the sheet that the sprite shows.
    pub fn source_rect(&self) -> (r: Rect)
        ensures
            r == self@.source_rect,
    {
        self.source_rect
    }

    /// Whether the sprite is deactivated.
    pub fn is_deactivated(&self) -> (r: bool)
        ensures
            r == self@.is_deactivated,
    {
        self.is_deactivated
    }

    /// Deactivates the sprite, or activates it again. The region it shows
    /// stays as it was built.
    pub fn set_deactivated(&mut self, is_deactivated: bool)
        ensures
            final(self)@ == (SpriteState { is_deactivated, ..old(self)@ }),
    {
        self.is_deactivated = is_deactivated;
    }

    /// What to draw this frame: nothing for a deactivated sprite, else the
    /// sprite's cell with the mirroring asked for. A sprite's outline is
    /// never part of it: see [`Self::debug_draw`].
    pub fn draw(&self, flip_x: bool, flip_y: bool) -> (r: Option<DrawCall>)
        ensures
            r == if self@.is_deactivated {
                None
            } else {
                Some(DrawCall { source: self@.source_rect, flip_x, flip_y, outline: false })
            },
    {
        if self.is_deactivated {
            None
        } else {
            Some(DrawCall { source: self.source_rect, flip_x, flip_y, outline: false })
        }
    }

    /// Whether the sprite's outline is to be drawn: only while outlines are
    /// switched on, and never for a deactivated sprite.
    pub fn debug_draw(&self, outlines_enabled: bool) -> (r: bool)
        ensures
            r == (outlines_enabled && !self@.is_deactivated),
    {
        outlines_enabled && !self.is_deactivated
    }
}

} // verus!
