//! Looping playback of the animations of one sheet.
//!
//! Each animation is a row of the sheet. The player keeps the selected
//! animation, the frame within it, and how far the frame has been shown.
//! Time is handed in by the caller, in microseconds, so that playback is a
//! function of its inputs alone.

use vstd::prelude::*;
use crate::error::ConfigurationError;
use crate::geometry::{DrawCall, Rect, UVec2};
use crate::playback::{
    distinct_ids, first_with_id, lemma_frames_elapsed, none_with_id, repeats_earlier_id,
    PlayerState, FRAME_UNITS,
};
use crate::texture::TextureInfo;

verus! {

/// One animation: a row of the sheet, played left to right.
#[derive(Debug, Clone, PartialEq, Eq)]
pub struct Animation {
    /// The name by which the animation is selected.
    pub id: String,
    /// The row of the sheet that holds the frames.
    pub row: u32,
    /// The number of frames in the row.
    pub frames: u32,
    /// The number of frames shown per second.
    pub fps: u32,
}

/// What an [`AnimationPlayer`] is built from.
#[derive(Debug, Clone)]
pub struct AnimationParams {
    /// The id of the texture that holds the frames.
    pub texture_id: String,
    /// The size of one frame. Without one the texture's own cell size is
    /// used, and without that the whole texture.
    pub frame_size: Option<UVec2>,
    /// The animations, the first of which is selected at the start.
    pub animations: Vec<Animation>,
    /// A deactivated player neither advances nor draws.
    pub is_deactivated: bool,
}

impl Default for AnimationParams {
    fn default() -> (r: Self)
        ensures
            r.texture_id@ == Seq::<char>::empty(),
            r.frame_size is None,
            r.animations@ == Seq::<Animation>::empty(),
            !r.is_deactivated,
    {
        AnimationParams {
            texture_id: String::new(),
            frame_size: None,
            animations: Vec::new(),
            is_deactivated: false,
        }
    }
}

/// Plays the animations of one sheet.
#[derive(Debug)]
pub struct AnimationPlayer {
    frame_size: UVec2,
    animations: Vec<Animation>,
    current: usize,
    frame: u32,
    elapsed: u64,
    playing: bool,
    is_deactivated: bool,
}

impl View for AnimationPlayer {
    type V = PlayerState;

    closed spec fn view(&self) -> PlayerState {
        PlayerState {
            frame_size: self.frame_size,
            animations: self.animations@,
            current: self.current as int,
            frame: self.frame as int,
            elapsed: self.elapsed as int,
            playing: self.playing,
            is_deactivated: self.is_deactivated,
        }
    }
}

impl AnimationPlayer {
    #[verifier::type_invariant]
    spec fn well_formed(self) -> bool {
        self@.wf()
    }

    /// Builds the player for `params` over the texture found under
    /// `params.texture_id`, or `None` where there is none.
    ///
    /// Fails, in this order, when the texture is missing, when there is no
    /// animation, and at the first animation that repeats an earlier id.
    /// Otherwise the player holds the animations as given, shows the first
    /// frame of the first of them, and plays unless it is deactivated.
    pub fn new(params: AnimationParams, texture: Option<TextureInfo>) -> (r: Result<
        AnimationPlayer,
        ConfigurationError,
    >)
        ensures
            r is Ok <==> texture is Some && params.animations@.len() > 0 && distinct_ids(
                params.animations@,
                params.animations@.len() as int,
            ),
            match r {
                Ok(player) => {
                    &&& texture is Some
                    &&& player@ == PlayerState::initial(
                        texture.unwrap().cell_size(params.frame_size),
                        params.animations@,
                        params.is_deactivated,
                    )
                    &&& player@.wf()
                },
                Err(ConfigurationError::MissingTexture) => texture is None,
                Err(ConfigurationError::NoAnimations) => {
                    &&& texture is Some
                    &&& params.animations@.len() == 0
                },
                Err(ConfigurationError::DuplicateAnimationId { position }) => {
                    &&& texture is Some
                    &&& position < params.animations@.len()
                    &&& distinct_ids(params.animations@, position as int)
                    &&& repeats_earlier_id(params.animations@, position as int)
                },
                Err(_) => false,
            },
    {
        let sheet = match texture {
            Some(sheet) => sheet,
            None => {
                return Err(ConfigurationError::MissingTexture);
            },
        };
        let frame_size = sheet.resolve_cell_size(params.frame_size);
        let n: usize = params.animations.len();
        if n == 0 {
            return Err(ConfigurationError::NoAnimations);
        }
        let mut j: usize = 0;
        while j < n
            invariant
                texture is Some,
                n == params.animations@.len(),
                0 <= j <= n,
                distinct_ids(params.animations@, j as int),
            decreases n - j,
        {
            let mut i: usize = 0;
            while i < j
                invariant
                    texture is Some,
                    n == params.animations@.len(),
                    0 <= i <= j < n,
                    distinct_ids(params.animations@, j as int),
                    forall|k: int| 0 <= k < i ==> params.animations@[k].id@ != params.animations@[j as int].id@,
                decreases j - i,
            {
                if params.animations[i].id == params.animations[j].id {
                    return Err(ConfigurationError::DuplicateAnimationId { position: j });
                }
                i += 1;
            }
            j += 1;
        }
        Ok(
            AnimationPlayer {
                frame_size,
                animations: params.animations,
                current: 0,
                frame: 0,
                elapsed: 0,
                playing: !params.is_deactivated,
                is_deactivated: params.is_deactivated,
            },
        )
    }

    /// The position of the first animation with the id `id`, if there is one.
    fn position_of(&self, id: &str) -> (r: Option<usize>)
        ensures
            match r {
                Some(i) => first_with_id(self@.animations, id@, i as int),
                None => none_with_id(self@.animations, id@),
            },
    {
        let wanted: String = id.to_owned();
        let n: usize = self.animations.len();
        let mut i: usize = 0;
        while i < n
            invariant
                n == self.animations@.len(),
                0 <= i <= n,
                wanted@ == id@,
                forall|k: int| 0 <= k < i ==> self.animations@[k].id@ != id@,
            decreases n - i,
        {
            if self.animations[i].id == wanted {
                return Some(i);
            }
            i += 1;
        }
        None
    }

    /// Moves the player on by `delta_micros` microseconds.
    ///
    /// A player that is stopped or deactivated, or whose selected animation
    /// has no frames, stays as it is. Otherwise the time is gathered at the
    /// selected animation's rate, and the frame moves on by one for every
    /// whole frame that has run out, past the last frame back to the first.
    pub fn update(&mut self, delta_micros: u64)
        ensures
            final(self)@ == old(self)@.ticked(delta_micros as nat),
            final(self)@.wf(),
            old(self)@.is_deactivated ==> final(self)@ == old(self)@,
    {
        proof {
            use_type_invariant(&*self);
        }
        if self.is_deactivated || !self.playing {
            return ;
        }
        let fps: u128 = self.animations[self.current].fps as u128;
        let frames: u128 = self.animations[self.current].frames as u128;
        if frames == 0 {
            return ;
        }
        assert(delta_micros as u128 * fps <= 0xffff_ffff_ffff_ffff * 0xffff_ffff) by (nonlinear_arith)
            requires
                delta_micros <= 0xffff_ffff_ffff_ffff,
                fps <= 0xffff_ffff,
        ;
        let total: u128 = self.elapsed as u128 + delta_micros as u128 * fps;
        let steps: u128 = if total == 0 {
            0
        } else {
            (total - 1) / (FRAME_UNITS as u128)
        };
        proof {
            lemma_frames_elapsed(total as nat);
        }
        let left: u128 = total - steps * (FRAME_UNITS as u128);
        let ahead: u128 = steps % frames;
        let frame: u128 = (self.frame as u128 + ahead) % frames;
        proof {
            vstd::arithmetic::div_mod::lemma_add_mod_noop_right(
                self.frame as int,
                steps as int,
                frames as int,
            );
        }
        self.frame = frame as u32;
        self.elapsed = left as u64;
    }

    /// What to draw this frame: nothing for a deactivated player, else the
    /// frame shown, cut from the row of the selected animation, with the
    /// mirroring asked for, and with its outline while outlines are
    /// switched on.
    pub fn draw(&self, flip_x: bool, flip_y: bool, outlines_enabled: bool) -> (r: Option<DrawCall>)
        ensures
            r == if self@.is_deactivated {
                None
            } else {
                Some(
                    DrawCall {
                        source: self@.frame_rect(),
                        flip_x,
                        flip_y,
                        outline: outlines_enabled,
                    },
                )
            },
    {
        proof {
            use_type_invariant(self);
        }
        if self.is_deactivated {
            return None;
        }
        let row: u64 = self.animations[self.current].row as u64;
        let column: u64 = self.frame as u64;
        let w: u64 = self.frame_size.x as u64;
        let h: u64 = self.frame_size.y as u64;
        assert(column * w <= 0xffff_ffff * 0xffff_ffff && row * h <= 0xffff_ffff * 0xffff_ffff)
            by (nonlinear_arith)
            requires
                column <= 0xffff_ffff,
                row <= 0xffff_ffff,
                w <= 0xffff_ffff,
                h <= 0xffff_ffff,
        ;
        Some(
            DrawCall {
                source: Rect {
                    x: column * w,
                    y: row * h,
                    w: self.frame_size.x,
                    h: self.frame_size.y,
                },
                flip_x,
                flip_y,
                outline: outlines_enabled,
            },
        )
    }

    /// The size at which a frame is drawn: the size of one frame.
    pub fn get_size(&self) -> (r: UVec2)
        ensures
            r == self@.frame_size,
    {
        self.frame_size
    }

    /// The animation with the id `id`, if there is one.
    pub fn get_animation(&self, id: &str) -> (r: Option<&Animation>)
        ensures
            match r {
                Some(animation) => exists|i: int|
                    first_with_id(self@.animations, id@, i) && *animation == self@.animations[i],
                None => none_with_id(self@.animations, id@),
            },
    {
        match self.position_of(id) {
            Some(i) => Some(&self.animations[i]),
            None => None,
        }
    }

    /// Selects the animation with the id `id` and shows its first frame.
    /// Where there is no such animation the player stays as it is, and
    /// `None` is returned.
    pub fn set_animation(&mut self, id: &str) -> (r: Option<&Animation>)
        ensures
            final(self)@.wf(),
            match r {
                Some(animation) => exists|i: int|
                    first_with_id(old(self)@.animations, id@, i) && *animation == old(
                        self,
                    )@.animations[i] && final(self)@ == old(self)@.switched(i),
                None => none_with_id(old(self)@.animations, id@) && final(self)@ == old(self)@,
            },
    {
        proof {
            use_type_invariant(&*self);
        }
        match self.position_of(id) {
            Some(i) => {
                self.frame = 0;
                self.elapsed = 0;
                self.current = i;
                assert(self@ == old(self)@.switched(i as int));
                assert(first_with_id(old(self)@.animations, id@, i as int));
                Some(&self.animations[i])
            },
            None => None,
        }
    }

    /// Shows frame `frame` of the selected animation. A number past the
    /// last frame wraps round, as playback does; where the animation has no
    /// frames nothing changes.
    pub fn set_frame(&mut self, frame: usize)
        ensures
            final(self)@ == old(self)@.at_frame(frame as nat),
            final(self)@.wf(),
    {
        proof {
            use_type_invariant(&*self);
        }
        let frames: u64 = self.animations[self.current].frames as u64;
        if frames == 0 {
            return ;
        }
        let wrapped: u64 = (frame as u64) % frames;
        self.frame = wrapped as u32;
    }

    /// Lets time move the player on again, from the frame shown.
    pub fn play(&mut self)
        ensures
            final(self)@ == (PlayerState { playing: true, ..old(self)@ }),
    {
        proof {
            use_type_invariant(&*self);
        }
        self.playing = true;
    }

    /// Holds the player at the frame shown.
    pub fn stop(&mut self)
        ensures
            final(self)@ == (PlayerState { playing: false, ..old(self)@ }),
    {
        proof {
            use_type_invariant(&*self);
        }
        self.playing = false;
    }

    /// Whether time moves the player on. A deactivated player never plays,
    /// whatever was asked of it.
    pub fn is_playing(&self) -> (r: bool)
        ensures
            r == self@.advancing(),
            self@.is_deactivated ==> !r,
    {
        !self.is_deactivated && self.playing
    }

    /// Whether the player is deactivated.
    pub fn is_deactivated(&self) -> (r: bool)
        ensures
            r == self@.is_deactivated,
    {
        self.is_deactivated
    }

    /// Deactivates the player, or activates it again. Nothing else changes:
    /// whether it was asked to play is kept.
    pub fn set_deactivated(&mut self, is_deactivated: bool)
        ensures
            final(self)@ == (PlayerState { is_deactivated, ..old(self)@ }),
    {
        proof {
            use_type_invariant(&*self);
        }
        self.is_deactivated = is_deactivated;
    }

    /// The animations, in the order they were given.
    pub fn animations(&self) -> (r: &Vec<Animation>)
        ensures
            r@ == self@.animations,
    {
        &self.animations
    }

    /// The selected animation.
    pub fn current_animation(&self) -> (r: &Animation)
        ensures
            self@.wf(),
            *r == self@.selected(),
    {
        proof {
            use_type_invariant(self);
        }
        &self.animations[self.current]
    }

    /// The frame shown, counted from the left of the row.
    pub fn current_frame(&self) -> (r: u32)
        ensures
            self@.wf(),
            r == self@.frame,
    {
        proof {
            use_type_invariant(self);
        }
        self.frame
    }

    /// How far the frame shown has run, in parts of a frame.
    pub fn frame_progress(&self) -> (r: u64)
        ensures
            self@.wf(),
            r == self@.elapsed,
    {
        proof {
            use_type_invariant(self);
        }
        self.elapsed
    }
}

} // verus!
