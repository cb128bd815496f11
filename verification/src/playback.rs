//! The player's state as a mathematical value, and what holds of it.

use vstd::prelude::*;
use crate::animation_player::Animation;
use crate::geometry::{Rect, UVec2};

verus! {

/// Progress through one frame is counted in parts of a frame: a microsecond
/// at `fps` frames per second is worth `fps` parts, and a frame has this many.
pub const FRAME_UNITS: u64 = 1_000_000;

/// No two of the first `n` animations share an id.
pub open spec fn distinct_ids(animations: Seq<Animation>, n: int) -> bool {
    forall|i: int, j: int| 0 <= i < j < n ==> animations[i].id@ != animations[j].id@
}

/// The animation at `j` repeats the id of an earlier one.
pub open spec fn repeats_earlier_id(animations: Seq<Animation>, j: int) -> bool {
    exists|i: int| 0 <= i < j && animations[i].id@ == animations[j].id@
}

/// The animation at `i` has the id `id`, and none before it has.
pub open spec fn first_with_id(animations: Seq<Animation>, id: Seq<char>, i: int) -> bool {
    &&& 0 <= i < animations.len()
    &&& animations[i].id@ == id
    &&& forall|k: int| 0 <= k < i ==> animations[k].id@ != id
}

/// No animation has the id `id`.
pub open spec fn none_with_id(animations: Seq<Animation>, id: Seq<char>) -> bool {
    forall|k: int| 0 <= k < animations.len() ==> animations[k].id@ != id
}

/// With unique ids, an id names at most one animation.
pub proof fn lemma_id_names_one(animations: Seq<Animation>, id: Seq<char>, i: int, j: int)
    requires
        distinct_ids(animations, animations.len() as int),
        0 <= i < animations.len(),
        0 <= j < animations.len(),
        animations[i].id@ == id,
        animations[j].id@ == id,
    ensures
        i == j,
{
    if i < j {
        assert(animations[i].id@ != animations[j].id@);
    } else if j < i {
        assert(animations[j].id@ != animations[i].id@);
    }
}

/// How many frames have run out once `total` parts have gathered: a frame
/// gives way only when more than a whole frame's parts lie behind it.
pub open spec fn frames_elapsed(total: nat) -> nat {
    if total == 0 {
        0
    } else {
        ((total - 1) / (FRAME_UNITS as int)) as nat
    }
}

/// The state of a player, as the contracts speak of it.
pub struct PlayerState {
    /// The size of one frame.
    pub frame_size: UVec2,
    /// The animations, in the order they were given.
    pub animations: Seq<Animation>,
    /// The index of the selected animation.
    pub current: int,
    /// The frame shown, counted from the left of the row.
    pub frame: int,
    /// How far the frame shown has run, in parts of a frame.
    pub elapsed: int,
    /// Whether time is meant to move the player on.
    pub playing: bool,
    /// A deactivated player neither advances nor draws.
    pub is_deactivated: bool,
}

impl PlayerState {
    /// What holds of every player: there is an animation, ids are unique,
    /// the selection exists, the frame shown is one of the selected
    /// animation's, or the first where it has none, and no more than one
    /// frame's parts are gathered.
    pub open spec fn wf(self) -> bool {
        &&& self.animations.len() > 0
        &&& distinct_ids(self.animations, self.animations.len() as int)
        &&& 0 <= self.current < self.animations.len()
        &&& if self.animations[self.current].frames > 0 {
            0 <= self.frame < self.animations[self.current].frames
        } else {
            self.frame == 0
        }
        &&& 0 <= self.elapsed <= FRAME_UNITS
    }

    /// The state a player starts in: the first frame of the first
    /// animation, nothing gathered, playing unless deactivated.
    pub open spec fn initial(
        frame_size: UVec2,
        animations: Seq<Animation>,
        is_deactivated: bool,
    ) -> PlayerState {
        PlayerState {
            frame_size,
            animations,
            current: 0,
            frame: 0,
            elapsed: 0,
            playing: !is_deactivated,
            is_deactivated,
        }
    }

    /// The selected animation.
    pub open spec fn selected(self) -> Animation {
        self.animations[self.current]
    }

    /// Whether the player plays: it was asked to and is not deactivated.
    pub open spec fn advancing(self) -> bool {
        self.playing && !self.is_deactivated
    }

    /// Whether the selected animation has a frame to show. One without
    /// frames can be selected, and holds the player still.
    pub open spec fn has_frames(self) -> bool {
        self.selected().frames > 0
    }

    /// The parts gathered once `delta_micros` more microseconds have passed.
    pub open spec fn gathered(self, delta_micros: nat) -> nat {
        (self.elapsed + delta_micros * self.selected().fps) as nat
    }

    /// The state after a tick of `delta_micros` microseconds. Every whole
    /// frame that has run out moves the frame on by one, past the last
    /// frame back to the first; what is left of the time stays gathered.
    /// A player that is stopped or deactivated, or whose selected animation
    /// has no frames, stays as it is.
    pub open spec fn ticked(self, delta_micros: nat) -> PlayerState {
        if self.advancing() && self.has_frames() {
            let total = self.gathered(delta_micros);
            let steps = frames_elapsed(total);
            PlayerState {
                frame: (self.frame + steps) % (self.selected().frames as int),
                elapsed: total - steps * FRAME_UNITS,
                ..self
            }
        } else {
            self
        }
    }

    /// The state after the animation at `index` has been selected: it
    /// starts at the beginning of its first frame.
    pub open spec fn switched(self, index: int) -> PlayerState {
        PlayerState { current: index, frame: 0, elapsed: 0, ..self }
    }

    /// The state with frame `frame` of the selected animation shown, a
    /// number past the last frame wrapping round. Where the animation has
    /// no frames the state stays as it is.
    pub open spec fn at_frame(self, frame: nat) -> PlayerState {
        if self.has_frames() {
            PlayerState { frame: frame as int % (self.selected().frames as int), ..self }
        } else {
            self
        }
    }

    /// The region of the sheet that holds the frame shown: the column of
    /// the frame in the row of the selected animation.
    pub open spec fn frame_rect(self) -> Rect {
        Rect {
            x: (self.frame * self.frame_size.x) as u64,
            y: (self.selected().row * self.frame_size.y) as u64,
            w: self.frame_size.x,
            h: self.frame_size.y,
        }
    }
}

/// `frames_elapsed(total)` is the one count `k` of whole frames with more
/// than `k` and at most `k + 1` frames' parts in `total`; with nothing
/// gathered it is zero.
pub proof fn lemma_frames_elapsed(total: nat)
    ensures
        total == 0 ==> frames_elapsed(total) == 0,
        total > 0 ==> frames_elapsed(total) * FRAME_UNITS < total <= (frames_elapsed(total) + 1)
            * FRAME_UNITS,
{
    if total > 0 {
        let k = (total - 1) / (FRAME_UNITS as int);
        assert(k * 1_000_000 <= total - 1 < (k + 1) * 1_000_000) by (nonlinear_arith)
            requires
                total >= 1,
                k == (total - 1) / 1_000_000,
        ;
    }
}

/// A tick keeps a player well-formed: the frame shown stays within the
/// selected animation, and at most one frame's parts stay gathered.
pub proof fn lemma_tick_keeps_wf(state: PlayerState, delta_micros: nat)
    requires
        state.wf(),
    ensures
        state.ticked(delta_micros).wf(),
{
    lemma_frames_elapsed(state.gathered(delta_micros));
    assert(delta_micros * state.selected().fps >= 0) by (nonlinear_arith);
}

/// Showing a frame by its number keeps a player well-formed.
pub proof fn lemma_frame_keeps_wf(state: PlayerState, frame: nat)
    requires
        state.wf(),
    ensures
        state.at_frame(frame).wf(),
{
}

/// An animation without frames holds the player still: while it is
/// selected the first frame is shown, and neither time nor a frame number
/// changes anything.
pub proof fn lemma_empty_animation_is_still(state: PlayerState, delta_micros: nat, frame: nat)
    requires
        state.wf(),
        !state.has_frames(),
    ensures
        state.frame == 0,
        state.ticked(delta_micros) == state,
        state.at_frame(frame) == state,
{
}

/// Selecting an animation by the position of its id keeps a player
/// well-formed and shows the first frame.
pub proof fn lemma_switch_keeps_wf(state: PlayerState, index: int)
    requires
        state.wf(),
        0 <= index < state.animations.len(),
    ensures
        state.switched(index).wf(),
        state.switched(index).frame == 0,
        state.switched(index).current == index,
{
}

/// Playback does not depend on how time is cut into ticks: a tick of `a`
/// microseconds followed by one of `b` leaves the player where one tick of
/// `a + b` does.
pub proof fn lemma_ticks_add_up(state: PlayerState, a: nat, b: nat)
    requires
        state.wf(),
    ensures
        state.ticked(a).ticked(b) == state.ticked(a + b),
{
    if state.advancing() && state.has_frames() {
        let fps = state.selected().fps as int;
        let frames = state.selected().frames as int;
        let first = state.gathered(a) as int;
        let whole = state.gathered(a + b) as int;
        let k1 = frames_elapsed(first as nat) as int;
        let mid = state.ticked(a);
        lemma_frames_elapsed(first as nat);
        lemma_tick_keeps_wf(state, a);
        assert(whole == first + b * fps && b * fps >= 0 && first >= state.elapsed)
            by (nonlinear_arith)
            requires
                first == state.elapsed + a * fps,
                whole == state.elapsed + (a + b) * fps,
                fps >= 0,
        ;
        let second = mid.gathered(b) as int;
        assert(second == whole - k1 * 1_000_000);
        let k2 = frames_elapsed(second as nat) as int;
        let k = frames_elapsed(whole as nat) as int;
        lemma_frames_elapsed(second as nat);
        lemma_frames_elapsed(whole as nat);
        assert(k == k1 + k2);
        assert(((state.frame + k1) % frames + k2) % frames == (state.frame + k1 + k2) % frames) by {
            vstd::arithmetic::div_mod::lemma_add_mod_noop_right(k2, state.frame + k1, frames);
        }
    }
}

/// A tick that lasts `n` whole frames of the selected animation, which has
/// frames to show, moves a playing player on by `n` frames, wrapping past the last, and leaves what
/// was gathered as it was, provided something had been gathered before or
/// the tick is empty.
pub proof fn lemma_tick_of_whole_frames(state: PlayerState, delta_micros: nat, n: nat)
    requires
        state.wf(),
        state.advancing(),
        state.has_frames(),
        state.elapsed > 0 || n == 0,
        delta_micros * state.selected().fps == n * FRAME_UNITS,
    ensures
        state.ticked(delta_micros).frame == (state.frame + n) % (state.selected().frames as int),
        state.ticked(delta_micros).elapsed == state.elapsed,
{
    let e = state.elapsed;
    if e > 0 {
        assert((n * 1_000_000 + e - 1) / 1_000_000 == n) by (nonlinear_arith)
            requires
                0 < e <= 1_000_000,
        ;
    }
}

/// The first tick of a fresh player, with nothing gathered yet, falls one
/// frame short: a frame gives way only once more than its whole time has
/// passed, so a tick of `n >= 1` whole frames moves on by `n - 1` and leaves
/// one whole frame gathered.
pub proof fn lemma_first_tick_of_whole_frames(state: PlayerState, delta_micros: nat, n: nat)
    requires
        state.wf(),
        state.advancing(),
        state.has_frames(),
        state.elapsed == 0,
        n >= 1,
        delta_micros * state.selected().fps == n * FRAME_UNITS,
    ensures
        state.ticked(delta_micros).frame == (state.frame + n - 1) % (state.selected().frames as int),
        state.ticked(delta_micros).elapsed == FRAME_UNITS,
{
    assert((n * 1_000_000 - 1) / 1_000_000 == n - 1) by (nonlinear_arith)
        requires
            n >= 1,
    ;
}

/// A deactivated player is still and silent: a tick of any length leaves
/// it unchanged, and it does not count as playing.
pub proof fn lemma_deactivated_is_still(state: PlayerState, delta_micros: nat)
    requires
        state.is_deactivated,
    ensures
        state.ticked(delta_micros) == state,
        !state.advancing(),
{
}

} // verus!
