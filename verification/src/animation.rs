//! A frame animation over a sprite sheet whose frames lie side by side in
//! one row.

use crate::assets::Asset;
use crate::draw::{DrawCommand, Rect};
use vstd::arithmetic::div_mod::{
    lemma_fundamental_div_mod, lemma_fundamental_div_mod_converse, lemma_mod_bound,
};
use vstd::prelude::*;

verus! {

/// What an [`Animation`] is, as plain numbers.
pub struct AnimationState {
    /// The sprite sheet.
    pub atlas: Asset,
    /// Width of one frame in pixels.
    pub frame_width: nat,
    /// Height of one frame in pixels.
    pub frame_height: nat,
    /// Number of frames in the sheet.
    pub frame_count: nat,
    /// The frame that is shown.
    pub frame_index: nat,
}

impl AnimationState {
    /// The frame shown is one of the sheet's frames.
    pub open spec fn wf(self) -> bool {
        self.frame_index < self.frame_count
    }

    /// The last frame is shown.
    pub open spec fn is_fully_played(self) -> bool {
        self.frame_index + 1 == self.frame_count
    }

    /// The state one frame later: the next frame, or the first one after
    /// the last.
    pub open spec fn advance(self) -> AnimationState {
        AnimationState { frame_index: (self.frame_index + 1) % self.frame_count, ..self }
    }

    /// The state `n` frames later.
    pub open spec fn advance_by(self, n: nat) -> AnimationState
        decreases n,
    {
        if n == 0 {
            self
        } else {
            self.advance_by((n - 1) as nat).advance()
        }
    }

    /// The part of the sheet that holds the frame shown.
    pub open spec fn source(self) -> Rect {
        Rect {
            x: (self.frame_width * self.frame_index) as i64,
            y: 0,
            w: self.frame_width as i64,
            h: self.frame_height as i64,
        }
    }

    /// The same frame position on another sheet; a position past the end
    /// of the new sheet wraps around.
    pub open spec fn on_sheet(
        self,
        atlas: Asset,
        atlas_width: nat,
        atlas_height: nat,
        frame_count: nat,
    ) -> AnimationState {
        AnimationState {
            atlas,
            frame_width: atlas_width / frame_count,
            frame_height: atlas_height,
            frame_count,
            frame_index: self.frame_index % frame_count,
        }
    }
}

/// A sprite sheet together with the frame that is currently shown.
#[derive(Debug, Copy, Clone, PartialEq, Eq)]
pub struct Animation {
    atlas: Asset,
    frame_width: u32,
    frame_height: u32,
    frame_count: u32,
    frame_idx: u32,
}

impl View for Animation {
    type V = AnimationState;

    closed spec fn view(&self) -> AnimationState {
        AnimationState {
            atlas: self.atlas,
            frame_width: self.frame_width as nat,
            frame_height: self.frame_height as nat,
            frame_count: self.frame_count as nat,
            frame_index: self.frame_idx as nat,
        }
    }
}

impl Animation {
    /// The frame shown is one of the sheet's frames, and the frames fit
    /// into a sheet whose width is a 32-bit number.
    pub closed spec fn wf(&self) -> bool {
        &&& self.frame_idx < self.frame_count
        &&& self.frame_width * self.frame_count <= u32::MAX
    }

    /// An animation at the first frame of a sheet of `atlas_width` by
    /// `atlas_height` pixels that holds `frame_count` frames of equal width.
    pub fn new(atlas: Asset, atlas_width: u32, atlas_height: u32, frame_count: u32) -> (animation:
        Animation)
        requires
            frame_count >= 1,
        ensures
            animation.wf(),
            animation@ == (AnimationState {
                atlas,
                frame_width: (atlas_width / frame_count) as nat,
                frame_height: atlas_height as nat,
                frame_count: frame_count as nat,
                frame_index: 0,
            }),
    {
        let frame_width: u32 = atlas_width / frame_count;
        proof {
            lemma_frames_fit(atlas_width as nat, frame_count as nat);
        }
        Animation { atlas, frame_width, frame_height: atlas_height, frame_count, frame_idx: 0 }
    }

    /// Moves to the next frame, and from the last frame back to the first.
    pub fn update(&mut self)
        requires
            old(self).wf(),
        ensures
            final(self).wf(),
            final(self)@ == old(self)@.advance(),
    {
        if self.frame_idx == self.frame_count - 1 {
            self.frame_idx = 0;
        } else {
            self.frame_idx = self.frame_idx + 1;
        }
        proof {
            lemma_mod_below_twice((old(self).frame_idx + 1) as nat, self.frame_count as nat);
        }
    }

    /// Whether the last frame is shown.
    pub fn is_fully_played(&self) -> (played: bool)
        requires
            self.wf(),
        ensures
            played == self@.is_fully_played(),
    {
        self.frame_idx == self.frame_count - 1
    }

    /// Keeps the frame position and moves to another sheet, of
    /// `atlas_width` by `atlas_height` pixels with `frame_count` frames. A
    /// position past the end of the new sheet wraps around.
    pub fn switch_sheet(&mut self, atlas: Asset, atlas_width: u32, atlas_height: u32, frame_count: u32)
        requires
            frame_count >= 1,
        ensures
            final(self).wf(),
            final(self)@ == old(self)@.on_sheet(
                atlas,
                atlas_width as nat,
                atlas_height as nat,
                frame_count as nat,
            ),
    {
        proof {
            lemma_frames_fit(atlas_width as nat, frame_count as nat);
        }
        self.atlas = atlas;
        self.frame_width = atlas_width / frame_count;
        self.frame_height = atlas_height;
        self.frame_count = frame_count;
        self.frame_idx = self.frame_idx % frame_count;
    }

    /// The sprite sheet.
    pub fn atlas(&self) -> (atlas: Asset)
        ensures
            atlas == self@.atlas,
    {
        self.atlas
    }

    /// Number of frames in the sheet.
    pub fn frame_count(&self) -> (count: u32)
        ensures
            count == self@.frame_count,
    {
        self.frame_count
    }

    /// The frame that is shown, counted from zero.
    pub fn frame_index(&self) -> (index: u32)
        ensures
            index == self@.frame_index,
    {
        self.frame_idx
    }

    /// The part of the sheet that holds the frame shown.
    pub fn source(&self) -> (rect: Rect)
        requires
            self.wf(),
        ensures
            rect == self@.source(),
            0 <= rect.x,
            rect.x + rect.w <= u32::MAX,
    {
        proof {
            lemma_frame_inside(
                self.frame_width as nat,
                self.frame_idx as nat,
                self.frame_count as nat,
            );
        }
        let width: i64 = self.frame_width as i64;
        let index: i64 = self.frame_idx as i64;
        Rect { x: width * index, y: 0, w: width, h: self.frame_height as i64 }
    }

    /// The command that draws the frame shown, scaled to fill `dest`.
    pub fn render(&self, dest: Rect) -> (command: DrawCommand)
        requires
            self.wf(),
        ensures
            command == (DrawCommand::Texture {
                asset: self@.atlas,
                x: dest.x,
                y: dest.y,
                source: Some(self@.source()),
                dest_size: Some((dest.w, dest.h)),
            }),
    {
        DrawCommand::Texture {
            asset: self.atlas,
            x: dest.x,
            y: dest.y,
            source: Some(self.source()),
            dest_size: Some((dest.w, dest.h)),
        }
    }
}

/// A remainder of a number below twice the divisor.
proof fn lemma_mod_below_twice(x: nat, count: nat)
    requires
        x < 2 * count,
    ensures
        x % count == if x < count {
            x
        } else {
            (x - count) as nat
        },
{
    if x < count {
        lemma_fundamental_div_mod_converse(x as int, count as int, 0, x as int);
    } else {
        lemma_fundamental_div_mod_converse(x as int, count as int, 1, x - count);
    }
}

/// After `n` steps the frame shown is `n` places further on, counted round
/// the sheet, and nothing else has changed.
pub proof fn lemma_advance_by(state: AnimationState, n: nat)
    requires
        state.wf(),
    ensures
        state.advance_by(n).wf(),
        state.advance_by(n) == (AnimationState {
            frame_index: (state.frame_index + n) % state.frame_count,
            ..state
        }),
    decreases n,
{
    let count = state.frame_count;
    if n == 0 {
        lemma_mod_below_twice(state.frame_index, count);
    } else {
        lemma_advance_by(state, (n - 1) as nat);
        let before = (state.frame_index + n - 1) as nat;
        let q = before / count;
        let r = before % count;
        lemma_fundamental_div_mod(before as int, count as int);
        lemma_mod_bound(before as int, count as int);
        lemma_mod_below_twice(r + 1, count);
        assert(q * count == count * q) by (nonlinear_arith);
        if r + 1 < count {
            lemma_fundamental_div_mod_converse(before as int + 1, count as int, q as int, r as int + 1);
        } else {
            assert(before + 1 == (q + 1) * count + 0) by (nonlinear_arith)
                requires
                    before == count * q + r,
                    r + 1 == count,
            ;
            lemma_fundamental_div_mod_converse(before as int + 1, count as int, q as int + 1, 0);
        }
    }
}

/// Advancing an animation as many times as it has frames shows the frame
/// it started from.
pub proof fn lemma_full_cycle(state: AnimationState)
    requires
        state.wf(),
    ensures
        state.advance_by(state.frame_count) == state,
{
    let count = state.frame_count;
    lemma_advance_by(state, count);
    lemma_fundamental_div_mod_converse(
        state.frame_index as int + count as int,
        count as int,
        1,
        state.frame_index as int,
    );
}

/// An animation is fully played exactly when the next step wraps around to
/// the first frame, and of the states reached by fewer steps than the
/// sheet has frames exactly one is fully played.
pub proof fn lemma_fully_played_once(state: AnimationState)
    requires
        state.wf(),
    ensures
        state.is_fully_played() <==> state.advance().frame_index == 0,
        forall|k: nat|
            k < state.frame_count ==> (#[trigger] state.advance_by(k).is_fully_played() <==> k
                == state.frame_count - 1 - state.frame_index),
{
    let count = state.frame_count;
    lemma_mod_below_twice(state.frame_index + 1, count);
    assert forall|k: nat| k < count implies (#[trigger] state.advance_by(k).is_fully_played() <==> k
        == count - 1 - state.frame_index) by {
        lemma_advance_by(state, k);
        lemma_mod_below_twice(state.frame_index + k, count);
    }
}

/// Frames of width `width / count` fit `count` times into `width`.
proof fn lemma_frames_fit(width: nat, count: nat)
    requires
        count >= 1,
    ensures
        (width / count) * count <= width,
{
    assert((width / count) * count <= width) by (nonlinear_arith)
        requires
            count >= 1,
    ;
}

/// A frame before the end of the sheet lies inside it.
proof fn lemma_frame_inside(width: nat, index: nat, count: nat)
    requires
        index < count,
    ensures
        width * index + width <= width * count,
{
    assert(width * index + width <= width * count) by (nonlinear_arith)
        requires
            index < count,
    ;
}

} // verus!
