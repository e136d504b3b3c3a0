//! The player: a pose, an animation that follows the pose, and a position
//! and velocity that are integrated with fixed-point arithmetic.
//!
//! Lengths are counted in millionths of a pixel, velocities in millionths
//! of a pixel per second and time in microseconds, so that a velocity times
//! a time, divided by [`UNIT`], is a length again.

use crate::animation::{Animation, AnimationState};
use crate::assets::{Asset, Pose};
use vstd::arithmetic::div_mod::{lemma_mod_bound, lemma_small_mod};
use vstd::prelude::*;

verus! {

/// Parts of a pixel in a pixel, and microseconds in a second.
pub const UNIT: i64 = 1_000_000;

/// Speed of running, forwards or backwards.
pub const HOR_VELOCITY: i64 = 400_000_000;

/// Upward speed at the start of a jump.
pub const JUMP_VELOCITY: i64 = 300_000_000;

/// Downward acceleration in pixels per second squared, which is also the
/// loss of upward velocity per microsecond.
pub const GRAVITY: i64 = 480;

/// Frames per second at which a sprite sheet is played.
pub const ANIMATION_FPS: u32 = 11;

/// Width of one frame of a sprite sheet in pixels.
pub const SPRITE_TILE_WIDTH: u32 = 120;

/// Height of one frame of a sprite sheet in pixels.
pub const SPRITE_TILE_HEIGHT: u32 = 80;

/// A point or a velocity in the plane; `y` grows upwards.
#[derive(Debug, Copy, Clone, PartialEq, Eq, Structural)]
pub struct Vec2 {
    pub x: i64,
    pub y: i64,
}

/// The keys the game listens to. The movement keys say whether the key is
/// held down; the keypad keys say whether the key went down in this frame.
#[derive(Debug, Copy, Clone, PartialEq, Eq, Structural)]
pub struct Input {
    pub right: bool,
    pub d: bool,
    pub left: bool,
    pub a: bool,
    pub down: bool,
    pub s: bool,
    pub space: bool,
    pub kp0: bool,
    pub kp1: bool,
    pub kp2: bool,
    pub kp3: bool,
}

impl Input {
    /// "Move forward" is held.
    pub open spec fn forward(self) -> bool {
        self.right || self.d
    }

    /// "Move backward" is held.
    pub open spec fn backward(self) -> bool {
        self.left || self.a
    }

    /// "Roll" is held.
    pub open spec fn roll(self) -> bool {
        self.down || self.s
    }

    /// "Jump" is held.
    pub open spec fn jump(self) -> bool {
        self.space
    }

    /// No key held and none pressed.
    pub fn none() -> (input: Input)
        ensures
            input == (Input {
                right: false,
                d: false,
                left: false,
                a: false,
                down: false,
                s: false,
                space: false,
                kp0: false,
                kp1: false,
                kp2: false,
                kp3: false,
            }),
    {
        Input {
            right: false,
            d: false,
            left: false,
            a: false,
            down: false,
            s: false,
            space: false,
            kp0: false,
            kp1: false,
            kp2: false,
            kp3: false,
        }
    }
}

/// The nearest 64-bit number to `value`.
pub open spec fn clamp(value: int) -> i64 {
    if value < i64::MIN {
        i64::MIN
    } else if value > i64::MAX {
        i64::MAX
    } else {
        value as i64
    }
}

/// The length covered at `velocity` in `dt` microseconds, rounded towards
/// zero.
pub open spec fn travel(velocity: i64, dt: u32) -> int {
    if velocity >= 0 {
        (velocity * dt) / (UNIT as int)
    } else {
        -((-velocity * dt) / (UNIT as int))
    }
}

/// The whole pixels in a length, rounded towards zero.
pub open spec fn pixels(length: i64) -> int {
    if length >= 0 {
        length / UNIT
    } else {
        -((-length) / (UNIT as int))
    }
}

/// The sheet of a pose with the frame counter at `index`, wrapped round
/// the end of the sheet.
pub open spec fn sheet_of(pose: Pose, index: nat) -> AnimationState {
    AnimationState {
        atlas: Asset::of_pose(pose),
        frame_width: SPRITE_TILE_WIDTH as nat,
        frame_height: SPRITE_TILE_HEIGHT as nat,
        frame_count: pose.spec_frames() as nat,
        frame_index: index % (pose.spec_frames() as nat),
    }
}

/// What a [`Player`] is, as plain values.
pub struct PlayerState {
    /// The animation of the current pose.
    pub sprite: AnimationState,
    /// Microseconds since the animation last moved on.
    pub frame_time: nat,
    pub pose: Pose,
    pub position: Vec2,
    pub velocity: Vec2,
    /// A jump has started and the ground was not reached since.
    pub jumping: bool,
}

impl PlayerState {
    /// The animation is the one of the pose, the frame timer is below one
    /// frame's time, and the player is not below the ground.
    pub open spec fn wf(self) -> bool {
        &&& self.sprite == sheet_of(self.pose, self.sprite.frame_index)
        &&& self.sprite.wf()
        &&& self.frame_time * ANIMATION_FPS <= UNIT
        &&& self.position.y >= 0
    }

    /// The player at the start of the game.
    pub open spec fn start() -> PlayerState {
        PlayerState {
            sprite: sheet_of(Pose::Idle, 0),
            frame_time: 0,
            pose: Pose::Idle,
            position: Vec2 { x: 0, y: 0 },
            velocity: Vec2 { x: 0, y: 0 },
            jumping: false,
        }
    }

    /// The pose may change: the player is idle, or the animation of the
    /// pose shows its last frame.
    pub open spec fn can_change_pose(self) -> bool {
        self.pose == Pose::Idle || self.sprite.is_fully_played()
    }

    /// The animation after `dt` microseconds: it moves on by one frame once
    /// more than a frame's time has passed since it last did.
    pub open spec fn animate(self, dt: u32) -> PlayerState {
        if (self.frame_time + dt) * ANIMATION_FPS > UNIT {
            PlayerState { sprite: self.sprite.advance(), frame_time: 0, ..self }
        } else {
            PlayerState { frame_time: self.frame_time + (dt as nat), ..self }
        }
    }

    /// The pose and velocity that the keys ask for. Nothing changes unless
    /// the pose may change; then the first of these that applies decides:
    /// forward, backward, roll, jump (unless a jump is under way), and with
    /// none of them the player falls idle unless the pose is a jump.
    pub open spec fn steer(self, input: Input) -> PlayerState {
        if !self.can_change_pose() {
            self
        } else if input.forward() {
            PlayerState {
                pose: Pose::RunningForwards,
                velocity: Vec2 { x: HOR_VELOCITY, y: self.velocity.y },
                ..self
            }
        } else if input.backward() {
            PlayerState {
                pose: Pose::RunningBackwards,
                velocity: Vec2 { x: (-HOR_VELOCITY) as i64, y: self.velocity.y },
                ..self
            }
        } else if input.roll() {
            PlayerState { pose: Pose::Rolling, ..self }
        } else if input.jump() && !self.jumping {
            PlayerState {
                pose: Pose::Jumping,
                velocity: Vec2 { x: 0, y: JUMP_VELOCITY },
                jumping: true,
                ..self
            }
        } else if self.pose != Pose::Jumping {
            PlayerState { pose: Pose::Idle, velocity: Vec2 { x: 0, y: self.velocity.y }, ..self }
        } else {
            self
        }
    }

    /// Position and velocity after `dt` microseconds of free motion: the
    /// position moves by the velocity it had, then gravity pulls on the
    /// upward velocity. Values that leave the 64-bit range stop at its end.
    pub open spec fn drift(self, dt: u32) -> PlayerState {
        PlayerState {
            position: Vec2 {
                x: clamp(self.position.x + travel(self.velocity.x, dt)),
                y: clamp(self.position.y + travel(self.velocity.y, dt)),
            },
            velocity: Vec2 { x: self.velocity.x, y: clamp(self.velocity.y - GRAVITY * dt) },
            ..self
        }
    }

    /// The player is at or below the ground.
    pub open spec fn grounded(self) -> bool {
        self.position.y <= 0
    }

    /// Landing: at or below the ground the player is put on it, loses all
    /// vertical velocity, is no longer jumping, and a jump pose ends in
    /// the idle pose. Above the ground nothing changes.
    pub open spec fn land(self) -> PlayerState {
        if self.grounded() {
            PlayerState {
                pose: if self.pose == Pose::Jumping {
                    Pose::Idle
                } else {
                    self.pose
                },
                position: Vec2 { x: self.position.x, y: 0 },
                velocity: Vec2 { x: self.velocity.x, y: 0 },
                jumping: false,
                ..self
            }
        } else {
            self
        }
    }

    /// The animation follows the pose: it moves to the sheet of the pose
    /// and keeps its frame counter, wrapped round the end of the sheet.
    pub open spec fn follow_pose(self) -> PlayerState {
        PlayerState { sprite: sheet_of(self.pose, self.sprite.frame_index), ..self }
    }

    /// One frame of `dt` microseconds under the keys of `input`: the
    /// animation moves on, the keys steer, the player drifts and lands,
    /// and the animation follows the pose.
    pub open spec fn step(self, input: Input, dt: u32) -> PlayerState {
        self.animate(dt).steer(input).drift(dt).land().follow_pose()
    }
}

impl PlayerState {
    /// The state after the frames of `frames`, each a set of keys and a
    /// length in microseconds, from the first to the last.
    pub open spec fn run(self, frames: Seq<(Input, u32)>) -> PlayerState
        decreases frames.len(),
    {
        if frames.len() == 0 {
            self
        } else {
            self.run(frames.drop_last()).step(frames.last().0, frames.last().1)
        }
    }
}

/// Whatever the keys and the lengths of the frames, a player that starts on
/// or above the ground is never below it, and stays in a state that the
/// game can reach.
pub proof fn lemma_never_below_ground(state: PlayerState, frames: Seq<(Input, u32)>)
    requires
        state.wf(),
    ensures
        state.run(frames).wf(),
        state.run(frames).position.y >= 0,
    decreases frames.len(),
{
    if frames.len() > 0 {
        let before = state.run(frames.drop_last());
        lemma_never_below_ground(state, frames.drop_last());
        lemma_step_wf(before, frames.last().0, frames.last().1);
    }
}

/// A frame takes a state that the game can reach to another one.
pub proof fn lemma_step_wf(state: PlayerState, input: Input, dt: u32)
    requires
        state.wf(),
    ensures
        state.step(input, dt).wf(),
{
    let animated = state.animate(dt);
    let count = state.sprite.frame_count;
    lemma_mod_bound(state.sprite.frame_index as int + 1, count as int);
    let landed = animated.steer(input).drift(dt).land();
    lemma_sheet_wraps_once(landed.pose, landed.sprite.frame_index);
}

/// A frame that would end at or below the ground ends on it, with no
/// vertical velocity and no jump under way.
pub proof fn lemma_landing(state: PlayerState, input: Input, dt: u32)
    requires
        state.animate(dt).steer(input).drift(dt).grounded(),
    ensures
        state.step(input, dt).position.y == 0,
        state.step(input, dt).velocity.y == 0,
        !state.step(input, dt).jumping,
{
}

/// A frame in which the pose may not change, judged once the animation has
/// moved on, keeps the pose; the one exception is a jump that reaches the
/// ground, which ends in the idle pose.
pub proof fn lemma_pose_gate(state: PlayerState, input: Input, dt: u32)
    requires
        !state.animate(dt).can_change_pose(),
    ensures
        state.step(input, dt).pose != state.pose ==> {
            &&& state.pose == Pose::Jumping
            &&& state.step(input, dt).pose == Pose::Idle
            &&& state.animate(dt).steer(input).drift(dt).grounded()
        },
{
}

/// The player of the game.
#[derive(Debug, Copy, Clone, PartialEq, Eq)]
pub struct Player {
    sprite: Animation,
    frame_time: u32,
    pose: Pose,
    position: Vec2,
    velocity: Vec2,
    jumping: bool,
}

impl View for Player {
    type V = PlayerState;

    closed spec fn view(&self) -> PlayerState {
        PlayerState {
            sprite: self.sprite@,
            frame_time: self.frame_time as nat,
            pose: self.pose,
            position: self.position,
            velocity: self.velocity,
            jumping: self.jumping,
        }
    }
}

/// The animation of a pose, placed on its first frame.
fn create_animation(pose: Pose) -> (animation: Animation)
    ensures
        animation.wf(),
        animation@ == sheet_of(pose, 0),
{
    let frames: u32 = pose.frames();
    proof {
        lemma_tile_width(frames as nat);
        lemma_small_mod(0, frames as nat);
    }
    Animation::new(Asset::from(pose), SPRITE_TILE_WIDTH * frames, SPRITE_TILE_HEIGHT, frames)
}

/// `value`, or the end of the 64-bit range that it lies beyond.
fn clamp_to_i64(value: i128) -> (clamped: i64)
    ensures
        clamped == clamp(value as int),
{
    if value < i64::MIN as i128 {
        i64::MIN
    } else if value > i64::MAX as i128 {
        i64::MAX
    } else {
        value as i64
    }
}

/// The length covered at `velocity` in `dt` microseconds.
fn travelled(velocity: i64, dt: u32) -> (length: i128)
    ensures
        length == travel(velocity, dt),
        -(i64::MAX + 1) * u32::MAX <= length <= i64::MAX * u32::MAX,
{
    let v: i128 = velocity as i128;
    let t: i128 = dt as i128;
    let unit: i128 = UNIT as i128;
    if velocity >= 0 {
        assert(0 <= v * t <= (i64::MAX as int) * (u32::MAX as int)) by (nonlinear_arith)
            requires
                0 <= v <= i64::MAX,
                0 <= t <= u32::MAX,
        ;
        assert((v * t) / (unit as int) <= v * t) by (nonlinear_arith)
            requires
                0 <= v * t,
                unit == 1_000_000,
        ;
        assert(0 <= (v * t) / (unit as int)) by (nonlinear_arith)
            requires
                0 <= v * t,
                unit == 1_000_000,
        ;
        (v * t) / unit
    } else {
        let w: i128 = -v;
        assert(0 <= w * t <= (i64::MAX as int + 1) * (u32::MAX as int)) by (nonlinear_arith)
            requires
                0 <= w <= i64::MAX + 1,
                0 <= t <= u32::MAX,
        ;
        assert((w * t) / (unit as int) <= w * t) by (nonlinear_arith)
            requires
                0 <= w * t,
                unit == 1_000_000,
        ;
        assert(0 <= (w * t) / (unit as int)) by (nonlinear_arith)
            requires
                0 <= w * t,
                unit == 1_000_000,
        ;
        -((w * t) / unit)
    }
}

/// A sheet of frames that are one tile wide has frames of that width.
proof fn lemma_tile_width(frames: nat)
    requires
        frames >= 1,
    ensures
        (SPRITE_TILE_WIDTH * frames) / (frames as int) == SPRITE_TILE_WIDTH,
{
    assert((SPRITE_TILE_WIDTH * frames) / (frames as int) == SPRITE_TILE_WIDTH) by (nonlinear_arith)
        requires
            frames >= 1,
    ;
}

/// Wrapping a frame counter round a sheet twice is wrapping it once.
proof fn lemma_sheet_wraps_once(pose: Pose, index: nat)
    ensures
        sheet_of(pose, sheet_of(pose, index).frame_index) == sheet_of(pose, index),
        sheet_of(pose, index).wf(),
{
    let frames = pose.spec_frames() as nat;
    lemma_mod_bound(index as int, frames as int);
    lemma_small_mod(index % frames, frames);
}

impl Player {
    /// The player is in a state that the game can reach.
    pub closed spec fn wf(&self) -> bool {
        self.sprite.wf() && self@.wf()
    }

    /// The player at the start of the game: idle, at rest at the origin.
    pub fn new() -> (player: Player)
        ensures
            player.wf(),
            player@ == PlayerState::start(),
    {
        let sprite = create_animation(Pose::Idle);
        proof {
            lemma_sheet_wraps_once(Pose::Idle, 0);
        }
        Player {
            sprite,
            frame_time: 0,
            pose: Pose::Idle,
            position: Vec2 { x: 0, y: 0 },
            velocity: Vec2 { x: 0, y: 0 },
            jumping: false,
        }
    }

    /// The current pose.
    pub fn pose(&self) -> (pose: Pose)
        ensures
            pose == self@.pose,
    {
        self.pose
    }

    /// The position, in millionths of a pixel.
    pub fn position(&self) -> (position: Vec2)
        ensures
            position == self@.position,
    {
        self.position
    }

    /// The velocity, in millionths of a pixel per second.
    pub fn velocity(&self) -> (velocity: Vec2)
        ensures
            velocity == self@.velocity,
    {
        self.velocity
    }

    /// Whether a jump is under way.
    pub fn jumping(&self) -> (jumping: bool)
        ensures
            jumping == self@.jumping,
    {
        self.jumping
    }

    /// The animation of the current pose.
    pub fn sprite(&self) -> (sprite: &Animation)
        ensures
            sprite@ == self@.sprite,
            self.wf() ==> sprite.wf(),
    {
        &self.sprite
    }

    /// The animation of a player is the sheet of its pose.
    pub proof fn lemma_sprite_of_pose(&self)
        requires
            self.wf(),
        ensures
            self@.wf(),
            self@.sprite.atlas == Asset::of_pose(self@.pose),
    {
    }

    /// Whether the pose may change in this frame.
    pub fn can_change_pose(&self) -> (allowed: bool)
        requires
            self.wf(),
        ensures
            allowed == self@.can_change_pose(),
    {
        self.pose == Pose::Idle || self.sprite.is_fully_played()
    }

    /// Moves the animation on by one frame once more than a frame's time
    /// has passed since it last moved.
    fn animate(&mut self, dt: u32)
        requires
            old(self).wf(),
        ensures
            final(self).wf(),
            final(self)@ == old(self)@.animate(dt),
    {
        let time: u64 = self.frame_time as u64 + dt as u64;
        if time * (ANIMATION_FPS as u64) > UNIT as u64 {
            self.sprite.update();
            self.frame_time = 0;
            proof {
                let before = old(self)@.sprite;
                lemma_mod_bound(before.frame_index as int + 1, before.frame_count as int);
                lemma_small_mod(self@.sprite.frame_index, before.frame_count);
            }
        } else {
            self.frame_time = time as u32;
        }
    }

    /// Lets the keys choose the pose, where the pose may change.
    fn steer(&mut self, input: &Input)
        requires
            old(self).sprite.wf(),
        ensures
            final(self).sprite == old(self).sprite,
            final(self).frame_time == old(self).frame_time,
            final(self)@ == old(self)@.steer(*input),
    {
        if !(self.pose == Pose::Idle || self.sprite.is_fully_played()) {
            return ;
        }
        if input.right || input.d {
            self.pose = Pose::RunningForwards;
            self.velocity.x = HOR_VELOCITY;
        } else if input.left || input.a {
            self.pose = Pose::RunningBackwards;
            self.velocity.x = -HOR_VELOCITY;
        } else if input.down || input.s {
            self.pose = Pose::Rolling;
        } else if input.space && !self.jumping {
            self.pose = Pose::Jumping;
            self.velocity = Vec2 { x: 0, y: JUMP_VELOCITY };
            self.jumping = true;
        } else if self.pose != Pose::Jumping {
            self.pose = Pose::Idle;
            self.velocity.x = 0;
        }
    }

    /// Moves the player by its velocity, then lets gravity pull.
    fn drift(&mut self, dt: u32)
        ensures
            final(self).sprite == old(self).sprite,
            final(self).frame_time == old(self).frame_time,
            final(self)@ == old(self)@.drift(dt),
    {
        let dx: i128 = travelled(self.velocity.x, dt);
        let dy: i128 = travelled(self.velocity.y, dt);
        let pull: i128 = (GRAVITY as i128) * (dt as i128);
        self.position.x = clamp_to_i64(self.position.x as i128 + dx);
        self.position.y = clamp_to_i64(self.position.y as i128 + dy);
        self.velocity.y = clamp_to_i64(self.velocity.y as i128 - pull);
    }

    /// Puts a player that is at or below the ground on the ground.
    fn land(&mut self)
        ensures
            final(self).sprite == old(self).sprite,
            final(self).frame_time == old(self).frame_time,
            final(self)@ == old(self)@.land(),
    {
        if self.position.y <= 0 {
            self.position.y = 0;
            self.velocity.y = 0;
            self.jumping = false;
            if self.pose == Pose::Jumping {
                self.pose = Pose::Idle;
            }
        }
    }

    /// Moves the animation to the sheet of the current pose.
    fn follow_pose(&mut self)
        requires
            old(self)@.frame_time * ANIMATION_FPS <= UNIT,
            old(self)@.position.y >= 0,
        ensures
            final(self).wf(),
            final(self)@ == old(self)@.follow_pose(),
    {
        let frames: u32 = self.pose.frames();
        proof {
            lemma_tile_width(frames as nat);
            lemma_sheet_wraps_once(self.pose, self.sprite@.frame_index);
        }
        self.sprite.switch_sheet(
            Asset::from(self.pose),
            SPRITE_TILE_WIDTH * frames,
            SPRITE_TILE_HEIGHT,
            frames,
        );
    }

    /// One frame of `dt` microseconds under the keys of `input`.
    ///
    /// The animation moves on, the keys steer, the player drifts and lands,
    /// and the animation follows the pose. The player never ends below the
    /// ground, and where it would have, it stands on it with no vertical
    /// velocity and no jump under way. Where the pose was not allowed to
    /// change, judged once the animation has moved on, it is kept, except
    /// that a jump ends in the idle pose on landing.
    pub fn update(&mut self, input: &Input, dt: u32)
        requires
            old(self).wf(),
        ensures
            final(self).wf(),
            final(self)@ == old(self)@.step(*input, dt),
            final(self)@.position.y >= 0,
            old(self)@.animate(dt).steer(*input).drift(dt).grounded() ==> {
                &&& final(self)@.position.y == 0
                &&& final(self)@.velocity.y == 0
                &&& !final(self)@.jumping
            },
            !old(self)@.animate(dt).can_change_pose() ==> {
                ||| final(self)@.pose == old(self)@.pose
                ||| {
                    &&& old(self)@.pose == Pose::Jumping
                    &&& final(self)@.pose == Pose::Idle
                    &&& old(self)@.animate(dt).steer(*input).drift(dt).grounded()
                }
            },
    {
        self.animate(dt);
        self.steer(input);
        self.drift(dt);
        self.land();
        self.follow_pose();
    }
}

} // verus!
