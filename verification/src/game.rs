//! The game: the player, the loaded textures, the background layers and
//! the size of the screen, with the two things that happen in every frame:
//! the update of the state and the list of what to draw.

use crate::assets::{Asset, BackgroundFlag};
use crate::draw::{Color, DrawCommand};
use crate::flags::{all_bits, flip, BackgroundFlags};
use crate::player::{pixels, Input, Player, PlayerState};
use crate::render::{
    background_offsets, fps_color, player_dest, spec_background_offsets, spec_fps_color,
    spec_player_dest, to_pixels, FPS_FONT_SIZE, FPS_X, FPS_Y,
};
use crate::utils::enabled;
use vstd::prelude::*;

verus! {

/// Width of the window at the start, in pixels.
pub const SCREEN_WIDTH: u32 = 272 * 5;

/// Height of the window at the start, in pixels.
pub const SCREEN_HEIGHT: u32 = 160 * 5;

/// What a [`Game`] is, as plain values.
pub struct GameState<T> {
    pub player: PlayerState,
    /// The textures loaded so far, in the order of [`Asset`].
    pub assets: Seq<T>,
    /// The positions of the background layers that are switched on.
    pub flags: Set<nat>,
    /// Width and height of the screen as of the last update.
    pub screen_size: (u32, u32),
}

/// `bits` after the keypad keys of `input`: key 0 switches the lights, key
/// 1 the back trees, key 2 the middle trees and key 3 the front trees.
pub open spec fn toggled(bits: Set<nat>, input: Input) -> Set<nat> {
    let after0 = if input.kp0 {
        flip(bits, BackgroundFlag::Lights.spec_index() as nat)
    } else {
        bits
    };
    let after1 = if input.kp1 {
        flip(after0, BackgroundFlag::BackTrees.spec_index() as nat)
    } else {
        after0
    };
    let after2 = if input.kp2 {
        flip(after1, BackgroundFlag::MiddleTrees.spec_index() as nat)
    } else {
        after1
    };
    if input.kp3 {
        flip(after2, BackgroundFlag::FrontTrees.spec_index() as nat)
    } else {
        after2
    }
}

/// The command that draws one background layer over the whole of a screen
/// of the given size.
pub open spec fn layer_command(flag: BackgroundFlag, screen_size: (u32, u32)) -> DrawCommand {
    DrawCommand::Texture {
        asset: Asset::of_flag(flag),
        x: 0,
        y: 0,
        source: None,
        dest_size: Some((screen_size.0 as i64, screen_size.1 as i64)),
    }
}

/// The commands that draw the background: nothing when every layer is
/// off; else the layers that are on, from the farthest to the nearest,
/// into the cleared offscreen buffer, and then that buffer twice onto the
/// screen, side by side, shifted by the player's horizontal position.
pub open spec fn background_commands(flags: Set<nat>, x: i64, screen_size: (u32, u32)) -> Seq<
    DrawCommand,
> {
    if enabled(flags).len() == 0 {
        Seq::empty()
    } else {
        let offsets = spec_background_offsets(pixels(x), screen_size.0 as int);
        seq![
            DrawCommand::UseOffscreen { width: screen_size.0, height: screen_size.1 },
            DrawCommand::Clear { color: Color::Black },
        ] + enabled(flags).map_values(|flag: BackgroundFlag| layer_command(flag, screen_size))
            + seq![
            DrawCommand::UseScreen,
            DrawCommand::Offscreen { x: offsets.0 as i64, y: 0 },
            DrawCommand::Offscreen { x: offsets.1 as i64, y: 0 },
        ]
    }
}

/// The command that draws the player: the frame shown of the sheet of the
/// pose, centered on the screen and raised by the player's height.
pub open spec fn player_command(player: PlayerState, screen_size: (u32, u32)) -> DrawCommand {
    let dest = spec_player_dest(screen_size.0, screen_size.1, player.position.y);
    DrawCommand::Texture {
        asset: Asset::of_pose(player.pose),
        x: dest.x,
        y: dest.y,
        source: Some(player.sprite.source()),
        dest_size: Some((dest.w, dest.h)),
    }
}

/// The command that draws the frame-rate counter in the color of the rate.
pub open spec fn fps_command(fps: i32) -> DrawCommand {
    DrawCommand::Fps {
        fps,
        x: FPS_X,
        y: FPS_Y,
        font_size: FPS_FONT_SIZE,
        color: spec_fps_color(fps),
    }
}

impl<T> GameState<T> {
    /// The state after one frame of `dt` microseconds with the keys of
    /// `input` on a screen of `screen_size`.
    pub open spec fn step(self, input: Input, dt: u32, screen_size: (u32, u32)) -> GameState<T> {
        GameState {
            player: self.player.step(input, dt),
            assets: self.assets,
            flags: toggled(self.flags, input),
            screen_size,
        }
    }

    /// Everything a frame draws, in order: the cleared screen, the
    /// background, the player and the frame-rate counter.
    pub open spec fn frame(self, fps: i32) -> Seq<DrawCommand> {
        seq![DrawCommand::Clear { color: Color::Black }] + background_commands(
            self.flags,
            self.player.position.x,
            self.screen_size,
        ) + seq![player_command(self.player, self.screen_size), fps_command(fps)]
    }
}

/// Pressing the same keypad keys in two frames leaves every layer as it
/// was before the first.
pub proof fn lemma_toggled_twice(bits: Set<nat>, input: Input)
    ensures
        toggled(toggled(bits, input), input) == bits,
{
    assert(toggled(toggled(bits, input), input) =~= bits);
}

/// Pressing all four keypad keys while every layer is on switches every
/// layer off.
pub proof fn lemma_all_off(input: Input)
    requires
        input.kp0 && input.kp1 && input.kp2 && input.kp3,
    ensures
        toggled(all_bits(), input) == Set::<nat>::empty(),
{
    assert(toggled(all_bits(), input) =~= Set::<nat>::empty());
}

/// With every layer off nothing is drawn for the background: the offscreen
/// buffer is not touched and no copy of it is put on the screen.
pub proof fn lemma_no_layers_no_background(x: i64, screen_size: (u32, u32))
    ensures
        background_commands(Set::<nat>::empty(), x, screen_size) == Seq::<DrawCommand>::empty(),
{
    crate::flags::lemma_enabled_empty(Set::<nat>::empty());
}

/// The game. `T` is whatever the embedding program uses as a handle to a
/// loaded texture.
pub struct Game<T> {
    player: Player,
    assets: Vec<T>,
    background_flags: BackgroundFlags,
    old_screen_size: (u32, u32),
}

impl<T> View for Game<T> {
    type V = GameState<T>;

    closed spec fn view(&self) -> GameState<T> {
        GameState {
            player: self.player@,
            assets: self.assets@,
            flags: self.background_flags@,
            screen_size: self.old_screen_size,
        }
    }
}

impl<T> Game<T> {
    /// The game is in a state that it can reach from its start.
    pub closed spec fn wf(&self) -> bool {
        self.player.wf() && self.background_flags.wf()
    }

    /// The game at its start on a screen of `screen_size`: the player idle
    /// at the origin, no texture loaded, every background layer on.
    pub fn new(screen_size: (u32, u32)) -> (game: Self)
        ensures
            game.wf(),
            game@ == (GameState::<T> {
                player: PlayerState::start(),
                assets: Seq::empty(),
                flags: all_bits(),
                screen_size,
            }),
    {
        Game {
            player: Player::new(),
            assets: Vec::new(),
            background_flags: BackgroundFlags::all(),
            old_screen_size: screen_size,
        }
    }

    /// Takes the next loaded texture. Textures are handed over in the
    /// order of [`Asset`].
    pub fn load_asset(&mut self, texture: T)
        ensures
            final(self)@ == (GameState { assets: old(self)@.assets.push(texture), ..old(self)@ }),
            old(self).wf() ==> final(self).wf(),
    {
        self.assets.push(texture);
    }

    /// Number of textures loaded so far.
    pub fn assets_loaded(&self) -> (count: usize)
        ensures
            count == self@.assets.len(),
    {
        self.assets.len()
    }

    /// The texture of `asset`, which must have been loaded.
    pub fn get_asset(&self, asset: Asset) -> (texture: &T)
        requires
            asset.spec_index() < self@.assets.len(),
        ensures
            *texture == self@.assets[asset.spec_index() as int],
    {
        &self.assets[asset.index()]
    }

    /// The player.
    pub fn player(&self) -> (player: &Player)
        ensures
            player@ == self@.player,
            self.wf() ==> player.wf(),
    {
        &self.player
    }

    /// The background layers.
    pub fn background_flags(&self) -> (flags: &BackgroundFlags)
        ensures
            flags@ == self@.flags,
            self.wf() ==> flags.wf(),
    {
        &self.background_flags
    }

    /// Width and height of the screen as of the last update.
    pub fn screen_size(&self) -> (size: (u32, u32))
        ensures
            size == self@.screen_size,
    {
        self.old_screen_size
    }

    /// One frame of `dt` microseconds with the keys of `input` on a screen
    /// of `screen_size`: the player is updated, the keypad keys switch
    /// their layers, and the size of the screen is recorded.
    ///
    /// Returns the new size when the screen has changed its size since the
    /// last frame, in which case the offscreen buffer has to be made anew
    /// in that size before the next frame is drawn.
    pub fn update(&mut self, input: &Input, dt: u32, screen_size: (u32, u32)) -> (resized: Option<
        (u32, u32),
    >)
        requires
            old(self).wf(),
        ensures
            final(self).wf(),
            final(self)@ == old(self)@.step(*input, dt, screen_size),
            resized == if old(self)@.screen_size != screen_size {
                Some(screen_size)
            } else {
                None
            },
    {
        self.player.update(input, dt);
        if input.kp0 {
            self.background_flags.toggle(BackgroundFlag::Lights);
        }
        if input.kp1 {
            self.background_flags.toggle(BackgroundFlag::BackTrees);
        }
        if input.kp2 {
            self.background_flags.toggle(BackgroundFlag::MiddleTrees);
        }
        if input.kp3 {
            self.background_flags.toggle(BackgroundFlag::FrontTrees);
        }
        let changed = self.old_screen_size.0 != screen_size.0 || self.old_screen_size.1
            != screen_size.1;
        self.old_screen_size = screen_size;
        if changed {
            Some(screen_size)
        } else {
            None
        }
    }

    /// Everything the frame draws, in order.
    pub fn render(&self, fps: i32) -> (commands: Vec<DrawCommand>)
        requires
            self.wf(),
        ensures
            commands@ == self@.frame(fps),
    {
        let mut commands: Vec<DrawCommand> = Vec::new();
        commands.push(DrawCommand::Clear { color: Color::Black });
        let mut background = self.render_background();
        commands.append(&mut background);
        let dest = player_dest(
            self.old_screen_size.0,
            self.old_screen_size.1,
            self.player.position().y,
        );
        commands.push(self.player.sprite().render(dest));
        commands.push(self.render_fps(fps));
        proof {
            self.player.lemma_sprite_of_pose();
            assert(commands@ =~= self@.frame(fps));
        }
        commands
    }

    /// The commands that draw the background.
    pub fn render_background(&self) -> (commands: Vec<DrawCommand>)
        requires
            self.wf(),
        ensures
            commands@ == background_commands(
                self@.flags,
                self@.player.position.x,
                self@.screen_size,
            ),
    {
        let mut commands: Vec<DrawCommand> = Vec::new();
        if self.background_flags.is_empty() {
            return commands;
        }
        let size = self.old_screen_size;
        commands.push(DrawCommand::UseOffscreen { width: size.0, height: size.1 });
        commands.push(DrawCommand::Clear { color: Color::Black });
        let ghost head = commands@;
        let ghost layers = enabled(self@.flags);
        let ghost mut done: int = 0;
        let mut iter = self.background_flags.iter();
        loop
            invariant
                0 <= done <= layers.len(),
                iter@ == layers.skip(done),
                commands@ == head + layers.take(done).map_values(
                    |flag: BackgroundFlag| layer_command(flag, size),
                ),
            ensures
                done == layers.len(),
            decreases iter@.len(),
        {
            match iter.next() {
                Some(flag) => {
                    commands.push(
                        DrawCommand::Texture {
                            asset: Asset::from(flag),
                            x: 0,
                            y: 0,
                            source: None,
                            dest_size: Some((size.0 as i64, size.1 as i64)),
                        },
                    );
                    proof {
                        assert(layers.skip(done).skip(1) =~= layers.skip(done + 1));
                        assert(layers.take(done + 1) =~= layers.take(done).push(flag));
                        assert(layers.take(done + 1).map_values(
                            |flag: BackgroundFlag| layer_command(flag, size),
                        ) =~= layers.take(done).map_values(
                            |flag: BackgroundFlag| layer_command(flag, size),
                        ).push(layer_command(flag, size)));
                        done = done + 1;
                    }
                },
                None => {
                    break ;
                },
            }
        }
        proof {
            assert(layers.take(done) =~= layers);
        }
        let offsets = background_offsets(to_pixels(self.player.position().x), size.0);
        commands.push(DrawCommand::UseScreen);
        commands.push(DrawCommand::Offscreen { x: offsets.0, y: 0 });
        commands.push(DrawCommand::Offscreen { x: offsets.1, y: 0 });
        proof {
            assert(commands@ =~= background_commands(
                self@.flags,
                self@.player.position.x,
                self@.screen_size,
            ));
        }
        commands
    }

    /// The command that draws the frame-rate counter.
    pub fn render_fps(&self, fps: i32) -> (command: DrawCommand)
        ensures
            command == fps_command(fps),
    {
        DrawCommand::Fps { fps, x: FPS_X, y: FPS_Y, font_size: FPS_FONT_SIZE, color: fps_color(fps) }
    }
}

} // verus!
