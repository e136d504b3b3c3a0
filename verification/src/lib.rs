//! Core of a small side-scrolling demo: a pose-driven player with
//! fixed-point jump physics, a frame animation, a toggleable set of
//! parallax background layers and the list of draw commands for one frame.
//!
//! Everything here works on plain values; windowing, input polling, texture
//! loading and drawing are left to the program that embeds the library.

pub mod animation;
pub mod assets;
pub mod bitset;
pub mod draw;
pub mod flags;
pub mod game;
pub mod player;
pub mod render;
pub mod utils;

pub use animation::Animation;
pub use assets::{Asset, BackgroundFlag, Pose};
pub use draw::{Color, DrawCommand, Rect};
pub use flags::BackgroundFlags;
pub use game::{Game, SCREEN_HEIGHT, SCREEN_WIDTH};
pub use player::{Input, Player, Vec2};
pub use utils::FixedBitSetIterator;
