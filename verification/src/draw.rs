//! Plain descriptions of what a frame draws. The library decides what is
//! drawn, where and in which order; the embedding program carries the
//! commands out.

use crate::assets::Asset;
use vstd::prelude::*;

verus! {

/// A rectangle in whole pixels.
#[derive(Debug, Copy, Clone, PartialEq, Eq, Structural)]
pub struct Rect {
    pub x: i64,
    pub y: i64,
    pub w: i64,
    pub h: i64,
}

/// The colors the game draws with.
#[derive(Debug, Copy, Clone, PartialEq, Eq, Structural)]
pub enum Color {
    Black,
    White,
    Orange,
    Red,
    Lime,
}

/// One step of drawing a frame.
#[derive(Debug, Copy, Clone, PartialEq, Eq)]
pub enum DrawCommand {
    /// Fill the current drawing surface with one color.
    Clear { color: Color },
    /// Send what follows to the offscreen buffer, through a camera that
    /// shows the rectangle from the origin to `width` by `height`.
    UseOffscreen { width: u32, height: u32 },
    /// Send what follows to the screen again.
    UseScreen,
    /// Draw a texture, tinted white, with its top left corner at `x`, `y`.
    /// `source` picks a part of the texture (all of it when absent);
    /// `dest_size` is the size it is scaled to (its own size when absent).
    Texture { asset: Asset, x: i64, y: i64, source: Option<Rect>, dest_size: Option<(i64, i64)> },
    /// Draw the offscreen buffer, tinted white and flipped top to bottom,
    /// with its top left corner at `x`, `y`.
    Offscreen { x: i64, y: i64 },
    /// Draw the frame rate as text.
    Fps { fps: i32, x: i64, y: i64, font_size: u16, color: Color },
}

} // verus!
