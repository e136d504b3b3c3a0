//! Where things go on the screen: the two copies of the scrolling
//! background, the player's sprite, and the color of the frame-rate
//! counter.

use crate::draw::{Color, Rect};
use crate::player::{pixels, UNIT};
use vstd::arithmetic::div_mod::{lemma_fundamental_div_mod, lemma_mod_bound, lemma_small_mod};
use vstd::prelude::*;

verus! {

/// Width the player's sprite is drawn with, in pixels.
pub const DEST_WIDTH: i64 = 720;

/// Height the player's sprite is drawn with, in pixels.
pub const DEST_HEIGHT: i64 = 480;

/// Left edge of the frame-rate counter.
pub const FPS_X: i64 = 10;

/// Base line of the frame-rate counter.
pub const FPS_Y: i64 = 20;

/// Font size of the frame-rate counter.
pub const FPS_FONT_SIZE: u16 = 30;

/// The color for a frame rate: orange from 15 to 29 frames per second, red
/// from 0 up to 15, lime for every other rate.
pub open spec fn spec_fps_color(fps: i32) -> Color {
    if 15 <= fps <= 29 {
        Color::Orange
    } else if 0 <= fps < 15 {
        Color::Red
    } else {
        Color::Lime
    }
}

/// -1, 0 or 1 as `x` is negative, zero or positive.
pub open spec fn sign(x: int) -> int {
    if x > 0 {
        1
    } else if x < 0 {
        -1
    } else {
        0
    }
}

/// The remainder of `x` by `width` that has the sign of `x`.
pub open spec fn signed_rem(x: int, width: int) -> int {
    if x >= 0 {
        x % width
    } else {
        -((-x) % width)
    }
}

/// The horizontal places of the two copies of the background for a player
/// at pixel `x` on a screen `width` pixels wide. The first copy is shifted
/// against the player's way by the part of `x` that exceeds whole screens;
/// the second lies one screen further in the direction the player has
/// gone. On a screen without width both lie at the origin.
pub open spec fn spec_background_offsets(x: int, width: int) -> (int, int) {
    if width == 0 {
        (0, 0)
    } else {
        let first = -signed_rem(x, width);
        (first, first + width * sign(x))
    }
}

/// A copy of the background drawn at `offset` reaches the screen column
/// `column`.
pub open spec fn covers(offset: int, width: int, column: int) -> bool {
    offset <= column < offset + width
}

/// The rectangle the player's sprite fills on a screen of `width` by
/// `height` pixels when the player is `y` above the ground: centered, and
/// raised by the whole pixels in `y`.
pub open spec fn spec_player_dest(width: u32, height: u32, y: i64) -> Rect {
    Rect {
        x: (width / 2 - DEST_WIDTH / 2) as i64,
        y: (height / 2 - DEST_HEIGHT / 2 - pixels(y)) as i64,
        w: DEST_WIDTH,
        h: DEST_HEIGHT,
    }
}

/// The color of the frame-rate counter.
#[verifier::when_used_as_spec(spec_fps_color)]
pub fn fps_color(fps: i32) -> (color: Color)
    ensures
        color == spec_fps_color(fps),
{
    if 15 <= fps && fps <= 29 {
        Color::Orange
    } else if 0 <= fps && fps < 15 {
        Color::Red
    } else {
        Color::Lime
    }
}

/// The whole pixels in a length given in millionths of a pixel.
pub fn to_pixels(length: i64) -> (whole: i64)
    ensures
        whole == pixels(length),
        length >= 0 ==> 0 <= whole <= length,
        length < 0 ==> length <= whole <= 0,
{
    if length >= 0 {
        length / UNIT
    } else {
        let positive: i128 = -(length as i128);
        let whole: i128 = positive / (UNIT as i128);
        (-whole) as i64
    }
}

/// The horizontal places of the two copies of the background.
pub fn background_offsets(x: i64, width: u32) -> (offsets: (i64, i64))
    ensures
        offsets.0 == spec_background_offsets(x as int, width as int).0,
        offsets.1 == spec_background_offsets(x as int, width as int).1,
{
    if width == 0 {
        return (0, 0);
    }
    let w: i128 = width as i128;
    proof {
        lemma_mod_bound(x as int, w as int);
        lemma_mod_bound(-(x as int), w as int);
        lemma_small_mod(0, width as nat);
    }
    if x > 0 {
        let first: i128 = -((x as i128) % w);
        (first as i64, (first + w) as i64)
    } else if x < 0 {
        let first: i128 = (-(x as i128)) % w;
        (first as i64, (first - w) as i64)
    } else {
        (0, 0)
    }
}

/// The rectangle the player's sprite fills on the screen.
pub fn player_dest(width: u32, height: u32, y: i64) -> (dest: Rect)
    ensures
        dest == spec_player_dest(width, height, y),
{
    let whole: i64 = to_pixels(y);
    let half_width: i64 = (width / 2) as i64;
    let half_height: i64 = (height / 2) as i64;
    Rect {
        x: half_width - DEST_WIDTH / 2,
        y: ((half_height - DEST_HEIGHT / 2) as i128 - whole as i128) as i64,
        w: DEST_WIDTH,
        h: DEST_HEIGHT,
    }
}

/// The two copies of the background lie one screen apart, in the
/// direction the player has gone; the first starts less than one screen
/// from the left edge, on the side against the player's way; and between
/// them they cover every column of the screen.
pub proof fn lemma_offsets_cover(x: int, width: int)
    requires
        width > 0,
    ensures
        ({
            let (first, second) = spec_background_offsets(x, width);
            &&& second - first == width * sign(x)
            &&& (first + second) % width == (2 * first) % width
            &&& (first + x) % width == 0
            &&& x >= 0 ==> -width < first <= 0
            &&& x <= 0 ==> 0 <= first < width
            &&& forall|column: int|
                0 <= column < width ==> #[trigger] covers(first, width, column) || covers(
                    second,
                    width,
                    column,
                )
        }),
{
    let (first, second) = spec_background_offsets(x, width);
    lemma_mod_bound(x, width);
    lemma_mod_bound(-x, width);
    lemma_fundamental_div_mod(x, width);
    lemma_fundamental_div_mod(-x, width);
    if x >= 0 {
        let q = x / width;
        assert(first + x == width * q);
        vstd::arithmetic::div_mod::lemma_mod_multiples_basic(q, width);
        assert(width * q == q * width) by (nonlinear_arith);
    } else {
        let q = (-x) / width;
        assert(first + x == -(width * q));
        vstd::arithmetic::div_mod::lemma_mod_multiples_basic(-q, width);
        assert(-(width * q) == (-q) * width) by (nonlinear_arith);
    }
    if x > 0 {
        assert(first + second == 2 * first + width);
        vstd::arithmetic::div_mod::lemma_mod_add_multiples_vanish(2 * first, width);
    } else if x < 0 {
        assert(first + second == 2 * first - width);
        vstd::arithmetic::div_mod::lemma_mod_sub_multiples_vanish(2 * first, width);
    }
}

} // verus!
