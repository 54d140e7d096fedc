use vstd::prelude::*;

verus! {

/// Fixed-point units per pixel.
pub const SCALE: i64 = 256;

/// Width of the window, in pixels, of the standard game.
pub const WINDOW_WIDTH: u32 = 800;

/// Height of the window, in pixels, of the standard game.
pub const WINDOW_HEIGHT: u32 = 600;

/// A point on the screen, in fixed-point units.
#[derive(Clone, Copy, Debug, PartialEq, Eq, Structural)]
pub struct Pos {
    pub x: i64,
    pub y: i64,
}

/// The mathematical value of a position.
pub struct Point {
    pub x: int,
    pub y: int,
}

impl View for Pos {
    type V = Point;

    open spec fn view(&self) -> Point {
        Point { x: self.x as int, y: self.y as int }
    }
}

pub open spec fn clamp(v: int, lo: int, hi: int) -> int {
    if v < lo {
        lo
    } else if v > hi {
        hi
    } else {
        v
    }
}

/// Bounds of the play area, derived from the window size.
#[derive(Clone, Copy, Debug, PartialEq, Eq, Structural)]
pub struct PlayArea {
    /// Entities are confined to `[-half_width, half_width]` horizontally:
    /// two fifths of the window width on each side of the centre.
    pub half_width: i64,
    /// The upper edge of the screen: half the window height.
    pub top: i64,
    /// The row the player's ship sits on: two fifths of the window height
    /// below the centre.
    pub player_row: i64,
}

pub open spec fn half_width_of(width: int) -> int {
    width * SCALE * 2 / 5
}

pub open spec fn top_of(height: int) -> int {
    height * SCALE / 2
}

pub open spec fn player_row_of(height: int) -> int {
    -(height * SCALE * 2 / 5)
}

impl PlayArea {
    pub open spec fn wf(&self) -> bool {
        self.half_width >= 0
    }

    /// The play area of a window of `width` by `height` pixels.
    pub fn new(width: u32, height: u32) -> (r: PlayArea)
        ensures
            r.wf(),
            r.half_width == half_width_of(width as int),
            r.top == top_of(height as int),
            r.player_row == player_row_of(height as int),
    {
        let w = width as i64;
        let h = height as i64;
        PlayArea { half_width: w * SCALE * 2 / 5, top: h * SCALE / 2, player_row: -(h * SCALE * 2 / 5) }
    }

    /// The play area of the standard 800 by 600 window.
    pub fn standard() -> (r: PlayArea)
        ensures
            r.wf(),
            r.half_width == half_width_of(WINDOW_WIDTH as int),
            r.top == top_of(WINDOW_HEIGHT as int),
            r.player_row == player_row_of(WINDOW_HEIGHT as int),
    {
        PlayArea::new(WINDOW_WIDTH, WINDOW_HEIGHT)
    }
}

} // verus!
