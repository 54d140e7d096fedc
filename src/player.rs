use vstd::prelude::*;

use crate::geometry::{clamp, PlayArea, Pos, SCALE};
use crate::laser::Laser;

verus! {

/// Change of velocity per tick for each held direction key: one pixel.
pub const ACCELERATION: i64 = 256;

/// Largest speed of the ship, in units per tick: sixteen pixels.
pub const MAX_VELOCITY: i64 = 4096;

/// How far above the ship a new laser appears: twenty-four pixels.
pub const MUZZLE_OFFSET: i64 = 6144;

/// What the player asks for during one tick.
#[derive(Clone, Copy, Debug, PartialEq, Eq, Structural)]
pub struct Controls {
    /// The left key is held.
    pub left: bool,
    /// The right key is held.
    pub right: bool,
    /// The fire key went down this tick (an edge, not a level).
    pub fire: bool,
}

/// The player's ship.
#[derive(Clone, Copy, Debug, PartialEq, Eq, Structural)]
pub struct Player {
    /// Horizontal velocity, in units per tick.
    pub delta_x: i64,
    pub pos: Pos,
}

/// Acceleration asked for by the direction keys; both keys cancel out.
pub open spec fn thrust(c: Controls) -> int {
    (if c.right { ACCELERATION as int } else { 0 }) - (if c.left { ACCELERATION as int } else { 0 })
}

/// Velocity used to move the ship this tick.
pub open spec fn steered(v: int, c: Controls) -> int {
    clamp(v + thrust(c), -MAX_VELOCITY, MAX_VELOCITY as int)
}

/// Three quarters of `v`, truncated toward zero to the unit.
pub open spec fn drag(v: int) -> int {
    if v >= 0 {
        (3 * v) / 4
    } else {
        -((3 * -v) / 4)
    }
}

/// Velocity kept for the next tick.
pub open spec fn velocity_after(v: int, c: Controls) -> int {
    drag(steered(v, c))
}

/// Horizontal position after one tick.
pub open spec fn x_after(x: int, v: int, c: Controls, half_width: int) -> int {
    clamp(x + steered(v, c), -half_width, half_width)
}

pub open spec fn abs(v: int) -> int {
    if v >= 0 {
        v
    } else {
        -v
    }
}

impl Player {
    pub open spec fn new_spec(area: PlayArea) -> Player {
        Player { delta_x: 0, pos: Pos { x: 0, y: area.player_row } }
    }

    /// A ship at rest in the middle of the player's row.
    pub fn new(area: &PlayArea) -> (r: Player)
        ensures
            r == Player::new_spec(*area),
    {
        Player { delta_x: 0, pos: Pos { x: 0, y: area.player_row } }
    }

    /// One tick of the player controller: steer, clamp the speed, move and
    /// clamp to the play area, then apply drag for the next tick. When fire
    /// went down, returns the laser to create just above the ship.
    pub fn update(&mut self, controls: Controls, area: &PlayArea) -> (shot: Option<Laser>)
        requires
            area.wf(),
            controls.fire ==> old(self).pos.y + MUZZLE_OFFSET <= i64::MAX,
        ensures
            final(self).delta_x == velocity_after(old(self).delta_x as int, controls),
            final(self).pos.x == x_after(
                old(self).pos.x as int,
                old(self).delta_x as int,
                controls,
                area.half_width as int,
            ),
            final(self).pos.y == old(self).pos.y,
            -area.half_width <= final(self).pos.x <= area.half_width,
            abs(final(self).delta_x as int) <= MAX_VELOCITY,
            shot == (if controls.fire {
                Some(Laser { pos: Pos { x: final(self).pos.x, y: (old(self).pos.y + MUZZLE_OFFSET) as i64 } })
            } else {
                None
            }),
    {
        let mut v: i128 = self.delta_x as i128;
        if controls.left {
            v = v - ACCELERATION as i128;
        }
        if controls.right {
            v = v + ACCELERATION as i128;
        }
        if v < -(MAX_VELOCITY as i128) {
            v = -(MAX_VELOCITY as i128);
        } else if v > MAX_VELOCITY as i128 {
            v = MAX_VELOCITY as i128;
        }
        let mut x: i128 = self.pos.x as i128 + v;
        if x < -(area.half_width as i128) {
            x = -(area.half_width as i128);
        } else if x > area.half_width as i128 {
            x = area.half_width as i128;
        }
        self.pos.x = x as i64;
        self.delta_x = decelerate(v as i64);
        if controls.fire {
            Some(Laser { pos: Pos { x: self.pos.x, y: self.pos.y + MUZZLE_OFFSET } })
        } else {
            None
        }
    }
}

/// Applies drag to a velocity within the speed limit.
pub fn decelerate(v: i64) -> (r: i64)
    requires
        abs(v as int) <= MAX_VELOCITY,
    ensures
        r == drag(v as int),
        abs(r as int) <= abs(v as int),
{
    if v >= 0 {
        let m = v as u64;
        (3 * m / 4) as i64
    } else {
        let m = (-v) as u64;
        -((3 * m / 4) as i64)
    }
}

/// Horizontal position and velocity of the ship after one tick for each of
/// `controls`, in order.
pub open spec fn player_run(x: int, v: int, controls: Seq<Controls>, half_width: int) -> (int, int)
    decreases controls.len(),
{
    if controls.len() == 0 {
        (x, v)
    } else {
        let (px, pv) = player_run(x, v, controls.drop_last(), half_width);
        (x_after(px, pv, controls.last(), half_width), velocity_after(pv, controls.last()))
    }
}

/// With no direction key held, a velocity within the speed limit becomes
/// three quarters of itself, to the unit: never larger in size, never of the
/// other sign, and exactly `0.75 * v` whenever `v` is a multiple of four.
pub proof fn lemma_coasting_decays(v: int, fire: bool)
    requires
        abs(v) <= MAX_VELOCITY,
    ensures
        velocity_after(v, Controls { left: false, right: false, fire }) == drag(v),
        abs(drag(v)) <= abs(v),
        v >= 0 ==> drag(v) >= 0,
        v <= 0 ==> drag(v) <= 0,
        -4 < 4 * drag(v) - 3 * v < 4,
        v % 4 == 0 ==> 4 * drag(v) == 3 * v,
{
}

/// Whatever keys are held, after one or more ticks the ship is within the
/// play area and its speed within the limit.
pub proof fn lemma_player_stays_in_play_area(x: int, v: int, controls: Seq<Controls>, half_width: int)
    requires
        half_width >= 0,
        controls.len() > 0,
    ensures
        -half_width <= player_run(x, v, controls, half_width).0 <= half_width,
        abs(player_run(x, v, controls, half_width).1) <= MAX_VELOCITY,
{
    let (px, pv) = player_run(x, v, controls.drop_last(), half_width);
    let s = steered(pv, controls.last());
    assert(abs(drag(s)) <= abs(s));
}

} // verus!
