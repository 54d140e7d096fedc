use vstd::prelude::*;

use crate::geometry::{PlayArea, Point, Pos};

verus! {

/// A laser shot by the player.
#[derive(Clone, Copy, Debug, PartialEq, Eq, Structural)]
pub struct Laser {
    pub pos: Pos,
}

impl View for Laser {
    type V = Point;

    open spec fn view(&self) -> Point {
        self.pos@
    }
}

/// Distance a laser flies up each tick: four pixels.
pub const LASER_STEP: i64 = 1024;

/// A laser one tick later.
pub open spec fn raised(p: Point) -> Point {
    Point { x: p.x, y: p.y + LASER_STEP }
}

/// A laser after `ticks` ticks.
pub open spec fn raised_by(p: Point, ticks: nat) -> Point
    decreases ticks,
{
    if ticks == 0 {
        p
    } else {
        raised(raised_by(p, (ticks - 1) as nat))
    }
}

/// A laser at `p` has left the screen through its top edge.
pub open spec fn off_top(p: Point, top: int) -> bool {
    p.y > top
}

/// The view of every laser.
pub open spec fn laser_views(lasers: Seq<Laser>) -> Seq<Point> {
    lasers.map_values(|l: Laser| l@)
}

/// The next tick of a laser can be computed without overflow.
pub open spec fn laser_fits(l: Laser) -> bool {
    l.pos.y <= i64::MAX - LASER_STEP
}

/// The laser mover: raises every laser by one step and reports, for each,
/// whether it is now above the top of the play area and must go.
pub fn laser_movement(lasers: &mut Vec<Laser>, area: &PlayArea) -> (gone: Vec<bool>)
    requires
        forall|i: int| 0 <= i < old(lasers)@.len() ==> laser_fits(#[trigger] old(lasers)@[i]),
    ensures
        laser_views(final(lasers)@) == laser_views(old(lasers)@).map_values(|p: Point| raised(p)),
        gone@.len() == final(lasers)@.len(),
        forall|i: int| 0 <= i < gone@.len() ==> gone@[i] == off_top(#[trigger] final(lasers)@[i]@, area.top as int),
{
    let n = lasers.len();
    let mut gone: Vec<bool> = Vec::new();
    let mut i: usize = 0;
    while i < n
        invariant
            n == lasers@.len(),
            lasers@.len() == old(lasers)@.len(),
            0 <= i <= n,
            gone@.len() == i,
            forall|k: int| 0 <= k < i ==> (#[trigger] lasers@[k])@ == raised(old(lasers)@[k]@),
            forall|k: int| i <= k < n ==> #[trigger] lasers@[k] == old(lasers)@[k],
            forall|k: int| 0 <= k < i ==> gone@[k] == off_top(#[trigger] lasers@[k]@, area.top as int),
            forall|k: int| 0 <= k < old(lasers)@.len() ==> laser_fits(#[trigger] old(lasers)@[k]),
        decreases n - i,
    {
        let mut l = lasers[i];
        l.pos.y = l.pos.y + LASER_STEP;
        gone.push(l.pos.y > area.top);
        lasers.set(i, l);
        i = i + 1;
    }
    assert(laser_views(lasers@) =~= laser_views(old(lasers)@).map_values(|p: Point| raised(p)));
    gone
}

/// Ticks a laser fired at height `y` flies before it leaves through the top.
pub open spec fn ticks_to_leave(y: int, top: int) -> int {
    (top - y) / (LASER_STEP as int) + 1
}

proof fn lemma_raised_by(p: Point, ticks: nat)
    ensures
        raised_by(p, ticks) == (Point { x: p.x, y: p.y + ticks * LASER_STEP }),
    decreases ticks,
{
    if ticks > 0 {
        lemma_raised_by(p, (ticks - 1) as nat);
    }
}

/// A laser that starts at or below the top of the play area stays on screen
/// for every tick before `ticks_to_leave`, and is above the top (and so
/// removed) on exactly that tick.
pub proof fn lemma_laser_leaves_once(p: Point, top: int)
    requires
        p.y <= top,
    ensures
        ticks_to_leave(p.y, top) >= 1,
        forall|k: nat| k < ticks_to_leave(p.y, top) ==> !off_top(#[trigger] raised_by(p, k), top),
        off_top(raised_by(p, ticks_to_leave(p.y, top) as nat), top),
{
    let n = ticks_to_leave(p.y, top);
    assert forall|k: nat| k < n implies !off_top(#[trigger] raised_by(p, k), top) by {
        lemma_raised_by(p, k);
        vstd::arithmetic::mul::lemma_mul_inequality(k as int, (top - p.y) / (LASER_STEP as int), LASER_STEP as int);
    }
    lemma_raised_by(p, n as nat);
}

} // verus!
