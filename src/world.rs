use vstd::prelude::*;

use crate::collision::{bug_struck, bug_zapper, laser_struck};
use crate::formation::{bug_fits, BUG_STEP, bug_movement, bug_views, formation_step, spawn_formation, Bug, BugView};
use crate::geometry::{PlayArea, Point};
use crate::laser::{LASER_STEP, laser_fits, laser_movement, laser_views, off_top, raised, Laser};
use crate::player::{velocity_after, x_after, Controls, Player, MUZZLE_OFFSET};

verus! {

/// What is left of `items` once every item marked in `gone` is removed;
/// the rest keep their order.
pub open spec fn kept<A>(items: Seq<A>, gone: Seq<bool>) -> Seq<A>
    decreases items.len(),
{
    if items.len() == 0 {
        Seq::empty()
    } else {
        let rest = kept(items.drop_last(), gone.take(items.len() - 1));
        if gone[items.len() - 1] {
            rest
        } else {
            rest.push(items.last())
        }
    }
}

proof fn lemma_kept_map<A, B>(items: Seq<A>, gone: Seq<bool>, f: spec_fn(A) -> B)
    ensures
        kept(items.map_values(f), gone) == kept(items, gone).map_values(f),
    decreases items.len(),
{
    if items.len() > 0 {
        let n = items.len() - 1;
        lemma_kept_map(items.drop_last(), gone.take(n), f);
        assert(items.map_values(f).drop_last() =~= items.drop_last().map_values(f));
        if !gone[n] {
            assert(kept(items.drop_last(), gone.take(n)).push(items.last()).map_values(f) =~= kept(
                items.drop_last(),
                gone.take(n),
            ).map_values(f).push(f(items.last())));
        }
    }
}

/// Applies the removals marked during a tick: the items not marked, in order.
pub fn without_gone<T: Copy>(items: &Vec<T>, gone: &Vec<bool>) -> (r: Vec<T>)
    requires
        gone@.len() == items@.len(),
    ensures
        r@ == kept(items@, gone@),
{
    let n = items.len();
    let mut r: Vec<T> = Vec::new();
    let mut i: usize = 0;
    while i < n
        invariant
            n == items@.len(),
            gone@.len() == n,
            0 <= i <= n,
            r@ == kept(items@.take(i as int), gone@.take(i as int)),
        decreases n - i,
    {
        proof {
            assert(items@.take(i + 1).drop_last() =~= items@.take(i as int));
            assert(gone@.take(i + 1).take(i as int) =~= gone@.take(i as int));
        }
        if !gone[i] {
            r.push(items[i]);
        }
        i = i + 1;
    }
    assert(items@.take(n as int) =~= items@);
    assert(gone@.take(n as int) =~= gone@);
    r
}

/// `n` marks, none set.
fn no_marks(n: usize) -> (r: Vec<bool>)
    ensures
        r@ == Seq::new(n as nat, |i: int| false),
{
    let mut r: Vec<bool> = Vec::new();
    let mut i: usize = 0;
    while i < n
        invariant
            0 <= i <= n,
            r@ == Seq::new(i as nat, |k: int| false),
        decreases n - i,
    {
        r.push(false);
        i = i + 1;
        assert(r@ =~= Seq::new(i as nat, |k: int| false));
    }
    r
}

/// The bugs left after one tick: each bug moves, then those hit by a laser
/// (itself moved) are removed.
pub open spec fn next_formation(bugs: Seq<BugView>, lasers: Seq<Point>, half_width: int) -> Seq<BugView> {
    let moved = formation_step(bugs, half_width);
    let flown = lasers.map_values(|p: Point| raised(p));
    kept(moved, Seq::new(moved.len(), |j: int| bug_struck(moved[j], flown)))
}

/// The lasers left after one tick: each laser moves, then those above the top
/// or touching a bug (itself moved) are removed, and the new shot, if any,
/// is added at the end.
pub open spec fn next_lasers(
    bugs: Seq<BugView>,
    lasers: Seq<Point>,
    area: PlayArea,
    shot: Option<Point>,
) -> Seq<Point> {
    let moved = formation_step(bugs, area.half_width as int);
    let flown = lasers.map_values(|p: Point| raised(p));
    let rest = kept(
        flown,
        Seq::new(flown.len(), |i: int| off_top(flown[i], area.top as int) || laser_struck(flown[i], moved)),
    );
    match shot {
        Some(p) => rest.push(p),
        None => rest,
    }
}

/// Everything on the game screen.
pub struct Game {
    pub area: PlayArea,
    pub player: Player,
    pub bugs: Vec<Bug>,
    pub lasers: Vec<Laser>,
}

impl Game {
    /// The next tick of this game can be computed without overflow.
    pub open spec fn fits(&self) -> bool {
        &&& self.area.wf()
        &&& self.player.pos.y + MUZZLE_OFFSET <= i64::MAX
        &&& forall|j: int| 0 <= j < self.bugs@.len() ==> bug_fits(#[trigger] self.bugs@[j])
        &&& forall|i: int| 0 <= i < self.lasers@.len() ==> laser_fits(#[trigger] self.lasers@[i])
    }

    /// Whether the next tick can be computed without overflow: every
    /// coordinate is far enough from the ends of its range.
    pub fn can_tick(&self) -> (r: bool)
        ensures
            r == self.fits(),
    {
        if self.area.half_width < 0 || self.player.pos.y > i64::MAX - MUZZLE_OFFSET {
            return false;
        }
        let mut j: usize = 0;
        while j < self.bugs.len()
            invariant
                0 <= j <= self.bugs@.len(),
                forall|k: int| 0 <= k < j ==> bug_fits(#[trigger] self.bugs@[k]),
            decreases self.bugs@.len() - j,
        {
            let b = &self.bugs[j];
            if b.pos.x < i64::MIN + BUG_STEP || b.pos.x > i64::MAX - BUG_STEP || b.pos.y < i64::MIN + BUG_STEP {
                return false;
            }
            j = j + 1;
        }
        let mut i: usize = 0;
        while i < self.lasers.len()
            invariant
                0 <= i <= self.lasers@.len(),
                forall|k: int| 0 <= k < i ==> laser_fits(#[trigger] self.lasers@[k]),
            decreases self.lasers@.len() - i,
        {
            if self.lasers[i].pos.y > i64::MAX - LASER_STEP {
                return false;
            }
            i = i + 1;
        }
        true
    }

    /// The game screen as it starts: the ship at rest in the middle of its
    /// row, the full formation, no lasers.
    pub fn new(area: PlayArea) -> (g: Game)
        ensures
            g.area == area,
            g.player == Player::new_spec(area),
            g.bugs@ == crate::formation::starting_formation(),
            g.lasers@.len() == 0,
    {
        let player = Player::new(&area);
        Game { area, player, bugs: spawn_formation(), lasers: Vec::new() }
    }

    /// One tick of the game: the player controller, the formation mover,
    /// the laser mover and the collision pass, in that order. Removals and
    /// the new laser are collected during the passes and applied together at
    /// the end, so every pass sees the same entities.
    pub fn tick(&mut self, controls: Controls)
        requires
            old(self).fits(),
        ensures
            final(self).area == old(self).area,
            final(self).player.delta_x == velocity_after(old(self).player.delta_x as int, controls),
            final(self).player.pos.x == x_after(
                old(self).player.pos.x as int,
                old(self).player.delta_x as int,
                controls,
                old(self).area.half_width as int,
            ),
            final(self).player.pos.y == old(self).player.pos.y,
            bug_views(final(self).bugs@) == next_formation(
                bug_views(old(self).bugs@),
                laser_views(old(self).lasers@),
                old(self).area.half_width as int,
            ),
            laser_views(final(self).lasers@) == next_lasers(
                bug_views(old(self).bugs@),
                laser_views(old(self).lasers@),
                old(self).area,
                if controls.fire {
                    Some(Point { x: final(self).player.pos.x as int, y: old(self).player.pos.y + MUZZLE_OFFSET })
                } else {
                    None
                },
            ),
    {
        let area = self.area;
        let ghost hw = area.half_width as int;
        let ghost old_bugs = bug_views(self.bugs@);
        let ghost old_lasers = laser_views(self.lasers@);
        let shot = self.player.update(controls, &area);
        bug_movement(&mut self.bugs, &area);
        let mut laser_gone = laser_movement(&mut self.lasers, &area);
        let mut bug_gone = no_marks(self.bugs.len());
        bug_zapper(&self.lasers, &self.bugs, &mut laser_gone, &mut bug_gone);
        let ghost moved = formation_step(old_bugs, hw);
        let ghost flown = old_lasers.map_values(|p: Point| raised(p));
        proof {
            assert(bug_views(self.bugs@) == moved);
            assert(laser_views(self.lasers@) == flown);
            assert forall|j: int| 0 <= j < moved.len() implies #[trigger] moved[j] == self.bugs@[j]@ by {
                assert(bug_views(self.bugs@)[j] == self.bugs@[j]@);
            }
            assert forall|i: int| 0 <= i < flown.len() implies #[trigger] flown[i] == self.lasers@[i]@ by {
                assert(laser_views(self.lasers@)[i] == self.lasers@[i]@);
            }
            assert(bug_gone@ =~= Seq::new(moved.len(), |j: int| bug_struck(moved[j], flown)));
            assert(laser_gone@ =~= Seq::new(
                flown.len(),
                |i: int| off_top(flown[i], area.top as int) || laser_struck(flown[i], moved),
            ));
            lemma_kept_map(self.bugs@, bug_gone@, |b: Bug| b@);
            lemma_kept_map(self.lasers@, laser_gone@, |l: Laser| l@);
        }
        self.bugs = without_gone(&self.bugs, &bug_gone);
        let mut lasers = without_gone(&self.lasers, &laser_gone);
        let ghost rest = lasers@;
        match shot {
            Some(l) => {
                lasers.push(l);
                assert(laser_views(lasers@) =~= laser_views(rest).push(l@));
            },
            None => {},
        }
        self.lasers = lasers;
    }
}

} // verus!
