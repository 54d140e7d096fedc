use vstd::prelude::*;

use crate::formation::{bug_views, Bug, BugView};
use crate::geometry::{Point, Pos};
use crate::laser::{laser_views, Laser};

verus! {

/// A laser destroys a bug closer to it than this: twenty-four pixels.
pub const HIT_RADIUS: i64 = 6144;

/// Square of the distance between two points.
pub open spec fn distance_squared(a: Point, b: Point) -> int {
    (a.x - b.x) * (a.x - b.x) + (a.y - b.y) * (a.y - b.y)
}

/// A laser at `a` hits a bug at `b`: they are strictly closer than the
/// hit radius.
pub open spec fn hit(a: Point, b: Point) -> bool {
    distance_squared(a, b) < HIT_RADIUS * HIT_RADIUS
}

/// The laser at `l` hits at least one of `bugs`.
pub open spec fn laser_struck(l: Point, bugs: Seq<BugView>) -> bool {
    exists|j: int| 0 <= j < bugs.len() && hit(l, #[trigger] bugs[j].at)
}

/// The bug `b` is hit by at least one of `lasers`.
pub open spec fn bug_struck(b: BugView, lasers: Seq<Point>) -> bool {
    exists|i: int| 0 <= i < lasers.len() && hit(#[trigger] lasers[i], b.at)
}

/// Whether a laser at `a` hits a bug at `b`.
pub fn within_reach(a: &Pos, b: &Pos) -> (r: bool)
    ensures
        r == hit(a@, b@),
{
    let dx: i128 = a.x as i128 - b.x as i128;
    let dy: i128 = a.y as i128 - b.y as i128;
    let radius = HIT_RADIUS as i128;
    if dx <= -radius || dx >= radius || dy <= -radius || dy >= radius {
        proof {
            let (ddx, ddy) = (dx as int, dy as int);
            assert(ddx * ddx >= 0 && ddy * ddy >= 0) by (nonlinear_arith);
            assert(ddx <= -radius || ddx >= radius ==> ddx * ddx >= radius * radius) by (nonlinear_arith)
                requires radius > 0;
            assert(ddy <= -radius || ddy >= radius ==> ddy * ddy >= radius * radius) by (nonlinear_arith)
                requires radius > 0;
        }
        false
    } else {
        assert(0 <= dx * dx < radius * radius && 0 <= dy * dy < radius * radius) by (nonlinear_arith)
            requires
                -radius < dx < radius,
                -radius < dy < radius,
                radius > 0,
        ;
        assert(radius * radius == 37748736);
        dx * dx + dy * dy < radius * radius
    }
}

/// The collision pass. Every laser is checked against every bug; for each
/// pair that hits, both are marked to go. A laser that touches several bugs
/// marks them all. Marks already set stay set.
pub fn bug_zapper(lasers: &Vec<Laser>, bugs: &Vec<Bug>, laser_gone: &mut Vec<bool>, bug_gone: &mut Vec<bool>)
    requires
        old(laser_gone)@.len() == lasers@.len(),
        old(bug_gone)@.len() == bugs@.len(),
    ensures
        final(laser_gone)@.len() == lasers@.len(),
        final(bug_gone)@.len() == bugs@.len(),
        forall|i: int|
            0 <= i < lasers@.len() ==> #[trigger] final(laser_gone)@[i] == (old(laser_gone)@[i] || laser_struck(
                lasers@[i]@,
                bug_views(bugs@),
            )),
        forall|j: int|
            0 <= j < bugs@.len() ==> #[trigger] final(bug_gone)@[j] == (old(bug_gone)@[j] || bug_struck(
                bugs@[j]@,
                laser_views(lasers@),
            )),
{
    let n = lasers.len();
    let m = bugs.len();
    let ghost bv = bug_views(bugs@);
    let ghost lv = laser_views(lasers@);
    let mut i: usize = 0;
    while i < n
        invariant
            n == lasers@.len(),
            m == bugs@.len(),
            bv == bug_views(bugs@),
            lv == laser_views(lasers@),
            0 <= i <= n,
            laser_gone@.len() == n,
            bug_gone@.len() == m,
            forall|k: int|
                0 <= k < i ==> #[trigger] laser_gone@[k] == (old(laser_gone)@[k] || laser_struck(lv[k], bv)),
            forall|k: int| i <= k < n ==> #[trigger] laser_gone@[k] == old(laser_gone)@[k],
            forall|j: int|
                0 <= j < m ==> #[trigger] bug_gone@[j] == (old(bug_gone)@[j] || exists|k: int|
                    0 <= k < i && hit(#[trigger] lv[k], bv[j].at)),
        decreases n - i,
    {
        let mut j: usize = 0;
        while j < m
            invariant
                n == lasers@.len(),
                m == bugs@.len(),
                bv == bug_views(bugs@),
                lv == laser_views(lasers@),
                0 <= i < n,
                0 <= j <= m,
                laser_gone@.len() == n,
                bug_gone@.len() == m,
                forall|k: int|
                    0 <= k < i ==> #[trigger] laser_gone@[k] == (old(laser_gone)@[k] || laser_struck(lv[k], bv)),
                forall|k: int| i < k < n ==> #[trigger] laser_gone@[k] == old(laser_gone)@[k],
                laser_gone@[i as int] == (old(laser_gone)@[i as int] || exists|jj: int|
                    0 <= jj < j && hit(lv[i as int], #[trigger] bv[jj].at)),
                forall|jj: int|
                    0 <= jj < j ==> #[trigger] bug_gone@[jj] == (old(bug_gone)@[jj] || exists|k: int|
                        0 <= k <= i && hit(#[trigger] lv[k], bv[jj].at)),
                forall|jj: int|
                    j <= jj < m ==> #[trigger] bug_gone@[jj] == (old(bug_gone)@[jj] || exists|k: int|
                        0 <= k < i && hit(#[trigger] lv[k], bv[jj].at)),
            decreases m - j,
        {
            if within_reach(&lasers[i].pos, &bugs[j].pos) {
                laser_gone.set(i, true);
                bug_gone.set(j, true);
            }
            proof {
                assert(lv[i as int] == lasers@[i as int]@);
                assert(bv[j as int].at == bugs@[j as int]@.at);
            }
            j = j + 1;
        }
        i = i + 1;
    }
    assert forall|j: int| 0 <= j < m implies #[trigger] bug_gone@[j] == (old(bug_gone)@[j] || bug_struck(
        bugs@[j]@,
        lv,
    )) by {
        assert(bv[j] == bugs@[j]@);
    }
}

/// A laser and a bug at the same point both go in the collision pass; a
/// laser and a bug exactly the hit radius apart both stay.
pub proof fn lemma_hit_threshold(l: Laser, b: Bug)
    ensures
        l.pos == b.pos ==> laser_struck(l@, bug_views(seq![b])) && bug_struck(b@, laser_views(seq![l])),
        distance_squared(l@, b@.at) == HIT_RADIUS * HIT_RADIUS ==> !laser_struck(l@, bug_views(seq![b]))
            && !bug_struck(b@, laser_views(seq![l])),
{
    let bs = bug_views(seq![b]);
    let ls = laser_views(seq![l]);
    assert(bs[0] == b@);
    assert(ls[0] == l@);
    if l.pos == b.pos {
        assert(distance_squared(l@, b@.at) == 0);
        assert(hit(l@, bs[0].at));
        assert(hit(ls[0], b@.at));
    }
}

} // verus!
