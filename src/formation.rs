use vstd::prelude::*;

use crate::geometry::{PlayArea, Point, Pos};

verus! {

/// Distance a bug moves each tick, sideways or down: two pixels.
pub const BUG_STEP: i64 = 512;

/// Number of ticks a bug spends stepping down at an edge.
pub const DESCENT_TICKS: u32 = 12;

/// Where a bug is going.
#[derive(Clone, Copy, Debug, PartialEq, Eq, Structural)]
pub enum BugMovement {
    Left,
    Right,
    /// Stepping down for `n` more ticks, then moving left when `next_left`
    /// holds and right otherwise.
    Down { n: u32, next_left: bool },
}

/// One bug of the formation.
#[derive(Clone, Copy, Debug, PartialEq, Eq, Structural)]
pub struct Bug {
    pub movement: BugMovement,
    pub pos: Pos,
}

/// The mathematical value of a bug.
pub struct BugView {
    pub movement: BugMovement,
    pub at: Point,
}

impl View for Bug {
    type V = BugView;

    open spec fn view(&self) -> BugView {
        BugView { movement: self.movement, at: self.pos@ }
    }
}

/// The direction a bug takes up again after its descent.
pub open spec fn resumed(next_left: bool) -> BugMovement {
    if next_left {
        BugMovement::Left
    } else {
        BugMovement::Right
    }
}

/// One tick of a bug in a play area reaching `half_width` on each side.
pub open spec fn bug_step(b: BugView, half_width: int) -> BugView {
    match b.movement {
        BugMovement::Left => {
            let x = b.at.x - BUG_STEP;
            BugView {
                movement: if x < -half_width {
                    BugMovement::Down { n: DESCENT_TICKS, next_left: false }
                } else {
                    BugMovement::Left
                },
                at: Point { x, y: b.at.y },
            }
        },
        BugMovement::Right => {
            let x = b.at.x + BUG_STEP;
            BugView {
                movement: if x > half_width {
                    BugMovement::Down { n: DESCENT_TICKS, next_left: true }
                } else {
                    BugMovement::Right
                },
                at: Point { x, y: b.at.y },
            }
        },
        BugMovement::Down { n, next_left } => BugView {
            movement: if n - 1 < 1 {
                resumed(next_left)
            } else {
                BugMovement::Down { n: (n - 1) as u32, next_left }
            },
            at: Point { x: b.at.x, y: b.at.y - BUG_STEP },
        },
    }
}

/// A bug after `ticks` ticks.
pub open spec fn bug_steps(b: BugView, half_width: int, ticks: nat) -> BugView
    decreases ticks,
{
    if ticks == 0 {
        b
    } else {
        bug_step(bug_steps(b, half_width, (ticks - 1) as nat), half_width)
    }
}

/// The next tick of a bug can be computed without overflow.
pub open spec fn bug_fits(b: Bug) -> bool {
    &&& i64::MIN + BUG_STEP <= b.pos.x <= i64::MAX - BUG_STEP
    &&& i64::MIN + BUG_STEP <= b.pos.y
}

impl Bug {
    /// One tick of the formation mover for this bug.
    pub fn step(&mut self, area: &PlayArea)
        requires
            area.wf(),
            bug_fits(*old(self)),
        ensures
            final(self)@ == bug_step(old(self)@, area.half_width as int),
    {
        let half_width = area.half_width;
        match self.movement {
            BugMovement::Left => {
                self.pos.x = self.pos.x - BUG_STEP;
                if self.pos.x < -half_width {
                    self.movement = BugMovement::Down { n: DESCENT_TICKS, next_left: false };
                }
            },
            BugMovement::Right => {
                self.pos.x = self.pos.x + BUG_STEP;
                if self.pos.x > half_width {
                    self.movement = BugMovement::Down { n: DESCENT_TICKS, next_left: true };
                }
            },
            BugMovement::Down { n, next_left } => {
                self.pos.y = self.pos.y - BUG_STEP;
                if n <= 1 {
                    self.movement = if next_left {
                        BugMovement::Left
                    } else {
                        BugMovement::Right
                    };
                } else {
                    self.movement = BugMovement::Down { n: n - 1, next_left };
                }
            },
        }
    }
}

/// The view of every bug of a formation.
pub open spec fn bug_views(bugs: Seq<Bug>) -> Seq<BugView> {
    bugs.map_values(|b: Bug| b@)
}

/// One tick of the formation mover: every bug takes its own step.
pub open spec fn formation_step(bugs: Seq<BugView>, half_width: int) -> Seq<BugView> {
    bugs.map_values(|b: BugView| bug_step(b, half_width))
}

/// The formation mover: advances every bug by one tick, each independently.
pub fn bug_movement(bugs: &mut Vec<Bug>, area: &PlayArea)
    requires
        area.wf(),
        forall|i: int| 0 <= i < old(bugs)@.len() ==> bug_fits(#[trigger] old(bugs)@[i]),
    ensures
        bug_views(final(bugs)@) == formation_step(bug_views(old(bugs)@), area.half_width as int),
{
    let n = bugs.len();
    let mut i: usize = 0;
    while i < n
        invariant
            area.wf(),
            n == bugs@.len(),
            bugs@.len() == old(bugs)@.len(),
            0 <= i <= n,
            forall|k: int| 0 <= k < i ==> (#[trigger] bugs@[k])@ == bug_step(old(bugs)@[k]@, area.half_width as int),
            forall|k: int| i <= k < n ==> #[trigger] bugs@[k] == old(bugs)@[k],
            forall|k: int| 0 <= k < old(bugs)@.len() ==> bug_fits(#[trigger] old(bugs)@[k]),
        decreases n - i,
    {
        let mut b = bugs[i];
        b.step(area);
        bugs.set(i, b);
        i = i + 1;
    }
    assert(bug_views(bugs@) =~= formation_step(bug_views(old(bugs)@), area.half_width as int));
}

/// Number of rows of the formation.
pub const FORMATION_ROWS: usize = 4;

/// Number of bugs in each row of the formation.
pub const FORMATION_COLUMNS: usize = 20;

/// Spacing of the formation's grid: thirty pixels.
pub const GRID_SPACING: i64 = 7680;

/// Horizontal position of the formation's first column: 300 pixels left of the centre.
pub const GRID_LEFT: i64 = -76800;

/// Vertical position of the formation's first row: 200 pixels above the centre.
pub const GRID_TOP: i64 = 51200;

/// The bug that starts at `row` and `col` of the formation. Even rows start
/// moving left, odd rows right.
pub open spec fn grid_bug(row: int, col: int) -> Bug {
    Bug {
        movement: if row % 2 == 0 {
            BugMovement::Left
        } else {
            BugMovement::Right
        },
        pos: Pos { x: (GRID_LEFT + col * GRID_SPACING) as i64, y: (GRID_TOP - row * GRID_SPACING) as i64 },
    }
}

/// The starting formation, row by row: the bug at `row` and `col` is at
/// index `row * FORMATION_COLUMNS + col`.
pub open spec fn starting_formation() -> Seq<Bug> {
    Seq::new(
        (FORMATION_ROWS * FORMATION_COLUMNS) as nat,
        |i: int| grid_bug(i / FORMATION_COLUMNS as int, i % FORMATION_COLUMNS as int),
    )
}

/// The starting formation, row by row.
pub fn spawn_formation() -> (bugs: Vec<Bug>)
    ensures
        bugs@ == starting_formation(),
        forall|row: int, col: int|
            0 <= row < FORMATION_ROWS && 0 <= col < FORMATION_COLUMNS ==> bugs@[row * FORMATION_COLUMNS + col]
                == #[trigger] grid_bug(row, col),
{
    let mut bugs: Vec<Bug> = Vec::new();
    let mut row: usize = 0;
    while row < FORMATION_ROWS
        invariant
            row <= FORMATION_ROWS,
            bugs@.len() == row * FORMATION_COLUMNS,
            forall|r: int, c: int|
                0 <= r < row && 0 <= c < FORMATION_COLUMNS ==> bugs@[r * FORMATION_COLUMNS + c]
                    == #[trigger] grid_bug(r, c),
        decreases FORMATION_ROWS - row,
    {
        let y = GRID_TOP - (row as i64) * GRID_SPACING;
        let movement = if row % 2 == 0 {
            BugMovement::Left
        } else {
            BugMovement::Right
        };
        let mut col: usize = 0;
        while col < FORMATION_COLUMNS
            invariant
                row < FORMATION_ROWS,
                col <= FORMATION_COLUMNS,
                y == GRID_TOP - row * GRID_SPACING,
                movement == (if row % 2 == 0 {
                    BugMovement::Left
                } else {
                    BugMovement::Right
                }),
                bugs@.len() == row * FORMATION_COLUMNS + col,
                forall|r: int, c: int|
                    0 <= r < row && 0 <= c < FORMATION_COLUMNS ==> bugs@[r * FORMATION_COLUMNS + c]
                        == #[trigger] grid_bug(r, c),
                forall|c: int| 0 <= c < col ==> bugs@[row * FORMATION_COLUMNS + c] == #[trigger] grid_bug(row as int, c),
            decreases FORMATION_COLUMNS - col,
        {
            let x = GRID_LEFT + (col as i64) * GRID_SPACING;
            bugs.push(Bug { movement, pos: Pos { x, y } });
            col = col + 1;
        }
        row = row + 1;
    }
    bugs
}

/// Ticks a bug moving left at `x` takes to reach the left edge and start
/// its descent.
pub open spec fn ticks_to_left_edge(x: int, half_width: int) -> int {
    if x + half_width < 0 {
        1
    } else {
        (x + half_width) / (BUG_STEP as int) + 1
    }
}

proof fn lemma_moving_left(b: BugView, half_width: int, k: nat)
    requires
        b.movement == BugMovement::Left,
        half_width >= 0,
        k < ticks_to_left_edge(b.at.x, half_width),
    ensures
        bug_steps(b, half_width, k) == (BugView {
            movement: BugMovement::Left,
            at: Point { x: b.at.x - k * BUG_STEP, y: b.at.y },
        }),
    decreases k,
{
    if k > 0 {
        lemma_moving_left(b, half_width, (k - 1) as nat);
    }
}

/// A bug moving left keeps moving left, one step per tick, until it passes
/// the left edge of the play area; on that tick it starts a descent that
/// ends moving right. The number of ticks this takes is at most the width
/// of the play area divided by the step, plus one, when the bug starts
/// inside the play area.
pub proof fn lemma_left_reaches_descent(b: BugView, half_width: int)
    requires
        b.movement == BugMovement::Left,
        half_width >= 0,
    ensures
        ticks_to_left_edge(b.at.x, half_width) >= 1,
        forall|k: nat|
            k < ticks_to_left_edge(b.at.x, half_width) ==> (#[trigger] bug_steps(b, half_width, k)).movement
                == BugMovement::Left,
        bug_steps(b, half_width, ticks_to_left_edge(b.at.x, half_width) as nat) == (BugView {
            movement: BugMovement::Down { n: DESCENT_TICKS, next_left: false },
            at: Point {
                x: b.at.x - ticks_to_left_edge(b.at.x, half_width) * BUG_STEP,
                y: b.at.y,
            },
        }),
        b.at.x <= half_width ==> ticks_to_left_edge(b.at.x, half_width) <= 2 * half_width / (BUG_STEP as int) + 1,
{
    let n = ticks_to_left_edge(b.at.x, half_width);
    assert forall|k: nat| k < n implies (#[trigger] bug_steps(b, half_width, k)).movement
        == BugMovement::Left by {
        lemma_moving_left(b, half_width, k);
    }
    lemma_moving_left(b, half_width, (n - 1) as nat);
    if b.at.x <= half_width && b.at.x + half_width >= 0 {
        vstd::arithmetic::div_mod::lemma_div_is_ordered(
            b.at.x + half_width,
            2 * half_width,
            BUG_STEP as int,
        );
    }
}

/// Ticks a bug moving right at `x` takes to reach the right edge and start
/// its descent.
pub open spec fn ticks_to_right_edge(x: int, half_width: int) -> int {
    ticks_to_left_edge(-x, half_width)
}

proof fn lemma_moving_right(b: BugView, half_width: int, k: nat)
    requires
        b.movement == BugMovement::Right,
        half_width >= 0,
        k < ticks_to_right_edge(b.at.x, half_width),
    ensures
        bug_steps(b, half_width, k) == (BugView {
            movement: BugMovement::Right,
            at: Point { x: b.at.x + k * BUG_STEP, y: b.at.y },
        }),
    decreases k,
{
    if k > 0 {
        lemma_moving_right(b, half_width, (k - 1) as nat);
    }
}

/// The mirror image of `lemma_left_reaches_descent`: a bug moving right
/// keeps moving right until it passes the right edge, and on that tick
/// starts a descent that ends moving left.
pub proof fn lemma_right_reaches_descent(b: BugView, half_width: int)
    requires
        b.movement == BugMovement::Right,
        half_width >= 0,
    ensures
        ticks_to_right_edge(b.at.x, half_width) >= 1,
        forall|k: nat|
            k < ticks_to_right_edge(b.at.x, half_width) ==> (#[trigger] bug_steps(b, half_width, k)).movement
                == BugMovement::Right,
        bug_steps(b, half_width, ticks_to_right_edge(b.at.x, half_width) as nat) == (BugView {
            movement: BugMovement::Down { n: DESCENT_TICKS, next_left: true },
            at: Point {
                x: b.at.x + ticks_to_right_edge(b.at.x, half_width) * BUG_STEP,
                y: b.at.y,
            },
        }),
        b.at.x >= -half_width ==> ticks_to_right_edge(b.at.x, half_width) <= 2 * half_width / (BUG_STEP as int) + 1,
{
    let n = ticks_to_right_edge(b.at.x, half_width);
    assert forall|k: nat| k < n implies (#[trigger] bug_steps(b, half_width, k)).movement
        == BugMovement::Right by {
        lemma_moving_right(b, half_width, k);
    }
    lemma_moving_right(b, half_width, (n - 1) as nat);
    if b.at.x >= -half_width && half_width - b.at.x >= 0 {
        vstd::arithmetic::div_mod::lemma_div_is_ordered(
            half_width - b.at.x,
            2 * half_width,
            BUG_STEP as int,
        );
    }
}

proof fn lemma_descending(b: BugView, half_width: int, n: u32, next_left: bool, k: nat)
    requires
        b.movement == (BugMovement::Down { n, next_left }),
        k < n,
    ensures
        bug_steps(b, half_width, k) == (BugView {
            movement: BugMovement::Down { n: (n - k) as u32, next_left },
            at: Point { x: b.at.x, y: b.at.y - k * BUG_STEP },
        }),
    decreases k,
{
    if k > 0 {
        lemma_descending(b, half_width, n, next_left, (k - 1) as nat);
    }
}

/// A bug that starts a descent of `n` ticks keeps descending, one step per
/// tick, and after exactly `n` ticks takes up the direction it was given,
/// `n` steps lower than it started and at the same horizontal position.
pub proof fn lemma_descent_resumes(b: BugView, half_width: int, n: u32, next_left: bool)
    requires
        b.movement == (BugMovement::Down { n, next_left }),
        n >= 1,
    ensures
        forall|k: nat| 0 < k < n ==> (#[trigger] bug_steps(b, half_width, k)).movement is Down,
        bug_steps(b, half_width, n as nat) == (BugView {
            movement: resumed(next_left),
            at: Point { x: b.at.x, y: b.at.y - n * BUG_STEP },
        }),
{
    assert forall|k: nat| 0 < k < n implies (#[trigger] bug_steps(b, half_width, k)).movement is Down by {
        lemma_descending(b, half_width, n, next_left, k);
    }
    lemma_descending(b, half_width, n, next_left, (n - 1) as nat);
}

} // verus!
