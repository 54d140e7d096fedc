use cosmo_invaders::collision::{bug_zapper, within_reach, HIT_RADIUS};
use cosmo_invaders::formation::{bug_movement, spawn_formation, Bug, BugMovement, BUG_STEP};
use cosmo_invaders::geometry::{PlayArea, Pos, SCALE};
use cosmo_invaders::laser::{laser_movement, Laser, LASER_STEP};
use cosmo_invaders::player::{decelerate, Controls, Player, MAX_VELOCITY, MUZZLE_OFFSET};
use cosmo_invaders::world::{without_gone, Game};

const IDLE: Controls = Controls { left: false, right: false, fire: false };

fn px(p: i64) -> i64 {
    p * SCALE
}

fn empty_game() -> Game {
    let mut g = Game::new(PlayArea::standard());
    g.bugs.clear();
    g
}

#[test]
fn standard_play_area() {
    let a = PlayArea::standard();
    assert_eq!(a.half_width, px(320));
    assert_eq!(a.top, px(300));
    assert_eq!(a.player_row, -px(240));
    let b = PlayArea::new(1000, 500);
    assert_eq!(b.half_width, px(400));
    assert_eq!(b.top, px(250));
    assert_eq!(b.player_row, -px(200));
}

#[test]
fn coasting_velocity_drops_to_three_quarters() {
    let area = PlayArea::standard();
    let mut p = Player { delta_x: px(16), pos: Pos { x: 0, y: area.player_row } };
    assert!(p.update(IDLE, &area).is_none());
    assert_eq!(p.delta_x, px(12));
    assert_eq!(p.pos.x, px(16));
    assert!(p.update(IDLE, &area).is_none());
    assert_eq!(p.delta_x, px(9));
    assert_eq!(p.pos.x, px(28));
    let mut q = Player { delta_x: -px(8), pos: Pos { x: 0, y: 0 } };
    q.update(IDLE, &area);
    assert_eq!(q.delta_x, -px(6));
    assert_eq!(q.pos.x, -px(8));
}

#[test]
fn drag_truncates_toward_zero() {
    assert_eq!(decelerate(0), 0);
    assert_eq!(decelerate(1), 0);
    assert_eq!(decelerate(-1), 0);
    assert_eq!(decelerate(5), 3);
    assert_eq!(decelerate(-5), -3);
    assert_eq!(decelerate(MAX_VELOCITY), 3072);
}

#[test]
fn speed_is_clamped_before_moving() {
    let area = PlayArea::standard();
    let mut p = Player { delta_x: px(16), pos: Pos { x: 0, y: 0 } };
    p.update(Controls { left: false, right: true, fire: false }, &area);
    assert_eq!(p.pos.x, px(16));
    assert_eq!(p.delta_x, px(12));
}

#[test]
fn both_keys_cancel_out() {
    let area = PlayArea::standard();
    let mut p = Player { delta_x: 0, pos: Pos { x: 0, y: 0 } };
    p.update(Controls { left: true, right: true, fire: false }, &area);
    assert_eq!(p.delta_x, 0);
    assert_eq!(p.pos.x, 0);
    p.update(Controls { left: true, right: false, fire: false }, &area);
    assert_eq!(p.pos.x, -px(1));
    assert_eq!(p.delta_x, -192);
}

#[test]
fn player_stays_in_play_area() {
    let area = PlayArea::standard();
    let mut p = Player::new(&area);
    for _ in 0..1000 {
        p.update(Controls { left: false, right: true, fire: false }, &area);
        assert!(p.pos.x <= area.half_width && p.pos.x >= -area.half_width);
    }
    assert_eq!(p.pos.x, area.half_width);
    for _ in 0..1000 {
        p.update(Controls { left: true, right: false, fire: false }, &area);
        assert!(p.pos.x <= area.half_width && p.pos.x >= -area.half_width);
    }
    assert_eq!(p.pos.x, -area.half_width);
    let mut far = Player { delta_x: 0, pos: Pos { x: px(5000), y: 0 } };
    far.update(IDLE, &area);
    assert_eq!(far.pos.x, area.half_width);
}

#[test]
fn fire_creates_laser_above_ship() {
    let area = PlayArea::standard();
    let mut p = Player { delta_x: 0, pos: Pos { x: px(10), y: area.player_row } };
    let shot = p.update(Controls { left: false, right: true, fire: true }, &area);
    assert_eq!(shot, Some(Laser { pos: Pos { x: px(11), y: area.player_row + MUZZLE_OFFSET } }));
}

#[test]
fn left_bug_reaches_descent() {
    let area = PlayArea::standard();
    let mut b = Bug { movement: BugMovement::Left, pos: Pos { x: 0, y: 0 } };
    let mut ticks = 0;
    while b.movement == BugMovement::Left {
        b.step(&area);
        ticks += 1;
        assert!(ticks <= 2 * area.half_width / BUG_STEP + 1);
    }
    assert_eq!(ticks, area.half_width / BUG_STEP + 1);
    assert_eq!(b.movement, BugMovement::Down { n: 12, next_left: false });
}

#[test]
fn right_bug_reaches_descent() {
    let area = PlayArea::standard();
    let mut b = Bug { movement: BugMovement::Right, pos: Pos { x: px(300), y: 0 } };
    for _ in 0..10 {
        b.step(&area);
        assert_eq!(b.movement, BugMovement::Right);
    }
    b.step(&area);
    assert_eq!(b.pos.x, px(322));
    assert_eq!(b.movement, BugMovement::Down { n: 12, next_left: true });
}

#[test]
fn descent_resumes_after_twelve_ticks() {
    let area = PlayArea::standard();
    let mut b = Bug { movement: BugMovement::Down { n: 12, next_left: false }, pos: Pos { x: px(7), y: px(100) } };
    for k in 1..12u32 {
        b.step(&area);
        assert_eq!(b.movement, BugMovement::Down { n: 12 - k, next_left: false });
    }
    b.step(&area);
    assert_eq!(b.movement, BugMovement::Right);
    assert_eq!(b.pos, Pos { x: px(7), y: px(100) - 12 * BUG_STEP });
    let mut c = Bug { movement: BugMovement::Down { n: 12, next_left: true }, pos: Pos { x: 0, y: 0 } };
    for _ in 0..12 {
        c.step(&area);
    }
    assert_eq!(c.movement, BugMovement::Left);
}

#[test]
fn formation_mover_moves_every_bug() {
    let area = PlayArea::standard();
    let mut bugs = vec![
        Bug { movement: BugMovement::Left, pos: Pos { x: 0, y: 0 } },
        Bug { movement: BugMovement::Right, pos: Pos { x: 0, y: 0 } },
        Bug { movement: BugMovement::Down { n: 1, next_left: true }, pos: Pos { x: 0, y: 0 } },
    ];
    bug_movement(&mut bugs, &area);
    assert_eq!(bugs[0].pos.x, -BUG_STEP);
    assert_eq!(bugs[1].pos.x, BUG_STEP);
    assert_eq!(bugs[2].pos.y, -BUG_STEP);
    assert_eq!(bugs[2].movement, BugMovement::Left);
}

#[test]
fn starting_formation_grid() {
    let bugs = spawn_formation();
    assert_eq!(bugs.len(), 80);
    assert_eq!(bugs[0], Bug { movement: BugMovement::Left, pos: Pos { x: -px(300), y: px(200) } });
    assert_eq!(bugs[19].pos, Pos { x: px(270), y: px(200) });
    assert_eq!(bugs[20], Bug { movement: BugMovement::Right, pos: Pos { x: -px(300), y: px(170) } });
    assert_eq!(bugs[79], Bug { movement: BugMovement::Right, pos: Pos { x: px(270), y: px(110) } });
    assert_eq!(bugs[45].movement, BugMovement::Left);
}

#[test]
fn new_game_layout() {
    let g = Game::new(PlayArea::standard());
    assert_eq!(g.player, Player { delta_x: 0, pos: Pos { x: 0, y: -px(240) } });
    assert_eq!(g.bugs.len(), 80);
    assert!(g.lasers.is_empty());
}

#[test]
fn laser_movement_marks_lasers_above_top() {
    let area = PlayArea::standard();
    let mut lasers = vec![
        Laser { pos: Pos { x: 0, y: area.top - LASER_STEP } },
        Laser { pos: Pos { x: 0, y: area.top - LASER_STEP + 1 } },
    ];
    let gone = laser_movement(&mut lasers, &area);
    assert_eq!(gone, vec![false, true]);
    assert_eq!(lasers[0].pos.y, area.top);
}

#[test]
fn laser_leaves_exactly_past_top() {
    let mut g = empty_game();
    let top = g.area.top;
    g.lasers.push(Laser { pos: Pos { x: 0, y: top - 3 * LASER_STEP } });
    for _ in 0..3 {
        g.tick(IDLE);
        assert_eq!(g.lasers.len(), 1);
    }
    assert_eq!(g.lasers[0].pos.y, top);
    g.tick(IDLE);
    assert!(g.lasers.is_empty());
}

#[test]
fn hit_needs_strictly_less_than_radius() {
    let a = Pos { x: px(10), y: px(10) };
    assert!(within_reach(&a, &a));
    assert!(!within_reach(&a, &Pos { x: px(10) + HIT_RADIUS, y: px(10) }));
    assert!(!within_reach(&a, &Pos { x: px(10), y: px(10) - HIT_RADIUS }));
    assert!(within_reach(&a, &Pos { x: px(10) + HIT_RADIUS - 1, y: px(10) }));
    assert!(within_reach(&a, &Pos { x: px(10) + 4344, y: px(10) + 4344 }));
    assert!(!within_reach(&a, &Pos { x: px(10) + 4345, y: px(10) + 4345 }));
    assert!(!within_reach(&Pos { x: i64::MIN, y: 0 }, &Pos { x: i64::MAX, y: 0 }));
}

#[test]
fn collision_at_same_point_removes_both() {
    let lasers = vec![Laser { pos: Pos { x: 5, y: 5 } }];
    let bugs = vec![Bug { movement: BugMovement::Left, pos: Pos { x: 5, y: 5 } }];
    let mut lg = vec![false];
    let mut bg = vec![false];
    bug_zapper(&lasers, &bugs, &mut lg, &mut bg);
    assert_eq!(lg, vec![true]);
    assert_eq!(bg, vec![true]);
}

#[test]
fn collision_at_radius_keeps_both() {
    let lasers = vec![Laser { pos: Pos { x: 0, y: 0 } }];
    let bugs = vec![Bug { movement: BugMovement::Left, pos: Pos { x: HIT_RADIUS, y: 0 } }];
    let mut lg = vec![false];
    let mut bg = vec![false];
    bug_zapper(&lasers, &bugs, &mut lg, &mut bg);
    assert_eq!(lg, vec![false]);
    assert_eq!(bg, vec![false]);
}

#[test]
fn one_laser_removes_every_bug_it_touches() {
    let mut g = empty_game();
    g.bugs.push(Bug { movement: BugMovement::Down { n: 5, next_left: true }, pos: Pos { x: -px(10), y: LASER_STEP + BUG_STEP } });
    g.bugs.push(Bug { movement: BugMovement::Down { n: 5, next_left: true }, pos: Pos { x: px(10), y: LASER_STEP + BUG_STEP } });
    g.bugs.push(Bug { movement: BugMovement::Down { n: 5, next_left: true }, pos: Pos { x: px(100), y: 0 } });
    g.lasers.push(Laser { pos: Pos { x: 0, y: 0 } });
    g.tick(IDLE);
    assert!(g.lasers.is_empty());
    assert_eq!(g.bugs.len(), 1);
    assert_eq!(g.bugs[0].pos.x, px(100));
}

#[test]
fn tick_collides_after_moving() {
    let mut g = empty_game();
    // Apart by more than the radius now, within it once both have moved.
    g.bugs.push(Bug { movement: BugMovement::Down { n: 5, next_left: true }, pos: Pos { x: 0, y: HIT_RADIUS + BUG_STEP + LASER_STEP - 1 } });
    g.lasers.push(Laser { pos: Pos { x: 0, y: 0 } });
    g.tick(IDLE);
    assert!(g.lasers.is_empty());
    assert!(g.bugs.is_empty());
}

#[test]
fn removal_keeps_order() {
    let items = vec![1u8, 2, 3, 4, 5];
    assert_eq!(without_gone(&items, &vec![true, false, true, false, false]), vec![2, 4, 5]);
    assert_eq!(without_gone(&items, &vec![false; 5]), items);
    assert!(without_gone(&items, &vec![true; 5]).is_empty());
}

#[test]
fn end_to_end_bug_sweep_and_descent() {
    let mut g = empty_game();
    g.bugs.push(Bug { movement: BugMovement::Left, pos: Pos { x: -px(300), y: px(200) } });
    let mut ticks = 0;
    while g.bugs[0].pos.x >= -g.area.half_width {
        g.tick(IDLE);
        ticks += 1;
    }
    assert_eq!(ticks, 11);
    assert_eq!(g.bugs[0].pos.x, -px(322));
    assert_eq!(g.bugs[0].movement, BugMovement::Down { n: 12, next_left: false });
    for _ in 0..12 {
        g.tick(IDLE);
    }
    assert_eq!(g.bugs[0].movement, BugMovement::Right);
    assert_eq!(g.bugs[0].pos, Pos { x: -px(322), y: px(200) - px(24) });
}

#[test]
fn fire_edge_makes_exactly_one_laser() {
    let mut g = empty_game();
    g.tick(Controls { left: false, right: false, fire: true });
    assert_eq!(g.lasers.len(), 1);
    assert_eq!(g.lasers[0].pos, Pos { x: 0, y: g.area.player_row + MUZZLE_OFFSET });
    g.tick(IDLE);
    assert_eq!(g.lasers.len(), 1);
    assert_eq!(g.lasers[0].pos.y, g.area.player_row + MUZZLE_OFFSET + LASER_STEP);
}

#[test]
fn new_laser_is_not_moved_on_its_first_tick() {
    let mut g = empty_game();
    g.lasers.push(Laser { pos: Pos { x: px(50), y: 0 } });
    g.tick(Controls { left: false, right: false, fire: true });
    assert_eq!(g.lasers.len(), 2);
    assert_eq!(g.lasers[0].pos, Pos { x: px(50), y: LASER_STEP });
    assert_eq!(g.lasers[1].pos.y, g.area.player_row + MUZZLE_OFFSET);
}
