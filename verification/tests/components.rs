use asteroids::{
    asteroid_from_draws, cos_md, fire_laser, opposite_heading, sin_md, spawn_player, Direction,
    Position, ProjectileTimer, Velocity,
};

const TURN_STEP: i64 = 1719;
const QUARTER_TURN: i64 = 90_000;
const FULL_TURN: i64 = 360_000;

#[test]
fn rotate_left_then_right_returns_heading() {
    let mut d = Direction { angle: QUARTER_TURN };
    d.rotate_left();
    assert_eq!(d.angle, QUARTER_TURN + TURN_STEP);
    d.rotate_right();
    assert_eq!(d.angle, QUARTER_TURN);
}

#[test]
fn rotate_right_then_left_returns_heading() {
    let mut d = Direction { angle: 0 };
    d.rotate_right();
    assert_eq!(d.angle, FULL_TURN - TURN_STEP);
    d.rotate_left();
    assert_eq!(d.angle, 0);
}

#[test]
fn rotation_wraps_at_full_turn() {
    let mut d = Direction { angle: 359_000 };
    d.rotate_left();
    assert_eq!(d.angle, 359_000 + TURN_STEP - FULL_TURN);

    let mut d = Direction { angle: 1_000 };
    d.rotate_right();
    assert_eq!(d.angle, 1_000 - TURN_STEP + FULL_TURN);
}

#[test]
fn opposite_heading_flips_half_turn() {
    assert_eq!(opposite_heading(0), 180_000);
    assert_eq!(opposite_heading(QUARTER_TURN), 270_000);
    assert_eq!(opposite_heading(200_000), 20_000);
}

#[test]
fn sine_exact_at_cardinal_headings() {
    assert_eq!(sin_md(0), 0);
    assert_eq!(sin_md(90_000), 1_000);
    assert_eq!(sin_md(180_000), 0);
    assert_eq!(sin_md(270_000), -1_000);
}

#[test]
fn cosine_exact_at_cardinal_headings() {
    assert_eq!(cos_md(0), 1_000);
    assert_eq!(cos_md(90_000), 0);
    assert_eq!(cos_md(180_000), -1_000);
    assert_eq!(cos_md(270_000), 0);
}

#[test]
fn sine_exact_at_thirty_degrees() {
    assert_eq!(sin_md(30_000), 500);
    assert_eq!(sin_md(150_000), 500);
    assert_eq!(sin_md(210_000), -500);
    assert_eq!(cos_md(60_000), 500);
}

#[test]
fn trig_stays_within_unit_length() {
    let mut a: i64 = 0;
    while a < 360_000 {
        let s = sin_md(a);
        let c = cos_md(a);
        assert!(-1_000 <= s && s <= 1_000);
        assert!(-1_000 <= c && c <= 1_000);
        a += 777;
    }
}

#[test]
fn thrust_from_rest_gives_unit_velocity() {
    let mut v = Velocity { x_vel: 0, y_vel: 0 };
    v.accelerate(QUARTER_TURN);
    assert_eq!(v.x_vel, 0);
    assert_eq!(v.y_vel, 1_000);
}

#[test]
fn thrust_then_step_moves_by_step_scale() {
    let mut v = Velocity { x_vel: 0, y_vel: 0 };
    v.accelerate(QUARTER_TURN);
    let mut p = Position { x: 0, y: 0 };
    p.integrate(&v);
    assert_eq!(p.x, 0);
    assert_eq!(p.y, 50);
}

#[test]
fn repeated_thrust_never_exceeds_max_speed() {
    let mut v = Velocity { x_vel: 0, y_vel: 0 };
    for _ in 0..150 {
        v.accelerate(0);
        assert!(v.x_vel * v.x_vel + v.y_vel * v.y_vel <= 10_000_000_000);
    }
    assert_eq!(v.x_vel, 100_000);
    assert_eq!(v.y_vel, 0);
}

#[test]
fn repeated_diagonal_thrust_never_exceeds_max_speed() {
    let mut v = Velocity { x_vel: 0, y_vel: 0 };
    for _ in 0..300 {
        v.accelerate(45_000);
        assert!(v.x_vel * v.x_vel + v.y_vel * v.y_vel <= 10_000_000_000);
    }
}

#[test]
fn thrust_clamps_onto_speed_circle() {
    let mut v = Velocity { x_vel: 100_000, y_vel: 0 };
    v.accelerate(0);
    assert_eq!(v.x_vel, 100_000);
    assert_eq!(v.y_vel, 0);
}

#[test]
fn edge_warp_moves_overshoot_to_far_side() {
    let mut p = Position { x: 626_000, y: 0 };
    p.edge_warp();
    assert_eq!(p.x, 626_000 - 1_280_000);
    assert_eq!(p.y, 0);
}

#[test]
fn edge_warp_identity_at_threshold() {
    let mut p = Position { x: 625_000, y: 345_000 };
    p.edge_warp();
    assert_eq!(p.x, 625_000);
    assert_eq!(p.y, 345_000);
    p.edge_warp();
    assert_eq!(p.x, 625_000);
    assert_eq!(p.y, 345_000);
}

#[test]
fn edge_warp_wraps_both_axes_independently() {
    let mut p = Position { x: -626_000, y: 346_000 };
    p.edge_warp();
    assert_eq!(p.x, -626_000 + 1_280_000);
    assert_eq!(p.y, 346_000 - 720_000);
}

#[test]
fn timer_elapses_exactly_when_it_runs_out() {
    let mut t = ProjectileTimer { remaining_ms: 500, elapsed: false };
    t.tick(499);
    assert_eq!(t.remaining_ms, 1);
    assert!(!t.elapsed);
    t.tick(1);
    assert_eq!(t.remaining_ms, 0);
    assert!(t.elapsed);
    t.tick(100);
    assert!(t.elapsed);
}

#[test]
fn player_spawns_at_origin_facing_up() {
    let p = spawn_player();
    assert_eq!(p.health.0, 10);
    assert_eq!(p.position.x, 0);
    assert_eq!(p.position.y, 0);
    assert_eq!(p.velocity.x_vel, 0);
    assert_eq!(p.velocity.y_vel, 0);
    assert_eq!(p.direction.angle, QUARTER_TURN);
    assert!(p.human.is_human);
}

#[test]
fn laser_fires_along_heading_and_inherits_momentum() {
    let pos = Position { x: 7, y: -3 };
    let vel = Velocity { x_vel: 10_000, y_vel: 0 };
    let dir = Direction { angle: 0 };
    let laser = fire_laser(&pos, &vel, &dir, true).unwrap();
    assert_eq!(laser.position.x, 7);
    assert_eq!(laser.position.y, -3);
    assert_eq!(laser.velocity.x_vel, 110_000);
    assert_eq!(laser.velocity.y_vel, 0);
    assert_eq!(laser.health.0, 1);
    assert_eq!(laser.damage.damage, 5);
    assert_eq!(laser.projectile.remaining_ms, 500);
    assert!(!laser.projectile.elapsed);
}

#[test]
fn no_laser_without_fire_key() {
    let pos = Position { x: 0, y: 0 };
    let vel = Velocity { x_vel: 0, y_vel: 0 };
    let dir = Direction { angle: 0 };
    assert!(fire_laser(&pos, &vel, &dir, false).is_none());
}

#[test]
fn asteroid_from_known_draws_is_exact() {
    let a = asteroid_from_draws(0, 50_000, 0, 700_000);
    assert_eq!(a.health.0, 10);
    assert_eq!(a.position.x, 0);
    assert_eq!(a.position.y, 700_000 - 720_000);
    assert_eq!(a.velocity.x_vel, 50_000);
    assert_eq!(a.velocity.y_vel, 0);
}

#[test]
fn asteroid_lands_in_bounds_for_extreme_draws() {
    let draws: [u64; 5] = [0, 1, u64::MAX, u64::MAX - 1, 1_280_000];
    for &dx in draws.iter() {
        for &dy in draws.iter() {
            let a = asteroid_from_draws(dx, dy, dx, dy);
            assert!(-640_000 < a.position.x && a.position.x <= 640_000);
            assert!(-360_000 < a.position.y && a.position.y <= 360_000);
            assert!(-100_000 < a.velocity.x_vel && a.velocity.x_vel < 100_000);
            assert!(-100_000 < a.velocity.y_vel && a.velocity.y_vel < 100_000);
        }
    }
}
