use asteroids::{spawn_asteroid, KeyState, World};

fn no_keys() -> KeyState {
    KeyState { left: false, right: false, up: false, down: false, fire: false }
}

#[test]
fn new_world_has_ship_and_asteroid() {
    let w = World::new();
    assert_eq!(w.ships.len(), 1);
    assert_eq!(w.asteroids.len(), 1);
    assert_eq!(w.lasers.len(), 0);
    let ship = &w.ships[0];
    assert_eq!(ship.position.x, 0);
    assert_eq!(ship.position.y, 0);
    assert_eq!(ship.direction.angle, 90_000);
    assert!(ship.human.is_human);
}

#[test]
fn idle_ticks_leave_ship_at_origin() {
    let mut w = World::new();
    let keys = no_keys();
    for _ in 0..10 {
        w.tick(&keys, 16);
    }
    assert_eq!(w.ships[0].position.x, 0);
    assert_eq!(w.ships[0].position.y, 0);
    assert_eq!(w.lasers.len(), 0);
}

#[test]
fn laser_despawns_after_its_lifetime() {
    let mut w = World::new();
    let mut keys = no_keys();
    keys.fire = true;
    w.tick(&keys, 0);
    assert_eq!(w.lasers.len(), 1);

    keys.fire = false;
    w.tick(&keys, 499);
    assert_eq!(w.lasers.len(), 1);
    w.tick(&keys, 1);
    assert_eq!(w.lasers.len(), 0);
    for _ in 0..5 {
        w.tick(&keys, 100);
        assert_eq!(w.lasers.len(), 0);
    }
}

#[test]
fn laser_despawns_under_split_deltas() {
    let mut w = World::new();
    let mut keys = no_keys();
    keys.fire = true;
    w.tick(&keys, 0);
    keys.fire = false;
    w.tick(&keys, 250);
    assert_eq!(w.lasers.len(), 1);
    w.tick(&keys, 250);
    assert_eq!(w.lasers.len(), 0);
}

#[test]
fn holding_fire_spawns_one_laser_per_ship_per_tick() {
    let mut w = World::new();
    let mut keys = no_keys();
    keys.fire = true;
    w.tick(&keys, 0);
    w.tick(&keys, 0);
    w.tick(&keys, 0);
    assert_eq!(w.lasers.len(), 3);
}

#[test]
fn fresh_laser_flies_up_from_resting_ship() {
    let mut w = World::new();
    let mut keys = no_keys();
    keys.fire = true;
    w.tick(&keys, 0);
    let laser = &w.lasers[0];
    assert_eq!(laser.velocity.x_vel, 0);
    assert_eq!(laser.velocity.y_vel, 100_000);
    assert_eq!(laser.position.x, 0);
    assert_eq!(laser.position.y, 0);
}

#[test]
fn one_tick_of_turning_steps_the_heading() {
    let mut w = World::new();
    let mut keys = no_keys();
    keys.left = true;
    w.tick(&keys, 16);
    assert_eq!(w.ships[0].direction.angle, 90_000 + 1_719);
    assert_eq!(w.ships[0].velocity.x_vel, 0);
    assert_eq!(w.ships[0].position.x, 0);
}

#[test]
fn turning_back_restores_the_heading() {
    let mut w = World::new();
    let mut keys = no_keys();
    keys.left = true;
    w.tick(&keys, 16);
    keys.left = false;
    keys.right = true;
    w.tick(&keys, 16);
    assert_eq!(w.ships[0].direction.angle, 90_000);
}

#[test]
fn ship_speed_stays_capped_under_held_thrust() {
    let mut w = World::new();
    let mut keys = no_keys();
    keys.up = true;
    for _ in 0..500 {
        w.tick(&keys, 16);
        let v = &w.ships[0].velocity;
        assert!(v.x_vel * v.x_vel + v.y_vel * v.y_vel <= 10_000_000_000);
    }
}

#[test]
fn turning_while_thrusting_keeps_ship_in_window() {
    let mut w = World::new();
    let mut keys = no_keys();
    keys.up = true;
    keys.left = true;
    for _ in 0..2_000 {
        w.tick(&keys, 16);
        let p = &w.ships[0].position;
        assert!(-655_000 <= p.x && p.x <= 655_000);
        assert!(-375_000 <= p.y && p.y <= 375_000);
        let d = w.ships[0].direction.angle;
        assert!(0 <= d && d < 360_000);
    }
}

#[test]
fn braking_slows_a_moving_ship() {
    let mut w = World::new();
    let mut keys = no_keys();
    keys.up = true;
    for _ in 0..50 {
        w.tick(&keys, 16);
    }
    let before = {
        let v = &w.ships[0].velocity;
        v.x_vel * v.x_vel + v.y_vel * v.y_vel
    };
    keys.up = false;
    keys.down = true;
    for _ in 0..10 {
        w.tick(&keys, 16);
    }
    let after = {
        let v = &w.ships[0].velocity;
        v.x_vel * v.x_vel + v.y_vel * v.y_vel
    };
    assert!(after < before);
}

#[test]
fn random_asteroids_always_land_in_bounds() {
    for _ in 0..50 {
        let a = spawn_asteroid();
        assert!(-640_000 < a.position.x && a.position.x <= 640_000);
        assert!(-360_000 < a.position.y && a.position.y <= 360_000);
        assert!(-100_000 < a.velocity.x_vel && a.velocity.x_vel < 100_000);
        assert!(-100_000 < a.velocity.y_vel && a.velocity.y_vel < 100_000);
    }
}

#[test]
fn asteroid_drifts_and_wraps_over_many_ticks() {
    let mut w = World::new();
    let keys = no_keys();
    for _ in 0..5_000 {
        w.tick(&keys, 16);
        let p = &w.asteroids[0].position;
        assert!(-655_000 <= p.x && p.x <= 655_000);
        assert!(-375_000 <= p.y && p.y <= 375_000);
    }
    assert_eq!(w.asteroids[0].health.0, 10);
}
