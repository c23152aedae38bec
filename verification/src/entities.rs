//! The entities of the game — ship, asteroids, lasers — as bags of plain
//! data components, and the rules that create them.

use vstd::prelude::*;
use vstd::arithmetic::div_mod::{lemma_div_is_ordered, lemma_div_multiples_vanish, lemma_mod_bound};
use crate::angle::Direction;
use crate::motion::{scaled_toward_zero, Position, Velocity};
use crate::rng::random_u64;
use crate::trig::{cos_md, cos_spec, sin_md, sin_spec};
use crate::{BULLET_SPEED, FULL_TURN, MAX_SPEED, QUARTER_TURN, SCALE, WINDOW_X, WINDOW_Y};

verus! {

/// Hit points of an entity; initialized at spawn and, with no collision
/// system in the game, never consumed.
#[derive(Clone, Copy)]
pub struct Health(pub u64);

/// The damage a laser would deal on impact.
#[derive(Clone, Copy)]
pub struct Damage {
    pub damage: u64,
}

/// Marks the player-controlled entity in queries shared with asteroids.
#[derive(Clone, Copy)]
pub struct Human {
    pub is_human: bool,
}

/// How long a newly fired laser lives, in milliseconds.
pub const LASER_LIFETIME_MS: u64 = 500;

/// One-shot countdown driving a laser's despawn.
#[derive(Clone, Copy)]
pub struct ProjectileTimer {
    pub remaining_ms: u64,
    pub elapsed: bool,
}

impl ProjectileTimer {
    /// Advance the countdown by `delta_ms`; once it runs out the timer is
    /// marked elapsed, and it never becomes un-elapsed again.
    pub fn tick(&mut self, delta_ms: u64)
        ensures
            *final(self) == ticked_timer(*old(self), delta_ms),
    {
        if delta_ms >= self.remaining_ms {
            self.remaining_ms = 0;
            self.elapsed = true;
        } else {
            self.remaining_ms = self.remaining_ms - delta_ms;
        }
    }
}

/// Everything the player ship carries.
#[derive(Clone, Copy)]
pub struct PlayerShipBundle {
    pub health: Health,
    pub position: Position,
    pub velocity: Velocity,
    pub direction: Direction,
    pub human: Human,
}

impl PlayerShipBundle {
    /// A ship flies below top speed with a well-formed heading.
    pub open spec fn wf_core(self) -> bool {
        &&& self.velocity.bounded()
        &&& self.velocity.speed_sq() <= MAX_SPEED * MAX_SPEED
        &&& self.direction.wf()
    }

    /// A ship also stays inside the wrapped window.
    pub open spec fn wf(self) -> bool {
        &&& self.wf_core()
        &&& self.position.in_window()
    }
}

/// Everything an asteroid carries.
#[derive(Clone, Copy)]
pub struct AsteroidBundle {
    pub health: Health,
    pub position: Position,
    pub velocity: Velocity,
}

impl AsteroidBundle {
    /// An asteroid drifts with a capped velocity.
    pub open spec fn wf_core(self) -> bool {
        self.velocity.bounded()
    }

    /// An asteroid also stays inside the wrapped window.
    pub open spec fn wf(self) -> bool {
        &&& self.wf_core()
        &&& self.position.in_window()
    }
}

/// Everything a laser carries.
#[derive(Clone, Copy)]
pub struct LaserBundle {
    pub health: Health,
    pub position: Position,
    pub velocity: Velocity,
    pub projectile: ProjectileTimer,
    pub damage: Damage,
}

impl LaserBundle {
    /// A laser flies with a capped velocity and a countdown no longer than
    /// a fresh one.
    pub open spec fn wf_core(self) -> bool {
        &&& self.velocity.bounded()
        &&& self.projectile.remaining_ms <= LASER_LIFETIME_MS
    }

    /// A laser also stays inside the wrapped window.
    pub open spec fn wf(self) -> bool {
        &&& self.wf_core()
        &&& self.position.in_window()
    }
}

/// The timer `t` after `delta_ms` more milliseconds have passed.
pub open spec fn ticked_timer(t: ProjectileTimer, delta_ms: u64) -> ProjectileTimer {
    ProjectileTimer {
        remaining_ms: if delta_ms >= t.remaining_ms {
            0
        } else {
            (t.remaining_ms - delta_ms) as u64
        },
        elapsed: t.elapsed || t.remaining_ms <= delta_ms,
    }
}

/// `l` is the laser that firing from `position` at `velocity` along
/// `direction` produces: it starts where the firer is, adds the bullet
/// speed along the heading to the firer's own velocity, and carries a
/// fresh countdown, one hit point and its fixed damage.
pub open spec fn is_fresh_laser_from(
    l: LaserBundle,
    position: Position,
    velocity: Velocity,
    direction: Direction,
) -> bool {
    &&& l.health.0 == 1
    &&& l.damage.damage == 5
    &&& l.position == position
    &&& l.velocity.x_vel == scaled_toward_zero(
        cos_spec(direction.angle as int),
        BULLET_SPEED as int,
        SCALE as int,
    ) + velocity.x_vel
    &&& l.velocity.y_vel == scaled_toward_zero(
        sin_spec(direction.angle as int),
        BULLET_SPEED as int,
        SCALE as int,
    ) + velocity.y_vel
    &&& l.projectile.remaining_ms == LASER_LIFETIME_MS
    &&& !l.projectile.elapsed
}

/// Create the one player ship: at the origin, at rest, facing straight up.
pub fn spawn_player() -> (p: PlayerShipBundle)
    ensures
        p.wf(),
        p.health.0 == 10,
        p.position.x == 0 && p.position.y == 0,
        p.velocity.x_vel == 0 && p.velocity.y_vel == 0,
        p.direction.angle == QUARTER_TURN,
        p.human.is_human,
{
    PlayerShipBundle {
        health: Health(10),
        position: Position { x: 0, y: 0 },
        velocity: Velocity { x_vel: 0, y_vel: 0 },
        direction: Direction { angle: QUARTER_TURN },
        human: Human { is_human: true },
    }
}

/// Multiply a unit-length trig value by a nonnegative speed and drop the
/// fixed-point scale, truncating toward zero.
fn speed_times_unit(c: i64, speed: i64) -> (res: i64)
    requires
        -SCALE <= c <= SCALE,
        0 <= speed <= MAX_SPEED,
    ensures
        res as int == scaled_toward_zero(c as int, speed as int, SCALE as int),
        -speed <= res <= speed,
{
    proof {
        let ca = if c >= 0 { c as int } else { -(c as int) };
        assert(0 <= ca * speed <= SCALE * speed) by (nonlinear_arith)
            requires
                0 <= ca <= SCALE,
                speed >= 0,
        ;
        lemma_div_is_ordered(0, ca * speed, SCALE as int);
        lemma_div_is_ordered(ca * speed, SCALE * speed, SCALE as int);
        lemma_div_multiples_vanish(speed as int, SCALE as int);
        assert(SCALE * speed == speed * SCALE);
    }
    if c >= 0 {
        (c * speed) / SCALE
    } else {
        let m: i64 = (-c) * speed;
        -(m / SCALE)
    }
}

/// Build an asteroid from four uniform draws: a heading, a speed below the
/// cap, and a coordinate on each axis shifted into the centered window.
/// Whatever the draws were, the asteroid lands within the window's centered
/// coordinate bounds.
pub fn asteroid_from_draws(d_angle: u64, d_speed: u64, d_x: u64, d_y: u64) -> (a: AsteroidBundle)
    ensures
        a.wf(),
        a.health.0 == 10,
        ({
            let angle = (d_angle as int) % (FULL_TURN as int);
            let speed = (d_speed as int) % (MAX_SPEED as int);
            let raw_x = (d_x as int) % (WINDOW_X as int);
            let raw_y = (d_y as int) % (WINDOW_Y as int);
            &&& a.position.x == (if raw_x > WINDOW_X / 2 {
                raw_x - WINDOW_X
            } else {
                raw_x
            })
            &&& a.position.y == (if raw_y > WINDOW_Y / 2 {
                raw_y - WINDOW_Y
            } else {
                raw_y
            })
            &&& a.velocity.x_vel == scaled_toward_zero(cos_spec(angle), speed, SCALE as int)
            &&& a.velocity.y_vel == scaled_toward_zero(sin_spec(angle), speed, SCALE as int)
        }),
        -(WINDOW_X / 2) < a.position.x <= WINDOW_X / 2,
        -(WINDOW_Y / 2) < a.position.y <= WINDOW_Y / 2,
        -MAX_SPEED < a.velocity.x_vel < MAX_SPEED,
        -MAX_SPEED < a.velocity.y_vel < MAX_SPEED,
{
    proof {
        lemma_mod_bound(d_angle as int, FULL_TURN as int);
        lemma_mod_bound(d_speed as int, MAX_SPEED as int);
        lemma_mod_bound(d_x as int, WINDOW_X as int);
        lemma_mod_bound(d_y as int, WINDOW_Y as int);
    }
    let angle: i64 = (d_angle % (FULL_TURN as u64)) as i64;
    let speed: i64 = (d_speed % (MAX_SPEED as u64)) as i64;
    let raw_x: i64 = (d_x % (WINDOW_X as u64)) as i64;
    let raw_y: i64 = (d_y % (WINDOW_Y as u64)) as i64;

    let pos_x: i64 = if raw_x > WINDOW_X / 2 {
        raw_x - WINDOW_X
    } else {
        raw_x
    };
    let pos_y: i64 = if raw_y > WINDOW_Y / 2 {
        raw_y - WINDOW_Y
    } else {
        raw_y
    };

    let vel_x: i64 = speed_times_unit(cos_md(angle), speed);
    let vel_y: i64 = speed_times_unit(sin_md(angle), speed);

    AsteroidBundle {
        health: Health(10),
        position: Position { x: pos_x, y: pos_y },
        velocity: Velocity { x_vel: vel_x, y_vel: vel_y },
    }
}

/// Create an asteroid at a random position, drifting at a random heading
/// and speed. The draws are random, but the asteroid always lands within
/// the window's centered coordinate bounds, below top speed.
pub fn spawn_asteroid() -> (a: AsteroidBundle)
    ensures
        a.wf(),
        a.health.0 == 10,
        -(WINDOW_X / 2) < a.position.x <= WINDOW_X / 2,
        -(WINDOW_Y / 2) < a.position.y <= WINDOW_Y / 2,
        -MAX_SPEED < a.velocity.x_vel < MAX_SPEED,
        -MAX_SPEED < a.velocity.y_vel < MAX_SPEED,
{
    let d_angle: u64 = random_u64();
    let d_speed: u64 = random_u64();
    let d_x: u64 = random_u64();
    let d_y: u64 = random_u64();
    asteroid_from_draws(d_angle, d_speed, d_x, d_y)
}

/// Fire a laser from a firing entity, if the fire key is down: it starts at
/// the firer's position and inherits the firer's momentum on top of the
/// bullet speed along the firer's heading, with a fresh lifetime countdown.
pub fn fire_laser(
    position: &Position,
    velocity: &Velocity,
    direction: &Direction,
    fire_pressed: bool,
) -> (r: Option<LaserBundle>)
    requires
        position.in_window(),
        velocity.bounded(),
        velocity.speed_sq() <= MAX_SPEED * MAX_SPEED,
        direction.wf(),
    ensures
        r is Some <==> fire_pressed,
        r is Some ==> r->Some_0.wf() && is_fresh_laser_from(
            r->Some_0,
            *position,
            *velocity,
            *direction,
        ),
{
    if !fire_pressed {
        return None;
    }
    proof {
        assert(MAX_SPEED * MAX_SPEED == 10_000_000_000int) by (nonlinear_arith)
            requires
                MAX_SPEED == 100_000int,
        ;
        assert(-100_000 <= velocity.x_vel <= 100_000 && -100_000 <= velocity.y_vel
            <= 100_000) by (nonlinear_arith)
            requires
                velocity.x_vel * velocity.x_vel + velocity.y_vel * velocity.y_vel
                    <= 10_000_000_000int,
        ;
    }
    let bullet_x: i64 = speed_times_unit(cos_md(direction.angle), BULLET_SPEED);
    let bullet_y: i64 = speed_times_unit(sin_md(direction.angle), BULLET_SPEED);
    Some(
        LaserBundle {
            health: Health(1),
            position: Position { x: position.x, y: position.y },
            velocity: Velocity {
                x_vel: bullet_x + velocity.x_vel,
                y_vel: bullet_y + velocity.y_vel,
            },
            projectile: ProjectileTimer { remaining_ms: LASER_LIFETIME_MS, elapsed: false },
            damage: Damage { damage: 5 },
        },
    )
}

} // verus!
