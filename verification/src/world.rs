//! The game world: an explicit arena of entities and the per-frame systems
//! that update them, invoked in a fixed order once per tick.

use vstd::prelude::*;
use crate::angle::{opposite_heading, Direction};
use crate::entities::{
    fire_laser, is_fresh_laser_from, spawn_asteroid, spawn_player, ticked_timer, AsteroidBundle,
    LaserBundle, PlayerShipBundle,
};
use crate::motion::{accel_spec, step_delta, wrap_spec, Position, Velocity};
use crate::{WINDOW_X, WINDOW_Y};

verus! {

/// The keyboard snapshot every system of one frame reads.
#[derive(Clone, Copy)]
pub struct KeyState {
    pub left: bool,
    pub right: bool,
    pub up: bool,
    pub down: bool,
    pub fire: bool,
}

/// The heading after one frame of turning input.
pub open spec fn heading_after_input(a: int, keys: KeyState) -> int {
    let turned = if keys.left {
        Direction::spec_rotate_left(a)
    } else {
        a
    };
    if keys.right {
        Direction::spec_rotate_right(turned)
    } else {
        turned
    }
}

/// The velocity after one frame of thrust input, at the already-turned
/// heading `a`: braking is reverse thrust along the heading, and forward
/// thrust follows it.
pub open spec fn velocity_after_input(vx: int, vy: int, a: int, keys: KeyState) -> (int, int) {
    let braked = if keys.down {
        accel_spec(vx, vy, Direction::spec_opposite(a))
    } else {
        (vx, vy)
    };
    if keys.up {
        accel_spec(braked.0, braked.1, a)
    } else {
        braked
    }
}

/// `n` is the ship `o` after one frame of input under `keys`.
pub open spec fn ship_after_input(o: PlayerShipBundle, n: PlayerShipBundle, keys: KeyState) -> bool {
    &&& n.direction.angle as int == heading_after_input(o.direction.angle as int, keys)
    &&& (n.velocity.x_vel as int, n.velocity.y_vel as int) == velocity_after_input(
        o.velocity.x_vel as int,
        o.velocity.y_vel as int,
        n.direction.angle as int,
        keys,
    )
    &&& n.position == o.position
    &&& n.health == o.health
    &&& n.human == o.human
}

/// `n` is `o` advanced one integration step along `v`.
pub open spec fn pos_stepped(o: Position, n: Position, v: Velocity) -> bool {
    &&& n.x == o.x + step_delta(v.x_vel as int)
    &&& n.y == o.y + step_delta(v.y_vel as int)
}

/// `n` is `o` wrapped across the window on both axes.
pub open spec fn pos_wrapped(o: Position, n: Position) -> bool {
    &&& n.x == wrap_spec(o.x as int, WINDOW_X as int)
    &&& n.y == wrap_spec(o.y as int, WINDOW_Y as int)
}

/// The laser `l` after its countdown has seen `delta_ms` more milliseconds.
pub open spec fn ticked_laser(l: LaserBundle, delta_ms: u64) -> LaserBundle {
    LaserBundle { projectile: ticked_timer(l.projectile, delta_ms), ..l }
}

/// `n` is the ship `o` after one whole frame under `keys`: the heading
/// turned, the velocity thrust-updated at the new heading, and the
/// position stepped along the new velocity and wrapped at the edges.
pub open spec fn ship_ticked(o: PlayerShipBundle, n: PlayerShipBundle, keys: KeyState) -> bool {
    let a = heading_after_input(o.direction.angle as int, keys);
    let v = velocity_after_input(o.velocity.x_vel as int, o.velocity.y_vel as int, a, keys);
    &&& n.direction.angle as int == a
    &&& (n.velocity.x_vel as int, n.velocity.y_vel as int) == v
    &&& n.position.x as int == wrap_spec(o.position.x + step_delta(v.0), WINDOW_X as int)
    &&& n.position.y as int == wrap_spec(o.position.y + step_delta(v.1), WINDOW_Y as int)
    &&& n.health == o.health
    &&& n.human == o.human
}

/// `n` is the asteroid `o` after one whole frame: it drifts one step along
/// its unchanged velocity and wraps at the edges.
pub open spec fn asteroid_ticked(o: AsteroidBundle, n: AsteroidBundle) -> bool {
    &&& n.velocity == o.velocity
    &&& n.health == o.health
    &&& n.position.x as int == wrap_spec(
        o.position.x + step_delta(o.velocity.x_vel as int),
        WINDOW_X as int,
    )
    &&& n.position.y as int == wrap_spec(
        o.position.y + step_delta(o.velocity.y_vel as int),
        WINDOW_Y as int,
    )
}

/// The whole simulation state: every entity, stored by kind.
pub struct World {
    pub ships: Vec<PlayerShipBundle>,
    pub asteroids: Vec<AsteroidBundle>,
    pub lasers: Vec<LaserBundle>,
}

impl World {
    /// Every entity is well formed and inside the wrapped window.
    pub open spec fn wf(self) -> bool {
        &&& forall|i: int| 0 <= i < self.ships@.len() ==> (#[trigger] self.ships@[i]).wf()
        &&& forall|i: int|
            0 <= i < self.asteroids@.len() ==> (#[trigger] self.asteroids@[i]).wf()
        &&& forall|i: int| 0 <= i < self.lasers@.len() ==> (#[trigger] self.lasers@[i]).wf()
    }

    /// Between integration and edge-wrap: every entity is well formed but
    /// may have drifted one step past the window bounds.
    pub open spec fn wf_drifted(self) -> bool {
        &&& forall|i: int|
            0 <= i < self.ships@.len() ==> (#[trigger] self.ships@[i]).wf_core()
                && self.ships@[i].position.near_window()
        &&& forall|i: int|
            0 <= i < self.asteroids@.len() ==> (#[trigger] self.asteroids@[i]).wf_core()
                && self.asteroids@[i].position.near_window()
        &&& forall|i: int|
            0 <= i < self.lasers@.len() ==> (#[trigger] self.lasers@[i]).wf_core()
                && self.lasers@[i].position.near_window()
    }

    /// Start a game: one player ship at the origin and one asteroid at a
    /// random spot, no lasers yet.
    pub fn new() -> (w: World)
        ensures
            w.wf(),
            w.ships@.len() == 1,
            w.ships@[0].position.x == 0 && w.ships@[0].position.y == 0,
            w.ships@[0].velocity.x_vel == 0 && w.ships@[0].velocity.y_vel == 0,
            w.ships@[0].direction.angle == crate::QUARTER_TURN,
            w.ships@[0].human.is_human,
            w.asteroids@.len() == 1,
            -(crate::WINDOW_X / 2) < w.asteroids@[0].position.x <= crate::WINDOW_X / 2,
            -(crate::WINDOW_Y / 2) < w.asteroids@[0].position.y <= crate::WINDOW_Y / 2,
            w.lasers@.len() == 0,
    {
        let mut ships: Vec<PlayerShipBundle> = Vec::new();
        ships.push(spawn_player());
        let mut asteroids: Vec<AsteroidBundle> = Vec::new();
        asteroids.push(spawn_asteroid());
        World { ships, asteroids, lasers: Vec::new() }
    }
}

/// One frame of input applied to a single ship, in the order the systems
/// read the keys: turn left, turn right, brake, thrust.
fn ship_input(keys: &KeyState, ship: &mut PlayerShipBundle)
    requires
        old(ship).wf_core(),
    ensures
        final(ship).wf_core(),
        ship_after_input(*old(ship), *final(ship), *keys),
{
    if keys.left {
        ship.direction.rotate_left();
    }
    if keys.right {
        ship.direction.rotate_right();
    }
    if keys.down {
        let back: i64 = opposite_heading(ship.direction.angle);
        ship.velocity.accelerate(back);
    }
    if keys.up {
        let ahead: i64 = ship.direction.angle;
        ship.velocity.accelerate(ahead);
    }
}

impl World {
    /// Read the key snapshot once and steer every player-controlled ship:
    /// left/right step the heading by the turn rate, down brakes with
    /// reverse thrust, up thrusts forward with the speed clamp.
    pub fn player_input(&mut self, keys: &KeyState)
        requires
            old(self).wf(),
        ensures
            final(self).wf(),
            final(self).ships@.len() == old(self).ships@.len(),
            forall|i: int|
                0 <= i < old(self).ships@.len() ==> ship_after_input(
                    old(self).ships@[i],
                    #[trigger] final(self).ships@[i],
                    *keys,
                ),
            final(self).asteroids@ == old(self).asteroids@,
            final(self).lasers@ == old(self).lasers@,
    {
        let n: usize = self.ships.len();
        let mut i: usize = 0;
        while i < n
            invariant
                n == self.ships@.len(),
                n == old(self).ships@.len(),
                0 <= i <= n,
                forall|j: int| i <= j < n ==> self.ships@[j] == old(self).ships@[j],
                forall|j: int|
                    0 <= j < i ==> (#[trigger] self.ships@[j]).wf() && ship_after_input(
                        old(self).ships@[j],
                        self.ships@[j],
                        *keys,
                    ),
                old(self).wf(),
                self.asteroids@ == old(self).asteroids@,
                self.lasers@ == old(self).lasers@,
            decreases n - i,
        {
            let mut ship: PlayerShipBundle = self.ships[i];
            ship_input(keys, &mut ship);
            self.ships.set(i, ship);
            i = i + 1;
        }
    }

    /// Advance every entity's position one fixed integration step along its
    /// velocity.
    pub fn movement(&mut self)
        requires
            old(self).wf(),
        ensures
            final(self).wf_drifted(),
            final(self).ships@.len() == old(self).ships@.len(),
            final(self).asteroids@.len() == old(self).asteroids@.len(),
            final(self).lasers@.len() == old(self).lasers@.len(),
            forall|i: int|
                0 <= i < old(self).ships@.len() ==> pos_stepped(
                    old(self).ships@[i].position,
                    (#[trigger] final(self).ships@[i]).position,
                    old(self).ships@[i].velocity,
                ) && final(self).ships@[i] == (PlayerShipBundle {
                    position: final(self).ships@[i].position,
                    ..old(self).ships@[i]
                }),
            forall|i: int|
                0 <= i < old(self).asteroids@.len() ==> pos_stepped(
                    old(self).asteroids@[i].position,
                    (#[trigger] final(self).asteroids@[i]).position,
                    old(self).asteroids@[i].velocity,
                ) && final(self).asteroids@[i] == (AsteroidBundle {
                    position: final(self).asteroids@[i].position,
                    ..old(self).asteroids@[i]
                }),
            forall|i: int|
                0 <= i < old(self).lasers@.len() ==> pos_stepped(
                    old(self).lasers@[i].position,
                    (#[trigger] final(self).lasers@[i]).position,
                    old(self).lasers@[i].velocity,
                ) && final(self).lasers@[i] == (LaserBundle {
                    position: final(self).lasers@[i].position,
                    ..old(self).lasers@[i]
                }),
    {
        let ns: usize = self.ships.len();
        let mut i: usize = 0;
        while i < ns
            invariant
                ns == self.ships@.len(),
                ns == old(self).ships@.len(),
                0 <= i <= ns,
                forall|j: int| i <= j < ns ==> self.ships@[j] == old(self).ships@[j],
                forall|j: int|
                    0 <= j < i ==> ((#[trigger] self.ships@[j]).wf_core()
                        && self.ships@[j].position.near_window() && pos_stepped(
                        old(self).ships@[j].position,
                        self.ships@[j].position,
                        old(self).ships@[j].velocity,
                    ) && self.ships@[j] == (PlayerShipBundle {
                        position: self.ships@[j].position,
                        ..old(self).ships@[j]
                    })),
                old(self).wf(),
                self.asteroids@ == old(self).asteroids@,
                self.lasers@ == old(self).lasers@,
            decreases ns - i,
        {
            let mut ship: PlayerShipBundle = self.ships[i];
            let vel: Velocity = ship.velocity;
            ship.position.integrate(&vel);
            self.ships.set(i, ship);
            i = i + 1;
        }
        let na: usize = self.asteroids.len();
        let mut i: usize = 0;
        while i < na
            invariant
                na == self.asteroids@.len(),
                na == old(self).asteroids@.len(),
                0 <= i <= na,
                forall|j: int| i <= j < na ==> self.asteroids@[j] == old(self).asteroids@[j],
                forall|j: int|
                    0 <= j < i ==> ((#[trigger] self.asteroids@[j]).wf_core()
                        && self.asteroids@[j].position.near_window() && pos_stepped(
                        old(self).asteroids@[j].position,
                        self.asteroids@[j].position,
                        old(self).asteroids@[j].velocity,
                    ) && self.asteroids@[j] == (AsteroidBundle {
                        position: self.asteroids@[j].position,
                        ..old(self).asteroids@[j]
                    })),
                old(self).wf(),
                self.ships@.len() == old(self).ships@.len(),
                forall|j: int|
                    0 <= j < self.ships@.len() ==> (#[trigger] self.ships@[j]).wf_core()
                        && self.ships@[j].position.near_window() && pos_stepped(
                        old(self).ships@[j].position,
                        self.ships@[j].position,
                        old(self).ships@[j].velocity,
                    ) && self.ships@[j] == (PlayerShipBundle {
                        position: self.ships@[j].position,
                        ..old(self).ships@[j]
                    }),
                self.lasers@ == old(self).lasers@,
            decreases na - i,
        {
            let mut asteroid: AsteroidBundle = self.asteroids[i];
            let vel: Velocity = asteroid.velocity;
            asteroid.position.integrate(&vel);
            self.asteroids.set(i, asteroid);
            i = i + 1;
        }
        let nl: usize = self.lasers.len();
        let mut i: usize = 0;
        while i < nl
            invariant
                nl == self.lasers@.len(),
                nl == old(self).lasers@.len(),
                0 <= i <= nl,
                forall|j: int| i <= j < nl ==> self.lasers@[j] == old(self).lasers@[j],
                forall|j: int|
                    0 <= j < i ==> ((#[trigger] self.lasers@[j]).wf_core()
                        && self.lasers@[j].position.near_window() && pos_stepped(
                        old(self).lasers@[j].position,
                        self.lasers@[j].position,
                        old(self).lasers@[j].velocity,
                    ) && self.lasers@[j] == (LaserBundle {
                        position: self.lasers@[j].position,
                        ..old(self).lasers@[j]
                    })),
                old(self).wf(),
                self.ships@.len() == old(self).ships@.len(),
                forall|j: int|
                    0 <= j < self.ships@.len() ==> (#[trigger] self.ships@[j]).wf_core()
                        && self.ships@[j].position.near_window() && pos_stepped(
                        old(self).ships@[j].position,
                        self.ships@[j].position,
                        old(self).ships@[j].velocity,
                    ) && self.ships@[j] == (PlayerShipBundle {
                        position: self.ships@[j].position,
                        ..old(self).ships@[j]
                    }),
                self.asteroids@.len() == old(self).asteroids@.len(),
                forall|j: int|
                    0 <= j < self.asteroids@.len() ==> (#[trigger] self.asteroids@[j]).wf_core()
                        && self.asteroids@[j].position.near_window() && pos_stepped(
                        old(self).asteroids@[j].position,
                        self.asteroids@[j].position,
                        old(self).asteroids@[j].velocity,
                    ) && self.asteroids@[j] == (AsteroidBundle {
                        position: self.asteroids@[j].position,
                        ..old(self).asteroids@[j]
                    }),
            decreases nl - i,
        {
            let mut laser: LaserBundle = self.lasers[i];
            let vel: Velocity = laser.velocity;
            laser.position.integrate(&vel);
            self.lasers.set(i, laser);
            i = i + 1;
        }
    }

    /// Wrap every entity that drifted past the buffered window edge to the
    /// opposite side, on each axis independently.
    pub fn edge_warp(&mut self)
        requires
            old(self).wf_drifted(),
        ensures
            final(self).wf(),
            final(self).ships@.len() == old(self).ships@.len(),
            final(self).asteroids@.len() == old(self).asteroids@.len(),
            final(self).lasers@.len() == old(self).lasers@.len(),
            forall|i: int|
                0 <= i < old(self).ships@.len() ==> pos_wrapped(
                    old(self).ships@[i].position,
                    (#[trigger] final(self).ships@[i]).position,
                ) && final(self).ships@[i] == (PlayerShipBundle {
                    position: final(self).ships@[i].position,
                    ..old(self).ships@[i]
                }),
            forall|i: int|
                0 <= i < old(self).asteroids@.len() ==> pos_wrapped(
                    old(self).asteroids@[i].position,
                    (#[trigger] final(self).asteroids@[i]).position,
                ) && final(self).asteroids@[i] == (AsteroidBundle {
                    position: final(self).asteroids@[i].position,
                    ..old(self).asteroids@[i]
                }),
            forall|i: int|
                0 <= i < old(self).lasers@.len() ==> pos_wrapped(
                    old(self).lasers@[i].position,
                    (#[trigger] final(self).lasers@[i]).position,
                ) && final(self).lasers@[i] == (LaserBundle {
                    position: final(self).lasers@[i].position,
                    ..old(self).lasers@[i]
                }),
    {
        let ns: usize = self.ships.len();
        let mut i: usize = 0;
        while i < ns
            invariant
                ns == self.ships@.len(),
                ns == old(self).ships@.len(),
                0 <= i <= ns,
                forall|j: int| i <= j < ns ==> self.ships@[j] == old(self).ships@[j],
                forall|j: int|
                    0 <= j < i ==> ((#[trigger] self.ships@[j]).wf() && pos_wrapped(
                        old(self).ships@[j].position,
                        self.ships@[j].position,
                    ) && self.ships@[j] == (PlayerShipBundle {
                        position: self.ships@[j].position,
                        ..old(self).ships@[j]
                    })),
                old(self).wf_drifted(),
                self.asteroids@ == old(self).asteroids@,
                self.lasers@ == old(self).lasers@,
            decreases ns - i,
        {
            let mut ship: PlayerShipBundle = self.ships[i];
            ship.position.edge_warp();
            self.ships.set(i, ship);
            i = i + 1;
        }
        let na: usize = self.asteroids.len();
        let mut i: usize = 0;
        while i < na
            invariant
                na == self.asteroids@.len(),
                na == old(self).asteroids@.len(),
                0 <= i <= na,
                forall|j: int| i <= j < na ==> self.asteroids@[j] == old(self).asteroids@[j],
                forall|j: int|
                    0 <= j < i ==> ((#[trigger] self.asteroids@[j]).wf() && pos_wrapped(
                        old(self).asteroids@[j].position,
                        self.asteroids@[j].position,
                    ) && self.asteroids@[j] == (AsteroidBundle {
                        position: self.asteroids@[j].position,
                        ..old(self).asteroids@[j]
                    })),
                old(self).wf_drifted(),
                self.ships@.len() == old(self).ships@.len(),
                forall|j: int|
                    0 <= j < self.ships@.len() ==> ((#[trigger] self.ships@[j]).wf()
                        && pos_wrapped(old(self).ships@[j].position, self.ships@[j].position)
                        && self.ships@[j] == (PlayerShipBundle {
                        position: self.ships@[j].position,
                        ..old(self).ships@[j]
                    })),
                self.lasers@ == old(self).lasers@,
            decreases na - i,
        {
            let mut asteroid: AsteroidBundle = self.asteroids[i];
            asteroid.position.edge_warp();
            self.asteroids.set(i, asteroid);
            i = i + 1;
        }
        let nl: usize = self.lasers.len();
        let mut i: usize = 0;
        while i < nl
            invariant
                nl == self.lasers@.len(),
                nl == old(self).lasers@.len(),
                0 <= i <= nl,
                forall|j: int| i <= j < nl ==> self.lasers@[j] == old(self).lasers@[j],
                forall|j: int|
                    0 <= j < i ==> ((#[trigger] self.lasers@[j]).wf() && pos_wrapped(
                        old(self).lasers@[j].position,
                        self.lasers@[j].position,
                    ) && self.lasers@[j] == (LaserBundle {
                        position: self.lasers@[j].position,
                        ..old(self).lasers@[j]
                    })),
                old(self).wf_drifted(),
                self.ships@.len() == old(self).ships@.len(),
                forall|j: int|
                    0 <= j < self.ships@.len() ==> ((#[trigger] self.ships@[j]).wf()
                        && pos_wrapped(old(self).ships@[j].position, self.ships@[j].position)
                        && self.ships@[j] == (PlayerShipBundle {
                        position: self.ships@[j].position,
                        ..old(self).ships@[j]
                    })),
                self.asteroids@.len() == old(self).asteroids@.len(),
                forall|j: int|
                    0 <= j < self.asteroids@.len() ==> ((#[trigger] self.asteroids@[j]).wf()
                        && pos_wrapped(
                        old(self).asteroids@[j].position,
                        self.asteroids@[j].position,
                    ) && self.asteroids@[j] == (AsteroidBundle {
                        position: self.asteroids@[j].position,
                        ..old(self).asteroids@[j]
                    })),
            decreases nl - i,
        {
            let mut laser: LaserBundle = self.lasers[i];
            laser.position.edge_warp();
            self.lasers.set(i, laser);
            i = i + 1;
        }
    }

    /// While the fire key is down, every player-controlled entity shoots:
    /// one fresh laser per ship is appended, keeping every existing laser.
    pub fn spawn_laser(&mut self, keys: &KeyState)
        requires
            old(self).wf(),
        ensures
            final(self).wf(),
            final(self).ships@ == old(self).ships@,
            final(self).asteroids@ == old(self).asteroids@,
            !keys.fire ==> final(self).lasers@ == old(self).lasers@,
            keys.fire ==> final(self).lasers@.len() == old(self).lasers@.len()
                + old(self).ships@.len(),
            keys.fire ==> forall|i: int|
                0 <= i < old(self).lasers@.len()
                    ==> #[trigger] final(self).lasers@[i] == old(self).lasers@[i],
            keys.fire ==> forall|j: int|
                0 <= j < old(self).ships@.len() ==> is_fresh_laser_from(
                    #[trigger] final(self).lasers@[old(self).lasers@.len() + j],
                    old(self).ships@[j].position,
                    old(self).ships@[j].velocity,
                    old(self).ships@[j].direction,
                ),
    {
        let n: usize = self.ships.len();
        let base: usize = self.lasers.len();
        let mut j: usize = 0;
        while j < n
            invariant
                n == self.ships@.len(),
                base == old(self).lasers@.len(),
                0 <= j <= n,
                self.ships@ == old(self).ships@,
                self.asteroids@ == old(self).asteroids@,
                old(self).wf(),
                keys.fire ==> self.lasers@.len() == base + j,
                !keys.fire ==> self.lasers@ == old(self).lasers@,
                forall|k: int| 0 <= k < base ==> self.lasers@[k] == old(self).lasers@[k],
                forall|k: int|
                    0 <= k < self.lasers@.len() ==> (#[trigger] self.lasers@[k]).wf(),
                keys.fire ==> forall|k: int|
                    0 <= k < j ==> is_fresh_laser_from(
                        #[trigger] self.lasers@[base + k],
                        old(self).ships@[k].position,
                        old(self).ships@[k].velocity,
                        old(self).ships@[k].direction,
                    ),
            decreases n - j,
        {
            let ship: PlayerShipBundle = self.ships[j];
            let shot: Option<LaserBundle> = fire_laser(
                &ship.position,
                &ship.velocity,
                &ship.direction,
                keys.fire,
            );
            match shot {
                Option::Some(laser) => {
                    self.lasers.push(laser);
                },
                Option::None => {},
            }
            j = j + 1;
        }
    }

    /// Run every laser's countdown forward by `delta_ms` and remove each
    /// laser whose countdown has elapsed: once its timer runs out, a laser
    /// no longer exists in any later frame.
    pub fn despawn_laser(&mut self, delta_ms: u64)
        requires
            old(self).wf(),
        ensures
            final(self).wf(),
            final(self).ships@ == old(self).ships@,
            final(self).asteroids@ == old(self).asteroids@,
            final(self).lasers@ == old(self).lasers@.map_values(
                |l: LaserBundle| ticked_laser(l, delta_ms),
            ).filter(|l: LaserBundle| !l.projectile.elapsed),
            forall|i: int|
                0 <= i < final(self).lasers@.len()
                    ==> !(#[trigger] final(self).lasers@[i]).projectile.elapsed,
    {
        let ghost tickf = |l: LaserBundle| ticked_laser(l, delta_ms);
        let ghost keepf = |l: LaserBundle| !l.projectile.elapsed;
        let n: usize = self.lasers.len();
        let mut kept: Vec<LaserBundle> = Vec::new();
        let mut i: usize = 0;
        proof {
            reveal(Seq::filter);
            assert(old(self).lasers@.subrange(0, 0).map_values(tickf)
                =~= Seq::<LaserBundle>::empty());
            assert(old(self).lasers@.subrange(0, 0).map_values(tickf).filter(keepf) =~= kept@);
        }
        while i < n
            invariant
                n == self.lasers@.len(),
                self.lasers@ == old(self).lasers@,
                0 <= i <= n,
                old(self).wf(),
                self.ships@ == old(self).ships@,
                self.asteroids@ == old(self).asteroids@,
                kept@ == old(self).lasers@.subrange(0, i as int).map_values(tickf).filter(keepf),
                forall|k: int| 0 <= k < kept@.len() ==> (#[trigger] kept@[k]).wf(),
                forall|k: int|
                    0 <= k < kept@.len() ==> !(#[trigger] kept@[k]).projectile.elapsed,
                tickf == (|l: LaserBundle| ticked_laser(l, delta_ms)),
                keepf == (|l: LaserBundle| !l.projectile.elapsed),
            decreases n - i,
        {
            let mut laser: LaserBundle = self.lasers[i];
            laser.projectile.tick(delta_ms);
            proof {
                assert(laser == ticked_laser(old(self).lasers@[i as int], delta_ms));
            }
            if !laser.projectile.elapsed {
                kept.push(laser);
            }
            proof {
                let prefix = old(self).lasers@.subrange(0, i as int).map_values(tickf);
                let next = old(self).lasers@.subrange(0, i + 1).map_values(tickf);
                assert(next =~= prefix.push(tickf(old(self).lasers@[i as int])));
                lemma_filter_push(prefix, tickf(old(self).lasers@[i as int]), keepf);
            }
            i = i + 1;
        }
        proof {
            assert(old(self).lasers@.subrange(0, n as int) =~= old(self).lasers@);
        }
        self.lasers = kept;
    }

    /// One full frame: read input, integrate, wrap at the edges, fire, and
    /// retire elapsed lasers, in the fixed pipeline order.
    pub fn tick(&mut self, keys: &KeyState, delta_ms: u64)
        requires
            old(self).wf(),
        ensures
            final(self).wf(),
            final(self).ships@.len() == old(self).ships@.len(),
            final(self).asteroids@.len() == old(self).asteroids@.len(),
            forall|i: int|
                0 <= i < old(self).ships@.len() ==> ship_ticked(
                    old(self).ships@[i],
                    #[trigger] final(self).ships@[i],
                    *keys,
                ),
            forall|i: int|
                0 <= i < old(self).asteroids@.len() ==> asteroid_ticked(
                    old(self).asteroids@[i],
                    #[trigger] final(self).asteroids@[i],
                ),
            forall|i: int|
                0 <= i < final(self).lasers@.len()
                    ==> !(#[trigger] final(self).lasers@[i]).projectile.elapsed,
            final(self).lasers@.len() <= old(self).lasers@.len() + (if keys.fire {
                old(self).ships@.len()
            } else {
                0
            }),
    {
        self.player_input(keys);
        self.movement();
        self.edge_warp();
        self.spawn_laser(keys);
        let ghost before_despawn = self.lasers@;
        self.despawn_laser(delta_ms);
        proof {
            before_despawn.map_values(
                |l: LaserBundle| ticked_laser(l, delta_ms),
            ).lemma_filter_len(|l: LaserBundle| !l.projectile.elapsed);
        }
    }
}

/// Filtering a sequence extended by one element keeps the element exactly
/// when the predicate holds of it.
proof fn lemma_filter_push<A>(s: Seq<A>, x: A, pred: spec_fn(A) -> bool)
    ensures
        s.push(x).filter(pred) == (if pred(x) {
            s.filter(pred).push(x)
        } else {
            s.filter(pred)
        }),
{
    reveal(Seq::filter);
    assert(s.push(x).drop_last() =~= s);
    assert(s.push(x).last() == x);
}

} // verus!
