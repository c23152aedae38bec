//! Positions and velocities, thrust with a vector speed clamp, fixed-step
//! integration, and toroidal edge wrapping.

use vstd::prelude::*;
use vstd::arithmetic::div_mod::{lemma_div_is_ordered, lemma_fundamental_div_mod, lemma_mod_bound};
use crate::trig::{cos_md, cos_spec, lemma_cos_bounds, lemma_sin_bounds, sin_md, sin_spec};
use crate::{EDGE_BUFFER, FULL_TURN, MAX_SPEED, MAX_STEP, SCALE, STEP_DIV, VEL_LIMIT};

verus! {

/// The authoritative simulation-space location of an entity, in sub-units.
#[derive(Clone, Copy)]
pub struct Position {
    pub x: i64,
    pub y: i64,
}

/// A 2D velocity in sub-units; each tick advances positions by a
/// `STEP_DIV`-th of it.
#[derive(Clone, Copy)]
pub struct Velocity {
    pub x_vel: i64,
    pub y_vel: i64,
}

impl Velocity {
    /// Each component stays within the hard cap that keeps the arithmetic
    /// of one tick free of overflow.
    pub open spec fn bounded(self) -> bool {
        &&& -VEL_LIMIT <= self.x_vel <= VEL_LIMIT
        &&& -VEL_LIMIT <= self.y_vel <= VEL_LIMIT
    }

    /// The squared magnitude of the velocity.
    pub open spec fn speed_sq(self) -> int {
        self.x_vel * self.x_vel + self.y_vel * self.y_vel
    }
}

/// The least nonnegative integer whose square is at least `s`.
pub open spec fn sqrt_ceil(s: int) -> int
    decreases s,
{
    if s <= 0 {
        0
    } else {
        let r = sqrt_ceil(s - 1);
        if r * r >= s {
            r
        } else {
            r + 1
        }
    }
}

/// `v` scaled by `m / r` with the quotient truncated toward zero,
/// as Rust's integer division does on magnitudes.
pub open spec fn scaled_toward_zero(v: int, m: int, r: int) -> int {
    if v >= 0 {
        v * m / r
    } else {
        -((-v) * m / r)
    }
}

/// The velocity that one frame of thrust along `direction` produces from
/// the velocity `(vx, vy)`: the unit heading vector is added, and the sum
/// is rescaled onto the `MAX_SPEED` circle whenever it leaves it.
pub open spec fn accel_spec(vx: int, vy: int, direction: int) -> (int, int) {
    let tx = vx + cos_spec(direction);
    let ty = vy + sin_spec(direction);
    let sq = tx * tx + ty * ty;
    if sq <= MAX_SPEED * MAX_SPEED {
        (tx, ty)
    } else {
        (
            scaled_toward_zero(tx, MAX_SPEED as int, sqrt_ceil(sq)),
            scaled_toward_zero(ty, MAX_SPEED as int, sqrt_ceil(sq)),
        )
    }
}

/// A square of a value within `b` of zero is within `b * b`.
proof fn lemma_square_bound(x: int, b: int)
    by (nonlinear_arith)
    requires
        -b <= x <= b,
        b >= 0,
    ensures
        0 <= x * x <= b * b,
{
}

/// `sqrt_ceil` is what its name says: its square reaches `s`, and it is the
/// least such nonnegative integer.
pub proof fn lemma_sqrt_ceil_props(s: int)
    requires
        s >= 0,
    ensures
        sqrt_ceil(s) >= 0,
        sqrt_ceil(s) * sqrt_ceil(s) >= s,
        s >= 1 ==> (sqrt_ceil(s) - 1) * (sqrt_ceil(s) - 1) < s,
    decreases s,
{
    if s > 0 {
        lemma_sqrt_ceil_props(s - 1);
        let r = sqrt_ceil(s - 1);
        if r * r >= s {
            assert(s - 1 >= 1) by {
                if s - 1 == 0 {
                    assert(r == 0);
                }
            }
        } else {
            assert((r + 1) * (r + 1) >= s) by (nonlinear_arith)
                requires
                    r * r >= s - 1,
                    r >= 0,
            ;
        }
    }
}

/// Any nonnegative integer whose square reaches `s` while its predecessor's
/// square does not is `sqrt_ceil(s)`.
proof fn lemma_sqrt_ceil_unique(s: int, r: int)
    requires
        s >= 0,
        r >= 0,
        r * r >= s,
        r >= 1 ==> (r - 1) * (r - 1) < s,
    ensures
        r == sqrt_ceil(s),
{
    lemma_sqrt_ceil_props(s);
    let c = sqrt_ceil(s);
    if r < c {
        assert(s >= 1) by {
            if s == 0 {
                assert(c == 0);
            }
        }
        assert(r * r <= (c - 1) * (c - 1)) by (nonlinear_arith)
            requires
                0 <= r < c,
        ;
    }
    if c < r {
        assert(c * c <= (r - 1) * (r - 1)) by (nonlinear_arith)
            requires
                0 <= c < r,
        ;
    }
}

/// Compute `sqrt_ceil` by binary search.
fn isqrt_ceil(s: i64) -> (r: i64)
    requires
        0 <= s <= 4_000_000_000_000,
    ensures
        r as int == sqrt_ceil(s as int),
        0 <= r <= 2_000_000,
        r * r >= s,
        s >= 1 ==> r >= 1 && (r - 1) * (r - 1) < s,
{
    if s == 0 {
        proof {
            lemma_sqrt_ceil_unique(s as int, 0);
        }
        return 0;
    }
    let mut lo: i64 = 0;
    let mut hi: i64 = 2_000_000;
    while lo + 1 < hi
        invariant
            0 <= lo < hi <= 2_000_000,
            lo * lo < s,
            hi * hi >= s,
            1 <= s <= 4_000_000_000_000,
        decreases hi - lo,
    {
        let mid: i64 = lo + (hi - lo) / 2;
        proof {
            lemma_square_bound(mid as int, 2_000_000);
        }
        if mid * mid >= s {
            hi = mid;
        } else {
            lo = mid;
        }
    }
    proof {
        lemma_sqrt_ceil_unique(s as int, hi as int);
    }
    hi
}

/// Scale a velocity component by `MAX_SPEED / r`, truncating toward zero.
fn scale_component(v: i64, r: i64) -> (res: i64)
    requires
        0 < r <= 2_000_000,
        -400_000 <= v <= 400_000,
    ensures
        res as int == scaled_toward_zero(v as int, MAX_SPEED as int, r as int),
        v >= 0 ==> res >= 0,
        v < 0 ==> res <= 0,
{
    if v >= 0 {
        (v * MAX_SPEED) / r
    } else {
        let m: i64 = (-v) * MAX_SPEED;
        -(m / r)
    }
}

/// Scaling both components of a vector no longer than `r` down by `m / r`
/// leaves a vector no longer than `m`.
proof fn lemma_clamp_bounded(p: int, q: int, a: int, b: int, r: int, m: int)
    requires
        r > 0,
        m >= 0,
        a >= 0,
        b >= 0,
        p >= 0,
        q >= 0,
        p * r <= a * m,
        q * r <= b * m,
        a * a + b * b <= r * r,
    ensures
        p * p + q * q <= m * m,
        p <= m,
        q <= m,
{
    assert(p * p * (r * r) <= (a * a) * (m * m)) by (nonlinear_arith)
        requires
            p >= 0,
            r > 0,
            a >= 0,
            m >= 0,
            p * r <= a * m,
    ;
    assert(q * q * (r * r) <= (b * b) * (m * m)) by (nonlinear_arith)
        requires
            q >= 0,
            r > 0,
            b >= 0,
            m >= 0,
            q * r <= b * m,
    ;
    assert((p * p + q * q) * (r * r) <= (r * r) * (m * m)) by (nonlinear_arith)
        requires
            p * p * (r * r) <= (a * a) * (m * m),
            q * q * (r * r) <= (b * b) * (m * m),
            a * a + b * b <= r * r,
            m >= 0,
            r > 0,
    ;
    assert(p * p + q * q <= m * m) by (nonlinear_arith)
        requires
            (p * p + q * q) * (r * r) <= (r * r) * (m * m),
            r > 0,
            p >= 0,
            q >= 0,
    ;
    assert(p <= m) by (nonlinear_arith)
        requires
            p * p + q * q <= m * m,
            p >= 0,
            q >= 0,
            m >= 0,
    ;
    assert(q <= m) by (nonlinear_arith)
        requires
            p * p + q * q <= m * m,
            p >= 0,
            q >= 0,
            m >= 0,
    ;
}

/// Truncated scaling keeps `res * r` within `|v| * m`.
proof fn lemma_scaled_product(v: int, m: int, r: int)
    requires
        v >= 0,
        m >= 0,
        r > 0,
    ensures
        scaled_toward_zero(v, m, r) >= 0,
        scaled_toward_zero(v, m, r) * r <= v * m,
{
    let p = v * m / r;
    lemma_fundamental_div_mod(v * m, r);
    lemma_mod_bound(v * m, r);
    assert(v * m >= 0) by (nonlinear_arith)
        requires
            v >= 0,
            m >= 0,
    ;
    lemma_div_is_ordered(0, v * m, r);
    assert(p * r <= v * m) by (nonlinear_arith)
        requires
            v * m == r * p + (v * m) % r,
            (v * m) % r >= 0,
    ;
}

impl Velocity {
    /// Apply one frame of forward thrust along `direction`: add the unit
    /// heading vector to the velocity, then rescale the result onto the
    /// `MAX_SPEED` circle whenever it leaves it (a vector clamp, not a
    /// component-wise one).
    pub fn accelerate(&mut self, direction: i64)
        requires
            0 <= direction < FULL_TURN,
            old(self).bounded(),
        ensures
            final(self).bounded(),
            final(self).speed_sq() <= MAX_SPEED * MAX_SPEED,
            (final(self).x_vel as int, final(self).y_vel as int) == accel_spec(
                old(self).x_vel as int,
                old(self).y_vel as int,
                direction as int,
            ),
    {
        let cx: i64 = cos_md(direction);
        let sy: i64 = sin_md(direction);
        self.x_vel = self.x_vel + cx;
        self.y_vel = self.y_vel + sy;
        proof {
            lemma_square_bound(self.x_vel as int, VEL_LIMIT + SCALE);
            lemma_square_bound(self.y_vel as int, VEL_LIMIT + SCALE);
        }
        let sq: i64 = self.x_vel * self.x_vel + self.y_vel * self.y_vel;
        if sq > MAX_SPEED * MAX_SPEED {
            let r: i64 = isqrt_ceil(sq);
            let nx: i64 = scale_component(self.x_vel, r);
            let ny: i64 = scale_component(self.y_vel, r);
            proof {
                let tx = self.x_vel as int;
                let ty = self.y_vel as int;
                let ri = r as int;
                let mi = MAX_SPEED as int;
                let ax = if tx >= 0 { tx } else { -tx };
                let ay = if ty >= 0 { ty } else { -ty };
                lemma_scaled_product(ax, mi, ri);
                lemma_scaled_product(ay, mi, ri);
                let p = scaled_toward_zero(ax, mi, ri);
                let q = scaled_toward_zero(ay, mi, ri);
                assert(ax * ax + ay * ay == tx * tx + ty * ty) by (nonlinear_arith)
                    requires
                        ax == (if tx >= 0 { tx } else { -tx }),
                        ay == (if ty >= 0 { ty } else { -ty }),
                ;
                lemma_clamp_bounded(p, q, ax, ay, ri, mi);
                assert(nx as int == if tx >= 0 { p } else { -p });
                assert(ny as int == if ty >= 0 { q } else { -q });
                assert(nx * nx == p * p && ny * ny == q * q) by (nonlinear_arith)
                    requires
                        nx as int == if tx >= 0 { p } else { -p },
                        ny as int == if ty >= 0 { q } else { -q },
                ;
            }
            self.x_vel = nx;
            self.y_vel = ny;
        } else {
            proof {
                assert(-100_000 <= self.x_vel <= 100_000 && -100_000 <= self.y_vel
                    <= 100_000) by (nonlinear_arith)
                    requires
                        self.x_vel * self.x_vel + self.y_vel * self.y_vel <= 10_000_000_000int,
                ;
            }
        }
    }
}

/// One frame of thrust from any machine-bounded velocity lands on or
/// inside the `MAX_SPEED` circle.
pub proof fn lemma_accel_capped(vx: int, vy: int, a: int)
    requires
        -VEL_LIMIT <= vx <= VEL_LIMIT,
        -VEL_LIMIT <= vy <= VEL_LIMIT,
        0 <= a < FULL_TURN,
    ensures
        ({
            let (nx, ny) = accel_spec(vx, vy, a);
            &&& nx * nx + ny * ny <= MAX_SPEED * MAX_SPEED
            &&& -MAX_SPEED <= nx <= MAX_SPEED
            &&& -MAX_SPEED <= ny <= MAX_SPEED
        }),
{
    lemma_cos_bounds(a);
    lemma_sin_bounds(a);
    let tx = vx + cos_spec(a);
    let ty = vy + sin_spec(a);
    let sq = tx * tx + ty * ty;
    let m = MAX_SPEED as int;
    assert(m * m == 10_000_000_000int) by (nonlinear_arith)
        requires
            m == 100_000int,
    ;
    if sq <= m * m {
        assert(-m <= tx <= m && -m <= ty <= m) by (nonlinear_arith)
            requires
                tx * tx + ty * ty <= m * m,
                m >= 0,
        ;
    } else {
        lemma_sqrt_ceil_props(sq);
        let r = sqrt_ceil(sq);
        assert(r > 0) by (nonlinear_arith)
            requires
                r >= 0,
                r * r >= 1,
        ;
        let ax = if tx >= 0 { tx } else { -tx };
        let ay = if ty >= 0 { ty } else { -ty };
        lemma_scaled_product(ax, m, r);
        lemma_scaled_product(ay, m, r);
        let p = scaled_toward_zero(ax, m, r);
        let q = scaled_toward_zero(ay, m, r);
        assert(ax * ax + ay * ay == tx * tx + ty * ty) by (nonlinear_arith)
            requires
                ax == (if tx >= 0 { tx } else { -tx }),
                ay == (if ty >= 0 { ty } else { -ty }),
        ;
        lemma_clamp_bounded(p, q, ax, ay, r, m);
        let nx = scaled_toward_zero(tx, m, r);
        let ny = scaled_toward_zero(ty, m, r);
        assert(nx == if tx >= 0 { p } else { -p });
        assert(ny == if ty >= 0 { q } else { -q });
        assert(nx * nx == p * p && ny * ny == q * q) by (nonlinear_arith)
            requires
                nx == (if tx >= 0 { p } else { -p }),
                ny == (if ty >= 0 { q } else { -q }),
        ;
    }
}

/// The velocity reached from `(vx, vy)` by thrusting once along each
/// heading of `headings`, in order.
pub open spec fn thrust_seq(vx: int, vy: int, headings: Seq<int>) -> (int, int)
    decreases headings.len(),
{
    if headings.len() == 0 {
        (vx, vy)
    } else {
        let first = accel_spec(vx, vy, headings[0]);
        thrust_seq(first.0, first.1, headings.drop_first())
    }
}

/// However many frames of thrust are applied, along whatever well-formed
/// headings, the velocity magnitude never exceeds the configured top speed
/// once at least one has been applied.
pub proof fn lemma_thrust_never_exceeds_max(vx: int, vy: int, headings: Seq<int>)
    requires
        -VEL_LIMIT <= vx <= VEL_LIMIT,
        -VEL_LIMIT <= vy <= VEL_LIMIT,
        headings.len() >= 1,
        forall|i: int| 0 <= i < headings.len() ==> 0 <= #[trigger] headings[i] < FULL_TURN,
    ensures
        ({
            let (nx, ny) = thrust_seq(vx, vy, headings);
            nx * nx + ny * ny <= MAX_SPEED * MAX_SPEED
        }),
    decreases headings.len(),
{
    lemma_accel_capped(vx, vy, headings[0]);
    let first = accel_spec(vx, vy, headings[0]);
    let rest = headings.drop_first();
    if headings.len() > 1 {
        assert(forall|i: int| 0 <= i < rest.len() ==> 0 <= #[trigger] rest[i] < FULL_TURN);
        lemma_thrust_never_exceeds_max(first.0, first.1, rest);
    } else {
        assert(rest.len() == 0);
        assert(thrust_seq(first.0, first.1, rest) == (first.0, first.1));
    }
}

/// One coordinate's share of a fixed integration step: the velocity
/// component scaled by `1 / STEP_DIV`, truncated toward zero.
pub open spec fn step_delta(v: int) -> int {
    if v >= 0 {
        v / (STEP_DIV as int)
    } else {
        -((-v) / (STEP_DIV as int))
    }
}

/// Divide a bounded velocity component by the step scale.
fn step_component(v: i64) -> (res: i64)
    requires
        -VEL_LIMIT <= v <= VEL_LIMIT,
    ensures
        res as int == step_delta(v as int),
        -MAX_STEP <= res <= MAX_STEP,
{
    proof {
        lemma_div_is_ordered(if v >= 0 { v as int } else { -(v as int) }, VEL_LIMIT as int, STEP_DIV as int);
        lemma_div_is_ordered(0, if v >= 0 { v as int } else { -(v as int) }, STEP_DIV as int);
    }
    if v >= 0 {
        v / STEP_DIV
    } else {
        -((-v) / STEP_DIV)
    }
}

impl Position {
    /// Coordinates stay within the wrapped window bounds.
    pub open spec fn in_window(self) -> bool {
        &&& -crate::POS_LIMIT_X <= self.x <= crate::POS_LIMIT_X
        &&& -crate::POS_LIMIT_Y <= self.y <= crate::POS_LIMIT_Y
    }

    /// Coordinates have drifted at most one tick's step past the window
    /// bounds; the next edge-wrap brings them back.
    pub open spec fn near_window(self) -> bool {
        &&& -crate::POS_LIMIT_X - MAX_STEP <= self.x <= crate::POS_LIMIT_X + MAX_STEP
        &&& -crate::POS_LIMIT_Y - MAX_STEP <= self.y <= crate::POS_LIMIT_Y + MAX_STEP
    }

    /// Advance this position one fixed step along `vel`.
    pub fn integrate(&mut self, vel: &Velocity)
        requires
            old(self).in_window(),
            vel.bounded(),
        ensures
            final(self).x == old(self).x + step_delta(vel.x_vel as int),
            final(self).y == old(self).y + step_delta(vel.y_vel as int),
            final(self).near_window(),
    {
        let dx: i64 = step_component(vel.x_vel);
        let dy: i64 = step_component(vel.y_vel);
        self.x = self.x + dx;
        self.y = self.y + dy;
    }
}

/// Toroidal wrap of one coordinate: once it passes the buffered threshold
/// on either side, move it one whole extent toward the other side.
pub open spec fn wrap_spec(p: int, extent: int) -> int {
    if p > extent / 2 - EDGE_BUFFER {
        p - extent
    } else if p < -(extent / 2) + EDGE_BUFFER {
        p + extent
    } else {
        p
    }
}

/// Wrap one coordinate across a window extent.
fn wrap_coord(p: i64, extent: i64) -> (r: i64)
    requires
        4 * EDGE_BUFFER <= extent <= 2_000_000,
        -1_000_000_000 <= p <= 1_000_000_000,
    ensures
        r as int == wrap_spec(p as int, extent as int),
    {
    let half: i64 = extent / 2;
    if p > half - EDGE_BUFFER {
        p - extent
    } else if p < -half + EDGE_BUFFER {
        p + extent
    } else {
        p
    }
}

/// A coordinate that has drifted at most one tick's step past its limit is
/// brought back within the limit by a single wrap.
pub proof fn lemma_wrap_restores_limit(p: int, extent: int)
    requires
        4 * EDGE_BUFFER + 2 * MAX_STEP <= extent,
        extent % 2 == 0,
        -(extent / 2 + EDGE_BUFFER + MAX_STEP) <= p <= extent / 2 + EDGE_BUFFER + MAX_STEP,
    ensures
        -(extent / 2 + EDGE_BUFFER) <= wrap_spec(p, extent) <= extent / 2 + EDGE_BUFFER,
{
}

/// Edge-wrap is idempotent on the wrapped region: a coordinate at or inside
/// the wrap threshold — including one exactly at it — is left unchanged and
/// already lies within the centered window bounds.
pub proof fn lemma_wrap_idempotent_inside(p: int, extent: int)
    requires
        4 * EDGE_BUFFER <= extent,
        -(extent / 2 - EDGE_BUFFER) <= p <= extent / 2 - EDGE_BUFFER,
    ensures
        wrap_spec(p, extent) == p,
        wrap_spec(wrap_spec(p, extent), extent) == wrap_spec(p, extent),
        -(extent / 2) <= p < extent / 2,
{
}

impl Position {
    /// Wrap both coordinates across the window, toroidally.
    pub fn edge_warp(&mut self)
        requires
            old(self).near_window(),
        ensures
            final(self).x == wrap_spec(old(self).x as int, crate::WINDOW_X as int),
            final(self).y == wrap_spec(old(self).y as int, crate::WINDOW_Y as int),
            final(self).in_window(),
    {
        proof {
            lemma_wrap_restores_limit(self.x as int, crate::WINDOW_X as int);
            lemma_wrap_restores_limit(self.y as int, crate::WINDOW_Y as int);
        }
        self.x = wrap_coord(self.x, crate::WINDOW_X);
        self.y = wrap_coord(self.y, crate::WINDOW_Y);
    }
}

} // verus!
