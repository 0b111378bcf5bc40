//! Projectiles fired by the ship and by saucers.
use vstd::prelude::*;
use crate::color::Color;
use crate::fixed::{
    cos_fx, cos_u, isqrt, modulo, normalize_angle, scale, scaled, sin_fx, sin_u, trunc_div, COORD_LIMIT, DT_LIMIT,
    HALF_PI_U, MOVE_LIMIT, TAU_U, UNIT,
};

verus! {

/// Projectile speed, per second.
pub const BULLET_SPEED: i64 = 2_000_000;

/// How long a projectile lives, in microseconds.
pub const BULLET_LIFETIME: i64 = 2_000_000;

/// Velocity of a projectile fired along heading `angle` (0 points up).
pub open spec fn launch_velocity(angle: int) -> (int, int) {
    (
        trunc_div(cos_fx(angle + HALF_PI_U) * BULLET_SPEED, UNIT as int),
        trunc_div(sin_fx(angle + HALF_PI_U) * BULLET_SPEED, UNIT as int),
    )
}

/// One velocity component of a projectile sent along `(dx, dy)`, whose
/// length rounded down is `len`.
pub open spec fn aimed_component(d: int, len: int) -> int {
    trunc_div(d * BULLET_SPEED, len)
}

/// A projectile after moving for `dt`: it dies once its lifetime is spent.
pub open spec fn bullet_step(b: Bullet, dt: int) -> Bullet {
    let lifetime = b.lifetime - dt;
    Bullet {
        x: (b.x + scaled(b.vx as int, dt)) as i64,
        y: (b.y + scaled(b.vy as int, dt)) as i64,
        lifetime: lifetime as i64,
        alive: b.alive && lifetime > 0,
        ..b
    }
}

/// A projectile.
#[derive(Clone, Copy, Debug)]
pub struct Bullet {
    pub x: i64,
    pub y: i64,
    pub vx: i64,
    pub vy: i64,
    pub alive: bool,
    /// Time left before it expires, in microseconds.
    pub lifetime: i64,
    /// Identity tag of whoever fired it.
    pub owner_id: usize,
    pub color: Color,
}

fn speed_part(c: i64) -> (r: i64)
    requires
        -UNIT <= c <= UNIT,
    ensures
        r == trunc_div(c * BULLET_SPEED, UNIT as int),
        -BULLET_SPEED <= r <= BULLET_SPEED,
{
    if c >= 0 {
        c * BULLET_SPEED / UNIT
    } else {
        -((-c) * BULLET_SPEED / UNIT)
    }
}

impl Bullet {
    /// Position on the field, velocity at most the projectile speed, and
    /// lifetime in range.
    pub open spec fn wf(&self) -> bool {
        &&& -COORD_LIMIT <= self.x <= COORD_LIMIT
        &&& -COORD_LIMIT <= self.y <= COORD_LIMIT
        &&& -BULLET_SPEED <= self.vx <= BULLET_SPEED
        &&& -BULLET_SPEED <= self.vy <= BULLET_SPEED
        &&& -DT_LIMIT <= self.lifetime <= BULLET_LIFETIME
    }

    /// A live projectile at `(x, y)` flying along heading `angle`.
    pub fn new(x: i64, y: i64, angle: i64, owner_id: usize, color: Color) -> (b: Bullet)
        requires
            -COORD_LIMIT <= x <= COORD_LIMIT,
            -COORD_LIMIT <= y <= COORD_LIMIT,
        ensures
            b.wf(),
            b.x == x && b.y == y,
            b.vx == launch_velocity(modulo(angle as int, TAU_U as int)).0,
            b.vy == launch_velocity(modulo(angle as int, TAU_U as int)).1,
            b.alive && b.lifetime == BULLET_LIFETIME,
            b.owner_id == owner_id && b.color == color,
    {
        let forward = normalize_angle(angle) + HALF_PI_U;
        Bullet {
            x,
            y,
            vx: speed_part(cos_u(forward)),
            vy: speed_part(sin_u(forward)),
            alive: true,
            lifetime: BULLET_LIFETIME,
            owner_id,
            color,
        }
    }

    /// A live projectile at `(x, y)` flying at `(tx, ty)`; when the two
    /// points coincide it flies along heading 0.
    pub fn aimed(x: i64, y: i64, tx: i64, ty: i64, owner_id: usize, color: Color) -> (b: Bullet)
        requires
            -COORD_LIMIT <= x <= COORD_LIMIT,
            -COORD_LIMIT <= y <= COORD_LIMIT,
            -COORD_LIMIT <= tx <= COORD_LIMIT,
            -COORD_LIMIT <= ty <= COORD_LIMIT,
        ensures
            b.wf(),
            b.x == x && b.y == y,
            b.alive && b.lifetime == BULLET_LIFETIME,
            b.owner_id == owner_id && b.color == color,
            ({
                let dx = tx - x;
                let dy = ty - y;
                let s = dx * dx + dy * dy;
                &&& s == 0 ==> b.vx == launch_velocity(0).0 && b.vy == launch_velocity(modulo(0, TAU_U as int)).1
                &&& s != 0 ==> exists|len: int|
                    len > 0 && len * len <= s < (len + 1) * (len + 1)
                    && b.vx == aimed_component(dx, len) && b.vy == aimed_component(dy, len)
            }),
    {
        let dx = tx as i128 - x as i128;
        let dy = ty as i128 - y as i128;
        assert(0 <= dx * dx <= 4 * COORD_LIMIT * COORD_LIMIT) by (nonlinear_arith)
            requires -2 * COORD_LIMIT <= dx <= 2 * COORD_LIMIT;
        assert(0 <= dy * dy <= 4 * COORD_LIMIT * COORD_LIMIT) by (nonlinear_arith)
            requires -2 * COORD_LIMIT <= dy <= 2 * COORD_LIMIT;
        let s: i128 = dx * dx + dy * dy;
        if s == 0 {
            return Bullet::new(x, y, 0, owner_id, color);
        }
        let len = isqrt(s as u128) as i128;
        assert(len > 0) by (nonlinear_arith)
            requires len * len <= s < (len + 1) * (len + 1), s > 0, len >= 0;
        assert(-len <= dx <= len) by (nonlinear_arith)
            requires s < (len + 1) * (len + 1), s == dx * dx + dy * dy, len >= 0, dy * dy >= 0;
        assert(-len <= dy <= len) by (nonlinear_arith)
            requires s < (len + 1) * (len + 1), s == dx * dx + dy * dy, len >= 0, dx * dx >= 0;
        assert(len <= 4 * COORD_LIMIT) by (nonlinear_arith)
            requires len * len <= s, s <= 8 * COORD_LIMIT * COORD_LIMIT, len >= 0;
        let vx = aim_part(dx, len);
        let vy = aim_part(dy, len);
        Bullet { x, y, vx, vy, alive: true, lifetime: BULLET_LIFETIME, owner_id, color }
    }

    /// Moves the projectile and runs its lifetime down; it dies once the
    /// lifetime is spent.
    pub fn update(&mut self, delta_time: i64)
        requires
            old(self).wf(),
            0 <= delta_time <= DT_LIMIT,
        ensures
            *final(self) == bullet_step(*old(self), delta_time as int),
            old(self).x - MOVE_LIMIT <= final(self).x <= old(self).x + MOVE_LIMIT,
            old(self).y - MOVE_LIMIT <= final(self).y <= old(self).y + MOVE_LIMIT,
    {
        self.x = self.x + scale(self.vx, delta_time);
        self.y = self.y + scale(self.vy, delta_time);
        self.lifetime = self.lifetime - delta_time;
        if self.lifetime <= 0 {
            self.alive = false;
        }
    }
}

fn aim_part(d: i128, len: i128) -> (r: i64)
    requires
        len > 0,
        -len <= d <= len,
        len <= 4 * COORD_LIMIT,
    ensures
        r == aimed_component(d as int, len as int),
        -BULLET_SPEED <= r <= BULLET_SPEED,
{
    let a: i128 = if d >= 0 { d } else { -d };
    assert(a * BULLET_SPEED <= len * BULLET_SPEED) by (nonlinear_arith)
        requires 0 <= a <= len;
    let q: i128 = a * (BULLET_SPEED as i128) / len;
    assert(q <= BULLET_SPEED) by {
        vstd::arithmetic::div_mod::lemma_div_is_ordered(a * BULLET_SPEED, len * BULLET_SPEED, len as int);
        vstd::arithmetic::div_mod::lemma_div_multiples_vanish(BULLET_SPEED as int, len as int);
    }
    assert(q >= 0) by {
        vstd::arithmetic::div_mod::lemma_div_pos_is_pos(a * BULLET_SPEED, len as int);
    }
    if d >= 0 {
        q as i64
    } else {
        -(q as i64)
    }
}

} // verus!
