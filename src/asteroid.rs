//! Asteroids: drifting rocks in three size tiers that split when shot.
use vstd::prelude::*;
use crate::color::Color;
use crate::fixed::{
    cos_fx, cos_u, normalize_angle, scale, scaled, sin_fx, sin_u, trunc_div, modulo,
    COORD_LIMIT, DT_LIMIT, MOVE_LIMIT, TAU_U, UNIT,
};
use crate::random::roll_between;

verus! {

/// Drift speed of every asteroid, per second.
pub const ASTEROID_SPEED: i64 = 200_000;

/// Sideways distance of each child from its parent's centre.
pub const SPLIT_OFFSET: i64 = 50_000;

/// Collision radius of an asteroid of the given size tier; an unknown tier
/// counts as the largest.
pub open spec fn radius_of(size_level: int) -> int {
    if size_level == 2 {
        100_000
    } else if size_level == 1 {
        50_000
    } else {
        150_000
    }
}

/// Points for destroying an asteroid of the given size tier: the largest is
/// worth least.
pub open spec fn points_of(size_level: int) -> int {
    if size_level == 2 {
        50
    } else if size_level == 1 {
        100
    } else {
        20
    }
}

/// Collision radius of an asteroid of the given size tier.
pub fn collision_radius(size_level: i32) -> (r: i64)
    ensures
        r == radius_of(size_level as int),
{
    if size_level == 2 {
        100_000
    } else if size_level == 1 {
        50_000
    } else {
        150_000
    }
}

/// Points for destroying an asteroid of the given size tier.
pub fn asteroid_points(size_level: i32) -> (r: u32)
    ensures
        r == points_of(size_level as int),
{
    if size_level == 2 {
        50
    } else if size_level == 1 {
        100
    } else {
        20
    }
}

/// Collision radius grows strictly with the size tier.
pub proof fn lemma_radius_increasing(a: int, b: int)
    requires
        1 <= a < b <= 3,
    ensures
        radius_of(a) < radius_of(b),
{
}

/// Velocity of an asteroid drifting along world angle `heading`.
pub open spec fn drift(heading: int) -> (int, int) {
    (
        trunc_div(cos_fx(heading) * ASTEROID_SPEED, UNIT as int),
        trunc_div(sin_fx(heading) * ASTEROID_SPEED, UNIT as int),
    )
}

/// An asteroid after drifting and turning for `dt`.
pub open spec fn asteroid_step(a: Asteroid, dt: int) -> Asteroid {
    Asteroid {
        x: (a.x + scaled(a.vx as int, dt)) as i64,
        y: (a.y + scaled(a.vy as int, dt)) as i64,
        rotation: modulo(a.rotation + scaled(a.rotation_speed as int, dt), TAU_U as int) as i64,
        ..a
    }
}

/// Number of points on an asteroid's silhouette.
pub const OUTLINE_POINTS: usize = 8;

/// Silhouette point `i` at distance `reach` (in millionths of the radius)
/// from the centre, along the `i`-th of eight evenly spaced directions.
pub open spec fn ring_point(i: int, reach: int) -> (int, int) {
    let angle = i * TAU_U / 8;
    (trunc_div(cos_fx(angle) * reach, UNIT as int), trunc_div(sin_fx(angle) * reach, UNIT as int))
}

/// Silhouette point `p` lies on direction `i` at a distance in `[0.7, 1)`
/// of the radius.
pub open spec fn on_ring(p: (i64, i64), i: int) -> bool {
    exists|reach: int| 700_000 <= reach < UNIT && p.0 == ring_point(i, reach).0 && p.1 == #[trigger] ring_point(i, reach).1
}

/// An asteroid.
#[derive(Clone, Copy, Debug)]
pub struct Asteroid {
    pub x: i64,
    pub y: i64,
    pub vx: i64,
    pub vy: i64,
    /// Collision radius.
    pub size: i64,
    /// Size tier, 1 (smallest) to 3 (largest).
    pub size_level: i32,
    pub alive: bool,
    /// Rotation of the silhouette, in microradians in `[0, TAU_U)`.
    pub rotation: i64,
    /// Rotation speed, in microradians per second.
    pub rotation_speed: i64,
    pub color: Color,
    /// Silhouette points around the centre, in units of the radius.
    pub outline: [(i64, i64); 8],
}

fn part(c: i64, k: i64) -> (r: i64)
    requires
        -UNIT <= c <= UNIT,
        0 <= k <= UNIT,
    ensures
        r == trunc_div(c * k, UNIT as int),
        -k <= r <= k,
{
    let a: i64 = if c >= 0 { c } else { -c };
    assert(0 <= a * k <= UNIT * k) by (nonlinear_arith)
        requires 0 <= a <= UNIT, 0 <= k <= UNIT;
    assert(c < 0 ==> -(c * k) == a * k) by (nonlinear_arith)
        requires a == if c >= 0 { c as int } else { -c };
    assert(c >= 0 ==> c * k == a * k);
    let q = a * k / UNIT;
    assert(q <= k) by {
        vstd::arithmetic::div_mod::lemma_div_is_ordered(a * k, UNIT * k, UNIT as int);
        vstd::arithmetic::div_mod::lemma_div_multiples_vanish(k as int, UNIT as int);
    }
    if c >= 0 {
        q
    } else {
        -q
    }
}

impl Asteroid {
    /// Position on the field, drift and spin in range, tier in `1..=3` and
    /// radius that of the tier.
    pub open spec fn wf(&self) -> bool {
        &&& -COORD_LIMIT <= self.x <= COORD_LIMIT
        &&& -COORD_LIMIT <= self.y <= COORD_LIMIT
        &&& -ASTEROID_SPEED <= self.vx <= ASTEROID_SPEED
        &&& -ASTEROID_SPEED <= self.vy <= ASTEROID_SPEED
        &&& 1 <= self.size_level <= 3
        &&& self.size == radius_of(self.size_level as int)
        &&& 0 <= self.rotation < TAU_U
        &&& -UNIT <= self.rotation_speed <= UNIT
    }

    /// A live asteroid at `(x, y)` of tier `size_level`, drifting in a
    /// random direction with a random spin and a random silhouette.
    pub fn new(x: i64, y: i64, size_level: i32, color: Color) -> (a: Asteroid)
        requires
            -COORD_LIMIT <= x <= COORD_LIMIT,
            -COORD_LIMIT <= y <= COORD_LIMIT,
            1 <= size_level <= 3,
        ensures
            a.wf(),
            a.x == x && a.y == y && a.size_level == size_level && a.color == color,
            a.size == radius_of(size_level as int),
            a.alive && a.rotation == 0,
            exists|h: int| 0 <= h < TAU_U && a.vx == drift(h).0 && a.vy == drift(h).1,
            -UNIT <= a.rotation_speed < UNIT,
            forall|i: int| 0 <= i < OUTLINE_POINTS ==> on_ring(#[trigger] a.outline[i], i),
    {
        let heading = roll_between(0, TAU_U);
        let spin = roll_between(-UNIT, UNIT);
        let mut outline: [(i64, i64); 8] = [(0, 0); 8];
        let mut i: usize = 0;
        while i < OUTLINE_POINTS
            invariant
                i <= OUTLINE_POINTS,
                forall|j: int| 0 <= j < i ==> on_ring(#[trigger] outline[j], j),
            decreases OUTLINE_POINTS - i,
        {
            let angle: i64 = (i as i64) * TAU_U / 8;
            let reach = roll_between(700_000, UNIT);
            let point = (part(cos_u(angle), reach), part(sin_u(angle), reach));
            assert(on_ring(point, i as int)) by {
                assert(angle == i * TAU_U / 8);
                assert(point.0 == ring_point(i as int, reach as int).0);
                assert(point.1 == ring_point(i as int, reach as int).1);
            }
            outline[i] = point;
            i = i + 1;
        }
        let vx = part(cos_u(heading), ASTEROID_SPEED);
        let vy = part(sin_u(heading), ASTEROID_SPEED);
        assert(vx == drift(heading as int).0 && vy == drift(heading as int).1);
        Asteroid {
            x,
            y,
            vx,
            vy,
            size: collision_radius(size_level),
            size_level,
            alive: true,
            rotation: 0,
            rotation_speed: spin,
            color,
            outline,
        }
    }

    /// Moves the asteroid and turns its silhouette.
    pub fn update(&mut self, delta_time: i64)
        requires
            old(self).wf(),
            0 <= delta_time <= DT_LIMIT,
        ensures
            *final(self) == asteroid_step(*old(self), delta_time as int),
            old(self).x - MOVE_LIMIT <= final(self).x <= old(self).x + MOVE_LIMIT,
            old(self).y - MOVE_LIMIT <= final(self).y <= old(self).y + MOVE_LIMIT,
            0 <= final(self).rotation < TAU_U,
    {
        self.x = self.x + scale(self.vx, delta_time);
        self.y = self.y + scale(self.vy, delta_time);
        self.rotation = normalize_angle(self.rotation + scale(self.rotation_speed, delta_time));
    }

    /// The two children a destroyed asteroid leaves: none for the smallest
    /// tier, else two of the next tier down, one on each side of the parent
    /// along the x axis, in the parent's color.
    pub fn split(&self) -> (children: Vec<Asteroid>)
        requires
            self.wf(),
            -COORD_LIMIT + SPLIT_OFFSET <= self.x <= COORD_LIMIT - SPLIT_OFFSET,
        ensures
            self.size_level <= 1 ==> children@.len() == 0,
            self.size_level > 1 ==> {
                &&& children@.len() == 2
                &&& children@[0].x == self.x + SPLIT_OFFSET
                &&& children@[1].x == self.x - SPLIT_OFFSET
                &&& forall|i: int| 0 <= i < 2 ==> {
                    &&& (#[trigger] children@[i]).y == self.y
                    &&& children@[i].size_level == self.size_level - 1
                    &&& children@[i].color == self.color
                }
            },
            forall|i: int| 0 <= i < children@.len() ==> {
                &&& (#[trigger] children@[i]).wf()
                &&& children@[i].alive
            },
    {
        let mut children: Vec<Asteroid> = Vec::new();
        if self.size_level > 1 {
            children.push(Asteroid::new(self.x + SPLIT_OFFSET, self.y, self.size_level - 1, self.color));
            children.push(Asteroid::new(self.x - SPLIT_OFFSET, self.y, self.size_level - 1, self.color));
        }
        children
    }
}

} // verus!
