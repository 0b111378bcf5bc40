//! Saucers: patrolling enemies that cross the field and shoot.
use vstd::prelude::*;
use crate::color::Color;
use crate::fixed::{scale, scaled, COORD_LIMIT, DT_LIMIT, MOVE_LIMIT, UNIT};
use crate::random::{chance, roll};
use crate::random::roll_between;
use crate::physics::WRAP_LIMIT;

verus! {

/// Size class of a saucer.
#[derive(Clone, Copy, Debug, PartialEq, Eq, Structural)]
pub enum SaucerSize {
    Large,
    Small,
}

/// Coordinate magnitude beyond which a saucer has left the field for good.
pub const SAUCER_EXIT_LIMIT: i64 = 1_500_000;

/// Largest vertical drift of a saucer, per second (exclusive).
pub const SAUCER_DRIFT: i64 = 100_000;

/// Half the height of the band in which saucers enter (exclusive).
pub const SAUCER_LANE: i64 = 800_000;

/// Delay before a new saucer first fires, in microseconds.
pub const SAUCER_FIRST_SHOT: i64 = 1_000_000;

/// Horizontal speed of a saucer of the given size, per second.
pub open spec fn cruise_speed(size: SaucerSize) -> int {
    match size {
        SaucerSize::Large => 300_000,
        SaucerSize::Small => 500_000,
    }
}

/// Delay between two shots of a saucer of the given size, in microseconds.
pub open spec fn reload_time(size: SaucerSize) -> int {
    match size {
        SaucerSize::Large => 2_000_000,
        SaucerSize::Small => 1_000_000,
    }
}

/// Drawing size of a saucer.
pub open spec fn body_size(size: SaucerSize) -> int {
    match size {
        SaucerSize::Large => 70_000,
        SaucerSize::Small => 42_000,
    }
}

/// Points for destroying a saucer: small ones are worth far more.
pub open spec fn saucer_points_of(size: SaucerSize) -> int {
    match size {
        SaucerSize::Large => 200,
        SaucerSize::Small => 1000,
    }
}

/// Points for destroying a saucer of the given size.
pub fn saucer_points(size: SaucerSize) -> (r: u32)
    ensures
        r == saucer_points_of(size),
{
    match size {
        SaucerSize::Large => 200,
        SaucerSize::Small => 1000,
    }
}

/// Whether a position lies beyond the saucers' exit limit on either axis.
pub open spec fn off_field(x: int, y: int) -> bool {
    x > SAUCER_EXIT_LIMIT || x < -SAUCER_EXIT_LIMIT || y > SAUCER_EXIT_LIMIT || y < -SAUCER_EXIT_LIMIT
}

/// A saucer.
#[derive(Clone, Copy, Debug)]
pub struct Saucer {
    pub x: i64,
    pub y: i64,
    pub vx: i64,
    pub vy: i64,
    pub size: SaucerSize,
    pub alive: bool,
    pub shoot_cooldown: i64,
    /// Identity tag, never that of the ship.
    pub id: usize,
    pub color: Color,
}

impl Saucer {
    /// Position on the field, velocity and cooldown in range.
    pub open spec fn wf(&self) -> bool {
        &&& -COORD_LIMIT <= self.x <= COORD_LIMIT
        &&& -COORD_LIMIT <= self.y <= COORD_LIMIT
        &&& -UNIT <= self.vx <= UNIT
        &&& -SAUCER_DRIFT <= self.vy <= SAUCER_DRIFT
        &&& -DT_LIMIT <= self.shoot_cooldown <= 2_000_000
    }

    /// A live saucer entering from the left or the right edge at a random
    /// height, crossing horizontally with a small random vertical drift.
    pub fn new(size: SaucerSize, id: usize, color: Color) -> (s: Saucer)
        ensures
            s.wf(),
            (s.x == -WRAP_LIMIT && s.vx == cruise_speed(size))
                || (s.x == WRAP_LIMIT && s.vx == -cruise_speed(size)),
            -SAUCER_LANE <= s.y < SAUCER_LANE,
            -SAUCER_DRIFT <= s.vy < SAUCER_DRIFT,
            s.size == size && s.alive && s.shoot_cooldown == SAUCER_FIRST_SHOT,
            s.id == id && s.color == color,
    {
        let from_left = roll(2) == 0;
        let x = if from_left { -WRAP_LIMIT } else { WRAP_LIMIT };
        let y = roll_between(-SAUCER_LANE, SAUCER_LANE);
        let speed: i64 = match size {
            SaucerSize::Large => 300_000,
            SaucerSize::Small => 500_000,
        };
        let vx = if from_left { speed } else { -speed };
        let vy = roll_between(-SAUCER_DRIFT, SAUCER_DRIFT);
        Saucer { x, y, vx, vy, size, alive: true, shoot_cooldown: SAUCER_FIRST_SHOT, id, color }
    }

    /// Moves the saucer, now and then gives it a new random vertical drift,
    /// runs its cooldown down, and marks it dead when it was off the field,
    /// whatever its velocity, or has just left it.
    pub fn update(&mut self, delta_time: i64)
        requires
            old(self).wf(),
            0 <= delta_time <= DT_LIMIT,
        ensures
            final(self).x == old(self).x + scaled(old(self).vx as int, delta_time as int),
            final(self).y == old(self).y + scaled(old(self).vy as int, delta_time as int),
            old(self).x - MOVE_LIMIT <= final(self).x <= old(self).x + MOVE_LIMIT,
            old(self).y - MOVE_LIMIT <= final(self).y <= old(self).y + MOVE_LIMIT,
            final(self).vx == old(self).vx,
            final(self).vy == old(self).vy || -SAUCER_DRIFT <= final(self).vy < SAUCER_DRIFT,
            final(self).shoot_cooldown == if old(self).shoot_cooldown > 0 {
                old(self).shoot_cooldown - delta_time
            } else {
                old(self).shoot_cooldown as int
            },
            final(self).alive == (old(self).alive && !off_field(old(self).x as int, old(self).y as int)
                && !off_field(final(self).x as int, final(self).y as int)),
            final(self).size == old(self).size && final(self).id == old(self).id,
            final(self).color == old(self).color,
    {
        let was_off = self.x > SAUCER_EXIT_LIMIT || self.x < -SAUCER_EXIT_LIMIT || self.y > SAUCER_EXIT_LIMIT
            || self.y < -SAUCER_EXIT_LIMIT;
        self.x = self.x + scale(self.vx, delta_time);
        self.y = self.y + scale(self.vy, delta_time);
        if chance(1, 50) {
            self.vy = roll_between(-SAUCER_DRIFT, SAUCER_DRIFT);
        }
        if self.shoot_cooldown > 0 {
            self.shoot_cooldown = self.shoot_cooldown - delta_time;
        }
        if was_off || self.x > SAUCER_EXIT_LIMIT || self.x < -SAUCER_EXIT_LIMIT || self.y > SAUCER_EXIT_LIMIT
            || self.y < -SAUCER_EXIT_LIMIT {
            self.alive = false;
        }
    }

    /// Whether the saucer's cooldown is over.
    pub fn can_shoot(&self) -> (r: bool)
        ensures
            r == (self.shoot_cooldown <= 0),
    {
        self.shoot_cooldown <= 0
    }

    /// Restarts the cooldown after a shot: longer for large saucers.
    pub fn shoot(&mut self)
        ensures
            *final(self) == (Saucer { shoot_cooldown: reload_time(old(self).size) as i64, ..*old(self) }),
    {
        self.shoot_cooldown = match self.size {
            SaucerSize::Large => 2_000_000,
            SaucerSize::Small => 1_000_000,
        };
    }

    /// Drawing size of the saucer.
    pub fn get_size_value(&self) -> (r: i64)
        ensures
            r == body_size(self.size),
    {
        match self.size {
            SaucerSize::Large => 70_000,
            SaucerSize::Small => 42_000,
        }
    }

    /// Collision radius: half again the drawing size.
    pub fn get_collision_radius(&self) -> (r: i64)
        ensures
            r == body_size(self.size) * 3 / 2,
    {
        self.get_size_value() * 3 / 2
    }
}

} // verus!
