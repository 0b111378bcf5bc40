//! The player ship: motion, energy economy and the burst-fire state machine.
use vstd::prelude::*;
use crate::color::Color;
use crate::fixed::{
    cos_fx, cos_u, isqrt, modulo, normalize_angle, root, scale, scaled, sin_fx, sin_u, trunc_div,
    COORD_LIMIT, DT_LIMIT, HALF_PI_U, MOVE_LIMIT, PI_U, TAU_U, UNIT,
};
use crate::physics::{rotate_point, rotated};

verus! {

/// Speed set by thrusting, per second.
pub const THRUST_SPEED: i64 = 600_000;

/// Turn rate while rotating, in microradians per second.
pub const TURN_RATE: i64 = 3_000_000;

/// Energy a single shot costs, and the least energy needed to fire.
pub const SHOT_ENERGY: i64 = 100_000;

/// Shots in one burst.
pub const BURST_SHOTS: u8 = 3;

/// Delay between two shots of one burst, in microseconds.
pub const BURST_GAP: i64 = 80_000;

/// Delay before another burst may start, in microseconds.
pub const BURST_PERIOD: i64 = 1_000_000;

/// Distance from the ship's centre to its nose.
pub const NOSE_OFFSET: i64 = 48_000;

/// Largest velocity component the ship can hold.
pub const SHIP_SPEED_LIMIT: i64 = UNIT;

/// Thrust-level indicator for a velocity: 0 to 3 by speed bands.
pub open spec fn thrust_level_for(vx: int, vy: int) -> u8 {
    let s2 = vx * vx + vy * vy;
    if s2 > 490_000_000_000 {
        3
    } else if s2 > 160_000_000_000 {
        2
    } else if s2 > 10_000_000_000 {
        1
    } else {
        0
    }
}

/// A cooldown after `dt` microseconds: it runs down only while positive.
pub open spec fn count_down(c: int, dt: int) -> int {
    if c > 0 {
        c - dt
    } else {
        c
    }
}

/// Energy drained by `dt` microseconds of thrust.
pub open spec fn thrust_drain(dt: int) -> int {
    3 * dt / 10
}

/// Energy regained in `dt` microseconds of rest.
pub open spec fn recharge(dt: int) -> int {
    3 * dt / 2
}

/// Velocity set by thrusting along heading `angle`.
pub open spec fn thrust_velocity(angle: int) -> (int, int) {
    (
        trunc_div(cos_fx(angle + HALF_PI_U) * THRUST_SPEED, UNIT as int),
        trunc_div(sin_fx(angle + HALF_PI_U) * THRUST_SPEED, UNIT as int),
    )
}

/// Velocity after one step of friction.
pub open spec fn damped(v: int) -> int {
    trunc_div(v * 95, 100)
}

/// Whether a burst shot leaves the ship in this state.
pub open spec fn burst_ready(count: u8, cooldown: int, energy: int) -> bool {
    count < BURST_SHOTS && cooldown <= 0 && energy >= SHOT_ENERGY
}

/// `a` after thrusting for `dt`: with energy left, the velocity is
/// the thrust velocity along the heading and energy drains, saturating at 0;
/// with none, only the thrust level drops to 0.
pub open spec fn thrust_of(a: Ship, dt: int) -> Ship {
    if a.energy > 0 {
        let v = thrust_velocity(a.angle as int);
        let e = a.energy - thrust_drain(dt);
        Ship {
            vx: v.0 as i64,
            vy: v.1 as i64,
            energy: if e < 0 { 0 } else { e as i64 },
            thrust_level: thrust_level_for(v.0, v.1),
            ..a
        }
    } else {
        Ship { thrust_level: 0, ..a }
    }
}

/// `a` after turning in `direction` for `dt`.
pub open spec fn turn_of(a: Ship, direction: int, dt: int) -> Ship {
    Ship {
        angular_velocity: (direction * TURN_RATE) as i64,
        angle: modulo(a.angle + scaled(direction * TURN_RATE, dt), TAU_U as int) as i64,
        ..a
    }
}

/// `a` after one physics step of `dt`.
pub open spec fn step_of(a: Ship, dt: int) -> Ship {
    let vx = damped(a.vx as int);
    let vy = damped(a.vy as int);
    let level = thrust_level_for(vx, vy);
    let shoot_cooldown = count_down(a.shoot_cooldown as int, dt);
    let charged = a.energy + recharge(dt);
    Ship {
        x: (a.x + scaled(a.vx as int, dt)) as i64,
        y: (a.y + scaled(a.vy as int, dt)) as i64,
        angle: modulo(a.angle + scaled(a.angular_velocity as int, dt), TAU_U as int) as i64,
        vx: vx as i64,
        vy: vy as i64,
        thrust_level: level,
        shoot_cooldown: shoot_cooldown as i64,
        burst_cooldown: count_down(a.burst_cooldown as int, dt) as i64,
        energy: if shoot_cooldown <= 0 && level == 0 {
            if charged > UNIT { UNIT } else { charged as i64 }
        } else {
            a.energy
        },
        ..a
    }
}

/// `a` once a burst has started.
pub open spec fn shot_of(a: Ship) -> Ship {
    Ship { burst_count: 0, shoot_cooldown: BURST_PERIOD, burst_cooldown: 0, ..a }
}

/// `a` put back at its spawn point, at rest, with full energy and no burst
/// under way.
pub open spec fn respawn_of(a: Ship) -> Ship {
    Ship {
        x: a.spawn_x,
        y: a.spawn_y,
        vx: 0,
        vy: 0,
        angle: 0,
        angular_velocity: 0,
        thrust_level: 0,
        energy: UNIT,
        burst_count: 0,
        burst_cooldown: 0,
        ..a
    }
}

/// `a` after a frame's check of its burst: when a shot is due it is fired,
/// spending a shot of the burst and its energy and restarting the short
/// cooldown.
pub open spec fn burst_of(a: Ship) -> Ship {
    if burst_ready(a.burst_count, a.burst_cooldown as int, a.energy as int) {
        Ship {
            burst_count: (a.burst_count + 1) as u8,
            burst_cooldown: BURST_GAP,
            energy: (a.energy - SHOT_ENERGY) as i64,
            ..a
        }
    } else {
        a
    }
}

/// The player ship.
#[derive(Clone, Copy, Debug)]
pub struct Ship {
    pub x: i64,
    pub y: i64,
    pub vx: i64,
    pub vy: i64,
    /// Heading in microradians, in `[0, TAU_U)`; 0 points up.
    pub angle: i64,
    pub angular_velocity: i64,
    pub color: Color,
    pub id: usize,
    pub shoot_cooldown: i64,
    pub thrust_level: u8,
    pub energy: i64,
    pub burst_count: u8,
    pub burst_cooldown: i64,
    pub spawn_x: i64,
    pub spawn_y: i64,
}

impl Ship {
    /// Everything but the position lies in its range.
    pub open spec fn wf_state(&self) -> bool {
        &&& -SHIP_SPEED_LIMIT <= self.vx <= SHIP_SPEED_LIMIT
        &&& -SHIP_SPEED_LIMIT <= self.vy <= SHIP_SPEED_LIMIT
        &&& 0 <= self.angle < TAU_U
        &&& -TURN_RATE <= self.angular_velocity <= TURN_RATE
        &&& 0 <= self.energy <= UNIT
        &&& -DT_LIMIT <= self.shoot_cooldown <= BURST_PERIOD
        &&& -DT_LIMIT <= self.burst_cooldown <= BURST_GAP
        &&& self.burst_count <= BURST_SHOTS
        &&& self.thrust_level <= 3
        &&& -COORD_LIMIT <= self.spawn_x <= COORD_LIMIT
        &&& -COORD_LIMIT <= self.spawn_y <= COORD_LIMIT
    }

    /// The ship's invariant: its state in range and its position on the field.
    pub open spec fn wf(&self) -> bool {
        &&& self.wf_state()
        &&& -COORD_LIMIT <= self.x <= COORD_LIMIT
        &&& -COORD_LIMIT <= self.y <= COORD_LIMIT
    }

    /// A ship at rest at `(x, y)` with full energy.
    pub open spec fn new_spec(x: i64, y: i64, color: Color, id: usize) -> Ship {
        Ship {
            x,
            y,
            vx: 0,
            vy: 0,
            angle: 0,
            angular_velocity: 0,
            color,
            id,
            shoot_cooldown: 0,
            thrust_level: 0,
            energy: UNIT,
            burst_count: 0,
            burst_cooldown: 0,
            spawn_x: x,
            spawn_y: y,
        }
    }

    /// A ship at rest at `(x, y)`, which is also where it respawns.
    pub fn new(x: i64, y: i64, color: Color, id: usize) -> (s: Ship)
        requires
            -COORD_LIMIT <= x <= COORD_LIMIT,
            -COORD_LIMIT <= y <= COORD_LIMIT,
        ensures
            s.wf(),
            s == Ship::new_spec(x, y, color, id),
    {
        Ship {
            x,
            y,
            vx: 0,
            vy: 0,
            angle: 0,
            angular_velocity: 0,
            color,
            id,
            shoot_cooldown: 0,
            thrust_level: 0,
            energy: UNIT,
            burst_count: 0,
            burst_cooldown: 0,
            spawn_x: x,
            spawn_y: y,
        }
    }

    /// Sets the velocity to the thrust speed along the heading and drains
    /// energy; with no energy left only the thrust level drops to 0.
    pub fn thrust(&mut self, delta_time: i64)
        requires
            old(self).wf(),
            0 <= delta_time <= DT_LIMIT,
        ensures
            final(self).wf(),
            *final(self) == thrust_of(*old(self), delta_time as int),
            old(self).energy > 0 ==> final(self).vx * final(self).vx + final(self).vy * final(self).vy <= UNIT * UNIT,
    {
        if self.energy > 0 {
            let forward = self.angle + HALF_PI_U;
            let c = cos_u(forward);
            let s = sin_u(forward);
            let vx = if c * THRUST_SPEED >= 0 {
                c * THRUST_SPEED / UNIT
            } else {
                -((-(c * THRUST_SPEED)) / UNIT)
            };
            let vy = if s * THRUST_SPEED >= 0 {
                s * THRUST_SPEED / UNIT
            } else {
                -((-(s * THRUST_SPEED)) / UNIT)
            };
            self.vx = vx;
            self.vy = vy;
            assert(vx * vx + vy * vy <= UNIT * UNIT) by (nonlinear_arith)
                requires -THRUST_SPEED <= vx <= THRUST_SPEED, -THRUST_SPEED <= vy <= THRUST_SPEED;
            let drained = self.energy - 3 * delta_time / 10;
            self.energy = if drained < 0 { 0 } else { drained };
            self.thrust_level = level_for(vx, vy);
        } else {
            self.thrust_level = 0;
        }
    }

    /// Sets the angular velocity to the turn rate in `direction` and turns
    /// the heading by it at once.
    pub fn rotate(&mut self, direction: i64, delta_time: i64)
        requires
            old(self).wf(),
            direction == 1 || direction == -1,
            0 <= delta_time <= DT_LIMIT,
        ensures
            final(self).wf(),
            *final(self) == turn_of(*old(self), direction as int, delta_time as int),
    {
        self.angular_velocity = direction * TURN_RATE;
        self.angle = normalize_angle(self.angle + scale(self.angular_velocity, delta_time));
    }

    /// One physics step: moves, turns, applies friction, runs the cooldowns
    /// down and recharges energy while neither thrusting nor cooling down.
    pub fn update(&mut self, delta_time: i64)
        requires
            old(self).wf(),
            0 <= delta_time <= DT_LIMIT,
        ensures
            final(self).wf_state(),
            old(self).x - MOVE_LIMIT <= final(self).x <= old(self).x + MOVE_LIMIT,
            old(self).y - MOVE_LIMIT <= final(self).y <= old(self).y + MOVE_LIMIT,
            *final(self) == step_of(*old(self), delta_time as int),
    {
        self.x = self.x + scale(self.vx, delta_time);
        self.y = self.y + scale(self.vy, delta_time);
        self.angle = normalize_angle(self.angle + scale(self.angular_velocity, delta_time));
        self.vx = damp(self.vx);
        self.vy = damp(self.vy);
        self.thrust_level = level_for(self.vx, self.vy);
        if self.shoot_cooldown > 0 {
            self.shoot_cooldown = self.shoot_cooldown - delta_time;
        }
        if self.burst_cooldown > 0 {
            self.burst_cooldown = self.burst_cooldown - delta_time;
        }
        if self.shoot_cooldown <= 0 && self.thrust_level == 0 {
            let charged = self.energy + 3 * delta_time / 2;
            self.energy = if charged > UNIT { UNIT } else { charged };
        }
    }

    /// Whether a new burst may start: its cooldown is over and enough
    /// energy remains for a shot.
    pub fn can_shoot(&self) -> (r: bool)
        ensures
            r == (self.shoot_cooldown <= 0 && self.energy >= SHOT_ENERGY),
    {
        self.shoot_cooldown <= 0 && self.energy >= SHOT_ENERGY
    }

    /// Starts a burst and the longer cooldown before the next one.
    pub fn shoot(&mut self)
        requires
            old(self).wf(),
        ensures
            final(self).wf(),
            *final(self) == shot_of(*old(self)),
    {
        self.burst_count = 0;
        self.shoot_cooldown = BURST_PERIOD;
        self.burst_cooldown = 0;
    }

    /// Whether a projectile leaves the ship this frame; firing one spends a
    /// shot of the burst and its energy and restarts the short cooldown.
    pub fn update_burst(&mut self) -> (fired: bool)
        requires
            old(self).wf(),
        ensures
            final(self).wf(),
            fired == burst_ready(old(self).burst_count, old(self).burst_cooldown as int, old(self).energy as int),
            *final(self) == burst_of(*old(self)),
    {
        if self.burst_count < BURST_SHOTS && self.burst_cooldown <= 0 && self.energy >= SHOT_ENERGY {
            self.burst_count = self.burst_count + 1;
            self.burst_cooldown = BURST_GAP;
            self.energy = self.energy - SHOT_ENERGY;
            true
        } else {
            false
        }
    }

    /// Puts the ship back at its spawn point, at rest, with full energy and
    /// no burst under way.
    pub fn respawn(&mut self)
        requires
            old(self).wf(),
        ensures
            final(self).wf(),
            *final(self) == respawn_of(*old(self)),
    {
        self.x = self.spawn_x;
        self.y = self.spawn_y;
        self.vx = 0;
        self.vy = 0;
        self.angle = 0;
        self.angular_velocity = 0;
        self.thrust_level = 0;
        self.energy = UNIT;
        self.burst_count = 0;
        self.burst_cooldown = 0;
    }

    /// Heading in whole degrees, in `[0, 360)`.
    pub fn heading_degrees(&self) -> (d: u32)
        requires
            self.wf(),
        ensures
            d == self.angle * 180 / (PI_U as int),
            d < 360,
    {
        (self.angle * 180 / PI_U) as u32
    }

    /// Speed for the status display: tenths of a unit per second, rounded
    /// down and at most 9.
    pub fn speed_digit(&self) -> (d: u32)
        requires
            self.wf(),
        ensures
            d == if root(self.vx * self.vx + self.vy * self.vy) / 100_000 > 9 {
                9
            } else {
                root(self.vx * self.vx + self.vy * self.vy) / 100_000
            },
    {
        assert(0 <= self.vx * self.vx <= UNIT * UNIT) by (nonlinear_arith)
            requires -SHIP_SPEED_LIMIT <= self.vx <= SHIP_SPEED_LIMIT;
        assert(0 <= self.vy * self.vy <= UNIT * UNIT) by (nonlinear_arith)
            requires -SHIP_SPEED_LIMIT <= self.vy <= SHIP_SPEED_LIMIT;
        let s2 = (self.vx * self.vx + self.vy * self.vy) as u128;
        let tenths = isqrt(s2) / 100_000;
        if tenths > 9 {
            9
        } else {
            tenths as u32
        }
    }

    /// Energy as a whole percentage of a full charge.
    pub fn energy_percent(&self) -> (p: u32)
        requires
            self.wf(),
        ensures
            p == self.energy * 100 / (UNIT as int),
            p <= 100,
    {
        (self.energy * 100 / UNIT) as u32
    }

    /// Where the ship's nose is: where its projectiles appear.
    pub fn get_nose_position(&self) -> (r: (i64, i64))
        requires
            self.wf(),
        ensures
            self.x - NOSE_OFFSET <= r.0 <= self.x + NOSE_OFFSET,
            self.y - NOSE_OFFSET <= r.1 <= self.y + NOSE_OFFSET,
            r.0 == self.x + rotated(0, NOSE_OFFSET as int, self.angle as int).0,
            r.1 == self.y + rotated(0, NOSE_OFFSET as int, self.angle as int).1,
    {
        let (nx, ny) = rotate_point(0, NOSE_OFFSET, self.angle);
        (self.x + nx, self.y + ny)
    }
}

/// The thrust level of a velocity whose components are at most one unit.
fn level_for(vx: i64, vy: i64) -> (r: u8)
    requires
        -SHIP_SPEED_LIMIT <= vx <= SHIP_SPEED_LIMIT,
        -SHIP_SPEED_LIMIT <= vy <= SHIP_SPEED_LIMIT,
    ensures
        r == thrust_level_for(vx as int, vy as int),
        r <= 3,
{
    assert(0 <= vx * vx <= UNIT * UNIT) by (nonlinear_arith)
        requires -SHIP_SPEED_LIMIT <= vx <= SHIP_SPEED_LIMIT;
    assert(0 <= vy * vy <= UNIT * UNIT) by (nonlinear_arith)
        requires -SHIP_SPEED_LIMIT <= vy <= SHIP_SPEED_LIMIT;
    let s2 = vx * vx + vy * vy;
    if s2 > 490_000_000_000 {
        3
    } else if s2 > 160_000_000_000 {
        2
    } else if s2 > 10_000_000_000 {
        1
    } else {
        0
    }
}

/// One step of friction on a velocity component.
fn damp(v: i64) -> (r: i64)
    requires
        -SHIP_SPEED_LIMIT <= v <= SHIP_SPEED_LIMIT,
    ensures
        r == damped(v as int),
        -SHIP_SPEED_LIMIT <= r <= SHIP_SPEED_LIMIT,
{
    if v >= 0 {
        v * 95 / 100
    } else {
        -((-v) * 95 / 100)
    }
}

/// One call on a ship within a burst: thrusting, turning in a direction, a
/// frame's burst check, or a physics step, each with its time step.
pub enum ShipOp {
    Thrust(i64),
    Rotate(i64, i64),
    Burst,
    Step(i64),
}

/// The ship after one call.
pub open spec fn apply_op(s: Ship, op: ShipOp) -> Ship {
    match op {
        ShipOp::Thrust(dt) => thrust_of(s, dt as int),
        ShipOp::Rotate(direction, dt) => turn_of(s, direction as int, dt as int),
        ShipOp::Burst => burst_of(s),
        ShipOp::Step(dt) => step_of(s, dt as int),
    }
}

/// The ship after a run of calls.
pub open spec fn run_ops(s: Ship, ops: Seq<ShipOp>) -> Ship
    decreases ops.len(),
{
    if ops.len() == 0 {
        s
    } else {
        let next = apply_op(s, ops[0]);
        run_ops(next, ops.drop_first())
    }
}

/// How many of a run's burst checks fire a projectile.
pub open spec fn shots_in(s: Ship, ops: Seq<ShipOp>) -> int
    decreases ops.len(),
{
    if ops.len() == 0 {
        0
    } else {
        let fired = match ops[0] {
            ShipOp::Burst => burst_ready(s.burst_count, s.burst_cooldown as int, s.energy as int),
            _ => false,
        };
        let next = apply_op(s, ops[0]);
        (if fired { 1int } else { 0int }) + shots_in(next, ops.drop_first())
    }
}

/// No time step in the run is negative.
pub open spec fn steps_nonneg(ops: Seq<ShipOp>) -> bool {
    forall|i: int| 0 <= i < ops.len() ==> match #[trigger] ops[i] {
        ShipOp::Thrust(dt) => dt >= 0,
        ShipOp::Rotate(_, dt) => dt >= 0,
        ShipOp::Burst => true,
        ShipOp::Step(dt) => dt >= 0,
    }
}

/// The first call of a run and the rest of it have non-negative time steps.
proof fn lemma_split_run(ops: Seq<ShipOp>)
    requires
        ops.len() > 0,
        steps_nonneg(ops),
    ensures
        steps_nonneg(ops.drop_first()),
        match ops[0] {
            ShipOp::Thrust(dt) => dt >= 0,
            ShipOp::Rotate(_, dt) => dt >= 0,
            ShipOp::Burst => true,
            ShipOp::Step(dt) => dt >= 0,
        },
{
    let rest = ops.drop_first();
    assert forall|i: int| 0 <= i < rest.len() implies match #[trigger] rest[i] {
        ShipOp::Thrust(dt) => dt >= 0,
        ShipOp::Rotate(_, dt) => dt >= 0,
        ShipOp::Burst => true,
        ShipOp::Step(dt) => dt >= 0,
    } by {
        assert(rest[i] == ops[i + 1]);
    }
}

/// Energy stays within `[0, UNIT]` through any run of `thrust`, `rotate`,
/// `update_burst` and `update` calls with non-negative time steps.
pub proof fn lemma_energy_in_range(s: Ship, ops: Seq<ShipOp>)
    requires
        0 <= s.energy <= UNIT,
        steps_nonneg(ops),
    ensures
        0 <= run_ops(s, ops).energy <= UNIT,
    decreases ops.len(),
{
    if ops.len() > 0 {
        let rest = ops.drop_first();
        lemma_split_run(ops);
        let next = apply_op(s, ops[0]);
        assert(0 <= next.energy <= UNIT);
        lemma_energy_in_range(next, rest);
    }
}

/// A burst never fires more than `BURST_SHOTS` projectiles: without a new
/// `shoot`, a run of calls fires at most the shots the burst has left.
pub proof fn lemma_burst_size(s: Ship, ops: Seq<ShipOp>)
    requires
        s.burst_count <= BURST_SHOTS,
    ensures
        shots_in(s, ops) <= BURST_SHOTS - s.burst_count,
        run_ops(s, ops).burst_count == s.burst_count + shots_in(s, ops),
    decreases ops.len(),
{
    if ops.len() > 0 {
        let next = apply_op(s, ops[0]);
        lemma_burst_size(next, ops.drop_first());
    }
}

/// Total time of the physics steps in a run.
pub open spec fn step_time(ops: Seq<ShipOp>) -> int
    decreases ops.len(),
{
    if ops.len() == 0 {
        0
    } else {
        (match ops[0] {
            ShipOp::Step(dt) => dt as int,
            _ => 0,
        }) + step_time(ops.drop_first())
    }
}

proof fn lemma_step_time_nonneg(ops: Seq<ShipOp>)
    requires
        steps_nonneg(ops),
    ensures
        step_time(ops) >= 0,
    decreases ops.len(),
{
    if ops.len() > 0 {
        let rest = ops.drop_first();
        lemma_split_run(ops);
        lemma_step_time_nonneg(rest);
    }
}

proof fn lemma_no_shot_while_cooling(s: Ship, ops: Seq<ShipOp>)
    requires
        steps_nonneg(ops),
        s.burst_cooldown > step_time(ops),
    ensures
        shots_in(s, ops) == 0,
    decreases ops.len(),
{
    if ops.len() > 0 {
        let rest = ops.drop_first();
        lemma_split_run(ops);
        lemma_step_time_nonneg(rest);
        let next = apply_op(s, ops[0]);
        assert(next.burst_cooldown > step_time(rest));
        lemma_no_shot_while_cooling(next, rest);
    }
}

/// Two shots of one burst are at least `BURST_GAP` apart: after
/// `update_burst` fires, no run of `thrust`, `rotate`, `update_burst` and `update`
/// calls whose physics steps total less than `BURST_GAP` fires again.
pub proof fn lemma_burst_spacing(s: Ship, ops: Seq<ShipOp>)
    requires
        burst_ready(s.burst_count, s.burst_cooldown as int, s.energy as int),
        steps_nonneg(ops),
        step_time(ops) < BURST_GAP,
    ensures
        shots_in(burst_of(s), ops) == 0,
{
    lemma_no_shot_while_cooling(burst_of(s), ops);
}

} // verus!
