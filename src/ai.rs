//! The autonomous pilot: picks the nearest threat, evades it when it is
//! close and ahead, and otherwise turns toward it, closes in and fires.
use vstd::prelude::*;
use crate::bullet::{launch_velocity, Bullet, BULLET_LIFETIME};
use crate::color::Color;
use crate::fixed::{cos_fx, cos_u, isqrt, root, sin_fx, sin_u, COORD_LIMIT, DT_LIMIT, HALF_PI_U, MOVE_LIMIT, TAU_U, UNIT};
use crate::physics::rotated;
use crate::random::chance;
use crate::ship::{shot_of, step_of, thrust_of, turn_of, Ship, NOSE_OFFSET};

verus! {

/// Squared distance below which a threat ahead is a danger.
pub const DANGER_DIST2: i128 = 62_500_000_000;

/// Squared distance below which a threat ahead calls for caution.
pub const WARNING_DIST2: i128 = 122_500_000_000;

/// Squared distance the ship keeps from its target before it stops closing in.
pub const SAFE_DIST2: i128 = 10_000_000_000;

/// Cosine, in millionths, of the half-width of the forward arc (0.66 pi).
pub const AHEAD_COS: i128 = -481_754;

/// Cosine, in millionths, of the alignment tolerance (0.05 rad).
pub const ALIGN_COS: i128 = 998_750;

/// Largest coordinate magnitude of a threat the pilot considers.
pub const TARGET_LIMIT: i64 = 0x200_0000_0000;

/// What the pilot does about the nearest threat this frame.
#[derive(Clone, Copy, Debug, PartialEq, Eq, Structural)]
pub enum PilotAction {
    /// Turn hard in the given direction, away from the threat, and do not thrust.
    Evade(i64),
    /// Hold the heading and do not thrust.
    Brake,
    /// Turn in the given direction, toward the threat.
    Turn(i64),
    /// Aligned with the threat: close in and maybe fire.
    Engage,
}

/// Squared distance from `(ax, ay)` to `(bx, by)`.
pub open spec fn dist2(ax: int, ay: int, bx: int, by: int) -> int {
    (bx - ax) * (bx - ax) + (by - ay) * (by - ay)
}

/// Target `k` is the first of those nearest to `(sx, sy)`.
pub open spec fn is_nearest(sx: int, sy: int, ts: Seq<(i64, i64)>, k: int) -> bool {
    &&& 0 <= k < ts.len()
    &&& forall|j: int| 0 <= j < ts.len() ==>
        dist2(sx, sy, ts[j].0 as int, ts[j].1 as int) >= dist2(sx, sy, ts[k].0 as int, ts[k].1 as int)
    &&& forall|j: int| 0 <= j < k ==>
        dist2(sx, sy, ts[j].0 as int, ts[j].1 as int) > dist2(sx, sy, ts[k].0 as int, ts[k].1 as int)
}

/// Index of the first of the targets nearest to `(sx, sy)`.
pub open spec fn nearest(sx: int, sy: int, ts: Seq<(i64, i64)>) -> int {
    choose|k: int| #[trigger] is_nearest(sx, sy, ts, k)
}

proof fn lemma_nearest_unique(sx: int, sy: int, ts: Seq<(i64, i64)>, k: int)
    requires
        is_nearest(sx, sy, ts, k),
    ensures
        nearest(sx, sy, ts) == k,
{
    let q = nearest(sx, sy, ts);
    assert(is_nearest(sx, sy, ts, q));
    if q < k {
        assert(dist2(sx, sy, ts[q].0 as int, ts[q].1 as int) > dist2(sx, sy, ts[k].0 as int, ts[k].1 as int));
        assert(dist2(sx, sy, ts[k].0 as int, ts[k].1 as int) >= dist2(sx, sy, ts[q].0 as int, ts[q].1 as int));
    } else if q > k {
        assert(dist2(sx, sy, ts[k].0 as int, ts[k].1 as int) > dist2(sx, sy, ts[q].0 as int, ts[q].1 as int));
        assert(dist2(sx, sy, ts[q].0 as int, ts[q].1 as int) >= dist2(sx, sy, ts[k].0 as int, ts[k].1 as int));
    }
}

/// The pilot's decision about a threat at `(tx, ty)` for a ship at
/// `(sx, sy)` with heading `angle`. Angles between the heading and the
/// bearing are compared through the dot and cross products of the heading
/// vector `h` and the offset `d` to the threat: the threat is ahead when the
/// angle is below 0.66 pi, aligned when it is at most 0.05 rad, and lies to
/// the left (positive turn) when the cross product is positive, or when it
/// is dead astern.
pub open spec fn pilot_choice(sx: int, sy: int, angle: int, tx: int, ty: int) -> PilotAction {
    let hx = cos_fx(angle + HALF_PI_U);
    let hy = sin_fx(angle + HALF_PI_U);
    let dx = tx - sx;
    let dy = ty - sy;
    let dd = dx * dx + dy * dy;
    let hl = root(hx * hx + hy * hy);
    let dl = root(dd);
    let dot = hx * dx + hy * dy;
    let cross = hx * dy - hy * dx;
    let ahead = threat_ahead(sx, sy, angle, tx, ty);
    let left = cross > 0 || (cross == 0 && dot < 0);
    if dd < DANGER_DIST2 && ahead {
        PilotAction::Evade(if left { -1i64 } else { 1i64 })
    } else if dd < WARNING_DIST2 && ahead {
        PilotAction::Brake
    } else if 1_000_000 * dot < ALIGN_COS * (hl * dl) {
        PilotAction::Turn(if left { 1i64 } else { -1i64 })
    } else {
        PilotAction::Engage
    }
}

/// The threat at `(tx, ty)` lies within the forward arc of a ship at
/// `(sx, sy)` with heading `angle`.
pub open spec fn threat_ahead(sx: int, sy: int, angle: int, tx: int, ty: int) -> bool {
    let hx = cos_fx(angle + HALF_PI_U);
    let hy = sin_fx(angle + HALF_PI_U);
    let dx = tx - sx;
    let dy = ty - sy;
    let dot = hx * dx + hy * dy;
    1_000_000 * dot > AHEAD_COS * (root(hx * hx + hy * hy) * root(dx * dx + dy * dy))
}

/// Evasion comes first: a threat ahead within the warning distance makes
/// the pilot evade (within the danger distance) or brake, never turn toward
/// it or engage it, so the ship neither thrusts at it nor fires.
pub proof fn lemma_evasion_first(sx: int, sy: int, angle: int, tx: int, ty: int)
    requires
        dist2(sx, sy, tx, ty) < WARNING_DIST2,
        threat_ahead(sx, sy, angle, tx, ty),
    ensures
        dist2(sx, sy, tx, ty) < DANGER_DIST2 ==> pilot_choice(sx, sy, angle, tx, ty) is Evade,
        dist2(sx, sy, tx, ty) >= DANGER_DIST2 ==> pilot_choice(sx, sy, angle, tx, ty) == PilotAction::Brake,
{
}

/// All targets lie within the pilot's range.
pub open spec fn targets_in_range(ts: Seq<(i64, i64)>) -> bool {
    forall|i: int| 0 <= i < ts.len() ==> {
        &&& -TARGET_LIMIT <= (#[trigger] ts[i]).0 <= TARGET_LIMIT
        &&& -TARGET_LIMIT <= ts[i].1 <= TARGET_LIMIT
    }
}

pub(crate) fn distance2(sx: i64, sy: i64, tx: i64, ty: i64) -> (r: i128)
    requires
        -TARGET_LIMIT <= sx <= TARGET_LIMIT,
        -TARGET_LIMIT <= sy <= TARGET_LIMIT,
        -TARGET_LIMIT <= tx <= TARGET_LIMIT,
        -TARGET_LIMIT <= ty <= TARGET_LIMIT,
    ensures
        r == dist2(sx as int, sy as int, tx as int, ty as int),
        0 <= r <= 8 * TARGET_LIMIT * TARGET_LIMIT,
{
    let dx = tx as i128 - sx as i128;
    let dy = ty as i128 - sy as i128;
    assert(0 <= dx * dx <= 4 * TARGET_LIMIT * TARGET_LIMIT) by (nonlinear_arith)
        requires -2 * TARGET_LIMIT <= dx <= 2 * TARGET_LIMIT;
    assert(0 <= dy * dy <= 4 * TARGET_LIMIT * TARGET_LIMIT) by (nonlinear_arith)
        requires -2 * TARGET_LIMIT <= dy <= 2 * TARGET_LIMIT;
    dx * dx + dy * dy
}

/// Index of the first of the targets nearest to the ship's position.
pub fn nearest_target(sx: i64, sy: i64, targets: &[(i64, i64)]) -> (k: usize)
    requires
        targets@.len() > 0,
        targets_in_range(targets@),
        -TARGET_LIMIT <= sx <= TARGET_LIMIT,
        -TARGET_LIMIT <= sy <= TARGET_LIMIT,
    ensures
        k == nearest(sx as int, sy as int, targets@),
        is_nearest(sx as int, sy as int, targets@, k as int),
{
    let ghost ts = targets@;
    let mut best: usize = 0;
    let mut best_d = distance2(sx, sy, targets[0].0, targets[0].1);
    let mut i: usize = 1;
    while i < targets.len()
        invariant
            ts == targets@,
            targets_in_range(ts),
            -TARGET_LIMIT <= sx <= TARGET_LIMIT,
            -TARGET_LIMIT <= sy <= TARGET_LIMIT,
            0 <= best < i <= ts.len(),
            best_d == dist2(sx as int, sy as int, ts[best as int].0 as int, ts[best as int].1 as int),
            forall|j: int| 0 <= j < i ==> dist2(sx as int, sy as int, ts[j].0 as int, ts[j].1 as int) >= best_d,
            forall|j: int| 0 <= j < best ==> dist2(sx as int, sy as int, ts[j].0 as int, ts[j].1 as int) > best_d,
        decreases ts.len() - i,
    {
        let d = distance2(sx, sy, targets[i].0, targets[i].1);
        if d < best_d {
            best = i;
            best_d = d;
        }
        i = i + 1;
    }
    proof {
        lemma_nearest_unique(sx as int, sy as int, ts, best as int);
    }
    best
}

/// The pilot's decision about a threat at `(tx, ty)`.
pub fn pilot_decision(sx: i64, sy: i64, angle: i64, tx: i64, ty: i64) -> (r: PilotAction)
    requires
        -TARGET_LIMIT <= sx <= TARGET_LIMIT,
        -TARGET_LIMIT <= sy <= TARGET_LIMIT,
        -TARGET_LIMIT <= tx <= TARGET_LIMIT,
        -TARGET_LIMIT <= ty <= TARGET_LIMIT,
        0 <= angle < TAU_U,
    ensures
        r == pilot_choice(sx as int, sy as int, angle as int, tx as int, ty as int),
{
    let hx = cos_u(angle + HALF_PI_U) as i128;
    let hy = sin_u(angle + HALF_PI_U) as i128;
    let dx = tx as i128 - sx as i128;
    let dy = ty as i128 - sy as i128;
    let dd = distance2(sx, sy, tx, ty);
    assert(0 <= hx * hx <= UNIT * UNIT) by (nonlinear_arith)
        requires -UNIT <= hx <= UNIT;
    assert(0 <= hy * hy <= UNIT * UNIT) by (nonlinear_arith)
        requires -UNIT <= hy <= UNIT;
    let hh: i128 = hx * hx + hy * hy;
    let hl = isqrt(hh as u128) as i128;
    let dl = isqrt(dd as u128) as i128;
    assert(hl <= 2 * UNIT) by (nonlinear_arith)
        requires hl * hl <= hh, hh <= 2 * UNIT * UNIT, hl >= 0;
    assert(dl <= 4 * TARGET_LIMIT) by (nonlinear_arith)
        requires dl * dl <= dd, dd <= 8 * TARGET_LIMIT * TARGET_LIMIT, dl >= 0;
    assert(-UNIT * 2 * TARGET_LIMIT <= hx * dx <= UNIT * 2 * TARGET_LIMIT) by (nonlinear_arith)
        requires -UNIT <= hx <= UNIT, -2 * TARGET_LIMIT <= dx <= 2 * TARGET_LIMIT;
    assert(-UNIT * 2 * TARGET_LIMIT <= hy * dy <= UNIT * 2 * TARGET_LIMIT) by (nonlinear_arith)
        requires -UNIT <= hy <= UNIT, -2 * TARGET_LIMIT <= dy <= 2 * TARGET_LIMIT;
    assert(-UNIT * 2 * TARGET_LIMIT <= hx * dy <= UNIT * 2 * TARGET_LIMIT) by (nonlinear_arith)
        requires -UNIT <= hx <= UNIT, -2 * TARGET_LIMIT <= dy <= 2 * TARGET_LIMIT;
    assert(-UNIT * 2 * TARGET_LIMIT <= hy * dx <= UNIT * 2 * TARGET_LIMIT) by (nonlinear_arith)
        requires -UNIT <= hy <= UNIT, -2 * TARGET_LIMIT <= dx <= 2 * TARGET_LIMIT;
    assert(0 <= hl * dl <= 8 * UNIT * TARGET_LIMIT) by (nonlinear_arith)
        requires 0 <= hl <= 2 * UNIT, 0 <= dl <= 4 * TARGET_LIMIT;
    let dot: i128 = hx * dx + hy * dy;
    let cross: i128 = hx * dy - hy * dx;
    let span: i128 = hl * dl;
    let ahead = 1_000_000 * dot > AHEAD_COS * span;
    let left = cross > 0 || (cross == 0 && dot < 0);
    if dd < DANGER_DIST2 && ahead {
        PilotAction::Evade(if left { -1i64 } else { 1i64 })
    } else if dd < WARNING_DIST2 && ahead {
        PilotAction::Brake
    } else if 1_000_000 * dot < ALIGN_COS * span {
        PilotAction::Turn(if left { 1i64 } else { -1i64 })
    } else {
        PilotAction::Engage
    }
}

/// The ship `mid` after the pilot has acted on `action` about a threat at
/// squared distance `dd`, before any random decision to fire.
pub open spec fn maneuver_of(mid: Ship, action: PilotAction, dd: int, dt: int) -> Ship {
    match action {
        PilotAction::Evade(d) => Ship { angular_velocity: 0, ..turn_of(mid, d as int, dt) },
        PilotAction::Brake => Ship { angular_velocity: 0, ..mid },
        PilotAction::Turn(d) => Ship { angular_velocity: 0, ..turn_of(mid, d as int, dt) },
        PilotAction::Engage => if dd > SAFE_DIST2 {
            thrust_of(Ship { angular_velocity: 0, ..mid }, dt)
        } else {
            Ship { angular_velocity: 0, ..mid }
        },
    }
}

/// `new` is ship `old` after one frame of piloting among `targets`: its
/// physics step, then with threats about the pilot's action on the nearest
/// one, and when engaging possibly the start of a burst.
pub open spec fn piloted(old: Ship, new: Ship, targets: Seq<(i64, i64)>, dt: int) -> bool {
    let mid = step_of(old, dt);
    if targets.len() == 0 {
        new == mid
    } else {
        let t = targets[nearest(mid.x as int, mid.y as int, targets)];
        let action = pilot_choice(mid.x as int, mid.y as int, mid.angle as int, t.0 as int, t.1 as int);
        let moved = maneuver_of(mid, action, dist2(mid.x as int, mid.y as int, t.0 as int, t.1 as int), dt);
        ||| new == moved
        ||| action == PilotAction::Engage && moved.shoot_cooldown <= 0
            && moved.energy >= crate::ship::SHOT_ENERGY && new == shot_of(moved)
    }
}

/// The projectile a ship fires: from its nose, along its heading, tagged
/// with its identity.
pub open spec fn ship_bullet(ship: Ship, color: Color) -> Bullet {
    let v = launch_velocity(ship.angle as int);
    Bullet {
        x: (ship.x + rotated(0, NOSE_OFFSET as int, ship.angle as int).0) as i64,
        y: (ship.y + rotated(0, NOSE_OFFSET as int, ship.angle as int).1) as i64,
        vx: v.0 as i64,
        vy: v.1 as i64,
        alive: true,
        lifetime: BULLET_LIFETIME,
        owner_id: ship.id,
        color,
    }
}

/// One frame of piloting: the ship takes its physics step; with threats
/// about, the pilot acts on the nearest one, and when aligned with it may
/// start a burst (a random trial) if the ship can shoot.
pub fn update_ship_ai(ship: &mut Ship, targets: &[(i64, i64)], delta_time: i64)
    requires
        old(ship).wf(),
        -COORD_LIMIT + MOVE_LIMIT <= old(ship).x <= COORD_LIMIT - MOVE_LIMIT,
        -COORD_LIMIT + MOVE_LIMIT <= old(ship).y <= COORD_LIMIT - MOVE_LIMIT,
        targets_in_range(targets@),
        0 <= delta_time <= DT_LIMIT,
    ensures
        final(ship).wf(),
        old(ship).x - MOVE_LIMIT <= final(ship).x <= old(ship).x + MOVE_LIMIT,
        old(ship).y - MOVE_LIMIT <= final(ship).y <= old(ship).y + MOVE_LIMIT,
        piloted(*old(ship), *final(ship), targets@, delta_time as int),
{
    ship.update(delta_time);
    if targets.len() == 0 {
        return;
    }
    let k = nearest_target(ship.x, ship.y, targets);
    let (tx, ty) = targets[k];
    let action = pilot_decision(ship.x, ship.y, ship.angle, tx, ty);
    match action {
        PilotAction::Evade(direction) => {
            ship.rotate(direction, delta_time);
            ship.angular_velocity = 0;
        },
        PilotAction::Brake => {
            ship.angular_velocity = 0;
        },
        PilotAction::Turn(direction) => {
            ship.rotate(direction, delta_time);
            ship.angular_velocity = 0;
        },
        PilotAction::Engage => {
            ship.angular_velocity = 0;
            if distance2(ship.x, ship.y, tx, ty) > SAFE_DIST2 {
                ship.thrust(delta_time);
            }
            if ship.can_shoot() && chance(3, 10) {
                ship.shoot();
            }
        },
    }
}

/// A projectile leaving the ship's nose along its heading, tagged with the
/// ship's identity.
pub fn create_bullet_from_ship(ship: &Ship, color: Color) -> (b: Bullet)
    requires
        ship.wf(),
        -COORD_LIMIT + NOSE_OFFSET <= ship.x <= COORD_LIMIT - NOSE_OFFSET,
        -COORD_LIMIT + NOSE_OFFSET <= ship.y <= COORD_LIMIT - NOSE_OFFSET,
    ensures
        b.wf(),
        ship.x - NOSE_OFFSET <= b.x <= ship.x + NOSE_OFFSET,
        ship.y - NOSE_OFFSET <= b.y <= ship.y + NOSE_OFFSET,
        b == ship_bullet(*ship, color),
{
    let (nx, ny) = ship.get_nose_position();
    Bullet::new(nx, ny, ship.angle, ship.id, color)
}

} // verus!
