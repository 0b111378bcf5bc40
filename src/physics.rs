//! Playfield geometry: toroidal wrap-around and rotation of a point.
use vstd::prelude::*;
use vstd::arithmetic::div_mod::{lemma_div_is_ordered, lemma_div_multiples_vanish, lemma_div_pos_is_pos};
use crate::fixed::{cos_fx, cos_u, sin_fx, sin_u, trunc_div, COORD_LIMIT, UNIT};

verus! {

/// Coordinate magnitude beyond which an entity re-enters at the opposite edge.
pub const WRAP_LIMIT: i64 = 1_200_000;

/// One coordinate after wrap-around.
pub open spec fn wrapped(c: int) -> int {
    if c > WRAP_LIMIT {
        -WRAP_LIMIT
    } else if c < -WRAP_LIMIT {
        WRAP_LIMIT as int
    } else {
        c
    }
}

/// Moves a position that has left the playfield to the opposite edge.
pub fn wrap_position(x: &mut i64, y: &mut i64)
    ensures
        *final(x) == wrapped(*old(x) as int),
        *final(y) == wrapped(*old(y) as int),
        -WRAP_LIMIT <= *final(x) <= WRAP_LIMIT,
        -WRAP_LIMIT <= *final(y) <= WRAP_LIMIT,
{
    if *x > WRAP_LIMIT {
        *x = -WRAP_LIMIT;
    } else if *x < -WRAP_LIMIT {
        *x = WRAP_LIMIT;
    }
    if *y > WRAP_LIMIT {
        *y = -WRAP_LIMIT;
    } else if *y < -WRAP_LIMIT {
        *y = WRAP_LIMIT;
    }
}

/// Wrap-around leaves a coordinate exactly on the threshold where it is,
/// sends one just past it to the opposite threshold, and applying it twice
/// is the same as applying it once.
pub proof fn lemma_wrap_boundary(eps: int)
    requires
        eps > 0,
    ensures
        wrapped(WRAP_LIMIT as int) == WRAP_LIMIT,
        wrapped(-WRAP_LIMIT) == -WRAP_LIMIT,
        wrapped(WRAP_LIMIT + eps) == -WRAP_LIMIT,
        wrapped(-WRAP_LIMIT - eps) == WRAP_LIMIT,
        forall|c: int| #[trigger] wrapped(wrapped(c)) == wrapped(c),
{
}

/// The point `(x, y)` turned by `angle` about the origin.
pub open spec fn rotated(x: int, y: int, angle: int) -> (int, int) {
    (
        trunc_div(x * cos_fx(angle) - y * sin_fx(angle), UNIT as int),
        trunc_div(x * sin_fx(angle) + y * cos_fx(angle), UNIT as int),
    )
}

proof fn lemma_trunc_div_bound(a: int, m: int)
    requires
        0 <= m,
        -m * UNIT <= a <= m * UNIT,
    ensures
        -m <= trunc_div(a, UNIT as int) <= m,
{
    let b = if a >= 0 { a } else { -a };
    lemma_div_is_ordered(b, m * UNIT, UNIT as int);
    lemma_div_multiples_vanish(m, UNIT as int);
    lemma_div_pos_is_pos(b, UNIT as int);
}

fn div_unit(a: i128) -> (r: i64)
    requires
        -2 * COORD_LIMIT * UNIT <= a <= 2 * COORD_LIMIT * UNIT,
    ensures
        r == trunc_div(a as int, UNIT as int),
{
    proof {
        lemma_trunc_div_bound(a as int, 2 * COORD_LIMIT);
    }
    if a >= 0 {
        (a / (UNIT as i128)) as i64
    } else {
        -(((-a) / (UNIT as i128)) as i64)
    }
}

/// Turns the point `(x, y)` by `angle` microradians about the origin.
pub fn rotate_point(x: i64, y: i64, angle: i64) -> (r: (i64, i64))
    requires
        -COORD_LIMIT <= x <= COORD_LIMIT,
        -COORD_LIMIT <= y <= COORD_LIMIT,
        0 <= angle < i64::MAX / 2,
    ensures
        r.0 == rotated(x as int, y as int, angle as int).0,
        r.1 == rotated(x as int, y as int, angle as int).1,
        -(abs(x as int) + abs(y as int)) <= r.0 <= abs(x as int) + abs(y as int),
        -(abs(x as int) + abs(y as int)) <= r.1 <= abs(x as int) + abs(y as int),
{
    let c = cos_u(angle) as i128;
    let s = sin_u(angle) as i128;
    let xw = x as i128;
    let yw = y as i128;
    let ax: i128 = if xw >= 0 { xw } else { -xw };
    let ay: i128 = if yw >= 0 { yw } else { -yw };
    assert(-ax * UNIT <= xw * c <= ax * UNIT) by (nonlinear_arith)
        requires ax == abs(xw as int), -UNIT <= c <= UNIT;
    assert(-ay * UNIT <= yw * s <= ay * UNIT) by (nonlinear_arith)
        requires ay == abs(yw as int), -UNIT <= s <= UNIT;
    assert(-ax * UNIT <= xw * s <= ax * UNIT) by (nonlinear_arith)
        requires ax == abs(xw as int), -UNIT <= s <= UNIT;
    assert(-ay * UNIT <= yw * c <= ay * UNIT) by (nonlinear_arith)
        requires ay == abs(yw as int), -UNIT <= c <= UNIT;
    proof {
        lemma_trunc_div_bound(xw * c - yw * s, ax + ay);
        lemma_trunc_div_bound(xw * s + yw * c, ax + ay);
    }
    let a = div_unit(xw * c - yw * s);
    let b = div_unit(xw * s + yw * c);
    (a, b)
}

/// Magnitude of an integer.
pub open spec fn abs(v: int) -> int {
    if v >= 0 {
        v
    } else {
        -v
    }
}

} // verus!
