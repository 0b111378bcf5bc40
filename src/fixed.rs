//! Fixed-point numbers: the scale, truncating products, an integer square
//! root and a rational approximation of sine and cosine on microradians.
use vstd::prelude::*;
use vstd::arithmetic::div_mod::{lemma_div_is_ordered, lemma_div_multiples_vanish};

verus! {

/// One playfield unit, one second (in microseconds) and a full charge.
pub const UNIT: i64 = 1_000_000;

/// Half a turn in microradians.
pub const PI_U: i64 = 3_141_593;

/// A quarter turn in microradians.
pub const HALF_PI_U: i64 = 1_570_796;

/// A full turn in microradians.
pub const TAU_U: i64 = 6_283_185;

/// Largest coordinate magnitude an entity may hold between two steps.
pub const COORD_LIMIT: i64 = 0x100_0000_0000;

/// Largest velocity component magnitude, in millionths of a unit per second.
pub const SPEED_LIMIT: i64 = 0x100_0000;

/// Largest time step, in microseconds (a little over two minutes).
pub const DT_LIMIT: i64 = 0x800_0000;

/// Bound on the displacement produced by one step.
pub const MOVE_LIMIT: i64 = 0x1_0000_0000;

/// Division rounding toward zero, as Rust's `/` does on signed integers.
pub open spec fn trunc_div(a: int, b: int) -> int {
    if a >= 0 {
        a / b
    } else {
        -((-a) / b)
    }
}

/// `v * dt / UNIT`, rounded toward zero: how far a velocity carries in `dt`.
pub open spec fn scaled(v: int, dt: int) -> int {
    trunc_div(v * dt, UNIT as int)
}

/// Displacement of velocity `v` (per second) over `dt` microseconds.
pub fn scale(v: i64, dt: i64) -> (r: i64)
    requires
        -SPEED_LIMIT <= v <= SPEED_LIMIT,
        0 <= dt <= DT_LIMIT,
    ensures
        r == scaled(v as int, dt as int),
        -MOVE_LIMIT <= r <= MOVE_LIMIT,
{
    assert(-SPEED_LIMIT * DT_LIMIT <= v * dt <= SPEED_LIMIT * DT_LIMIT) by (nonlinear_arith)
        requires
            -SPEED_LIMIT <= v <= SPEED_LIMIT,
            0 <= dt <= DT_LIMIT,
    ;
    let p: i64 = v * dt;
    if p >= 0 {
        p / UNIT
    } else {
        -((-p) / UNIT)
    }
}

/// `x` reduced into `[0, m)`.
pub open spec fn modulo(x: int, m: int) -> int {
    x % m
}

/// An angle brought into `[0, TAU_U)`.
pub fn normalize_angle(a: i64) -> (r: i64)
    ensures
        r == modulo(a as int, TAU_U as int),
        0 <= r < TAU_U,
{
    if a >= 0 {
        a % TAU_U
    } else {
        let m: i64 = (-(a as i128) % (TAU_U as i128)) as i64;
        if m == 0 {
            0
        } else {
            TAU_U - m
        }
    }
}

/// Bhaskara's rational approximation of `UNIT * sin(x)` on `[0, PI_U]`.
pub open spec fn bhaskara(x: int) -> int {
    let p = x * (PI_U - x);
    (16 * p * UNIT) / (5 * PI_U * PI_U - 4 * p)
}

/// Approximate `UNIT * sin(a)` for any angle `a` in microradians.
pub open spec fn sin_fx(a: int) -> int {
    let r = modulo(a, TAU_U as int);
    if r < PI_U {
        bhaskara(r)
    } else {
        -bhaskara(r - PI_U)
    }
}

/// Approximate `UNIT * cos(a)` for any angle `a` in microradians.
pub open spec fn cos_fx(a: int) -> int {
    sin_fx(a + HALF_PI_U)
}

proof fn lemma_bhaskara_range(x: int)
    requires
        0 <= x <= PI_U,
    ensures
        0 <= bhaskara(x) <= UNIT,
{
    let p = x * (PI_U - x);
    let d = 5 * PI_U * PI_U - 4 * p;
    assert(0 <= p && 4 * p <= PI_U * PI_U) by (nonlinear_arith)
        requires
            0 <= x <= PI_U,
            p == x * (PI_U - x),
    ;
    assert(d > 0);
    assert(16 * p * UNIT <= UNIT * d) by (nonlinear_arith)
        requires
            4 * p <= PI_U * PI_U,
            d == 5 * PI_U * PI_U - 4 * p,
    ;
    lemma_div_is_ordered(16 * p * UNIT, UNIT * d, d);
    lemma_div_multiples_vanish(UNIT as int, d);
    assert(0 <= (16 * p * UNIT) / d) by (nonlinear_arith)
        requires
            p >= 0,
            d > 0,
    ;
}

fn bhaskara_exec(x: i64) -> (r: i64)
    requires
        0 <= x <= PI_U,
    ensures
        r == bhaskara(x as int),
        0 <= r <= UNIT,
{
    proof {
        lemma_bhaskara_range(x as int);
    }
    let xw = x as i128;
    assert(0 <= x * (PI_U - x) <= PI_U * PI_U) by (nonlinear_arith)
        requires
            0 <= x <= PI_U,
    ;
    let p: i128 = xw * (PI_U as i128 - xw);
    let pi = PI_U as i128;
    let n: i128 = 16 * p * (UNIT as i128);
    let d: i128 = 5 * pi * pi - 4 * p;
    (n / d) as i64
}

/// Approximate sine of an angle in microradians, scaled by `UNIT`.
pub fn sin_u(a: i64) -> (r: i64)
    ensures
        r == sin_fx(a as int),
        -UNIT <= r <= UNIT,
{
    let t = normalize_angle(a);
    if t < PI_U {
        bhaskara_exec(t)
    } else {
        -bhaskara_exec(t - PI_U)
    }
}

/// Approximate cosine of an angle in microradians, scaled by `UNIT`.
pub fn cos_u(a: i64) -> (r: i64)
    requires
        a <= i64::MAX - HALF_PI_U,
    ensures
        r == cos_fx(a as int),
        -UNIT <= r <= UNIT,
{
    sin_u(a + HALF_PI_U)
}

/// `r` is the square root of `n`, rounded down.
pub open spec fn is_root(n: int, r: int) -> bool {
    0 <= r && r * r <= n < (r + 1) * (r + 1)
}

/// The square root of `n`, rounded down.
pub open spec fn root(n: int) -> int {
    choose|r: int| #[trigger] is_root(n, r)
}

/// Only one non-negative integer is the rounded-down root of `n`.
pub proof fn lemma_root_unique(n: int, r: int)
    requires
        0 <= r,
        r * r <= n < (r + 1) * (r + 1),
    ensures
        root(n) == r,
{
    assert(is_root(n, r));
    let q = root(n);
    assert(0 <= q && q * q <= n < (q + 1) * (q + 1));
    if q < r {
        assert((q + 1) * (q + 1) <= r * r) by (nonlinear_arith)
            requires 0 <= q < r;
    } else if q > r {
        assert((r + 1) * (r + 1) <= q * q) by (nonlinear_arith)
            requires 0 <= r < q;
    }
}

/// Integer square root: the largest `r` with `r * r <= n`.
pub fn isqrt(n: u128) -> (r: u128)
    requires
        n < 0x1_0000_0000_0000_0000_0000_0000,
    ensures
        r * r <= n < (r + 1) * (r + 1),
        r == root(n as int),
        r < 0x1_0000_0000_0000,
{
    let mut lo: u128 = 0;
    let mut hi: u128 = 0x1_0000_0000_0000;
    assert(n < hi * hi) by (nonlinear_arith)
        requires
            hi == 0x1_0000_0000_0000u128,
            n < 0x1_0000_0000_0000_0000_0000_0000,
    ;
    while hi - lo > 1
        invariant
            lo < hi <= 0x1_0000_0000_0000,
            lo * lo <= n,
            n < hi * hi,
        decreases hi - lo,
    {
        let mid: u128 = lo + (hi - lo) / 2;
        assert(mid * mid < 0x1_0000_0000_0000_0000_0000_0000) by (nonlinear_arith)
            requires
                mid < 0x1_0000_0000_0000,
        ;
        if mid * mid <= n {
            lo = mid;
        } else {
            hi = mid;
        }
    }
    assert(hi == lo + 1);
    proof {
        lemma_root_unique(n as int, lo as int);
    }
    lo
}

} // verus!
