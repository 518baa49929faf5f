//! Integer vector math for the movement systems: square root,
//! fixed-point direction normalization, and per-tick displacement.

use vstd::prelude::*;
use vstd::arithmetic::div_mod::{lemma_div_is_ordered, lemma_div_multiples_vanish};
use crate::bounding::{Point, POS_LIMIT, SCALE};

verus! {

/// Largest admissible magnitude of a vector component handed to
/// `normalize_or_zero`: twice `POS_LIMIT`, so that a difference of two
/// in-range positions is always admissible.
pub const COMPONENT_LIMIT: i64 = 2_000_000_000;

/// Largest admissible speed, in world units per second.
pub const SPEED_LIMIT: i64 = 10_000;

/// Largest admissible tick length, in milliseconds.
pub const DT_LIMIT: u64 = 86_400_000;

/// `r` is the integer square root of `n`: the largest integer whose
/// square does not exceed `n`.
pub open spec fn is_isqrt(n: int, r: int) -> bool {
    r >= 0 && r * r <= n && n < (r + 1) * (r + 1)
}

/// The integer square root as a spec-level value, defined by counting
/// up: the largest integer whose square does not exceed `n`.
pub open spec fn sqrt_floor(n: int) -> int
    decreases n,
{
    if n <= 0 {
        0
    } else {
        let r = sqrt_floor(n - 1);
        if (r + 1) * (r + 1) <= n {
            r + 1
        } else {
            r
        }
    }
}

/// `sqrt_floor` satisfies the square-root characterization.
pub proof fn lemma_sqrt_floor_is_isqrt(n: int)
    requires
        n >= 0,
    ensures
        is_isqrt(n, sqrt_floor(n)),
    decreases n,
{
    if n > 0 {
        lemma_sqrt_floor_is_isqrt(n - 1);
        let r = sqrt_floor(n - 1);
        if (r + 1) * (r + 1) <= n {
            assert((r + 2) * (r + 2) > (r + 1) * (r + 1)) by (nonlinear_arith)
                requires r >= 0,
            {}
        }
    }
}

/// The square-root characterization has a unique witness.
pub proof fn lemma_isqrt_unique(n: int, a: int, b: int)
    requires
        is_isqrt(n, a),
        is_isqrt(n, b),
    ensures
        a == b,
{
    if a < b {
        assert(b * b >= (a + 1) * (a + 1)) by (nonlinear_arith)
            requires b >= a + 1, a >= 0,
        {}
    }
    if b < a {
        assert(a * a >= (b + 1) * (b + 1)) by (nonlinear_arith)
            requires a >= b + 1, b >= 0,
        {}
    }
}

/// Integer square root by bisection.
pub fn isqrt(n: i64) -> (r: i64)
    requires
        n >= 0,
    ensures
        is_isqrt(n as int, r as int),
        r as int == sqrt_floor(n as int),
{
    let mut lo: i64 = 0;
    let mut hi: i64 = 3_037_000_500;
    assert(3_037_000_500i64 * 3_037_000_500int > i64::MAX);
    while lo + 1 < hi
        invariant
            0 <= lo < hi <= 3_037_000_500,
            lo * lo <= n,
            (n as int) < hi * hi,
        decreases hi - lo,
    {
        let mid = lo + (hi - lo) / 2;
        assert(mid * mid <= 3_037_000_499int * 3_037_000_499) by (nonlinear_arith)
            requires 0 <= mid <= 3_037_000_499int,
        {}
        if mid * mid <= n {
            lo = mid;
        } else {
            hi = mid;
        }
    }
    proof {
        lemma_sqrt_floor_is_isqrt(n as int);
        lemma_isqrt_unique(n as int, lo as int, sqrt_floor(n as int));
    }
    lo
}

/// A component's share of a normalized vector: its magnitude scaled by
/// `SCALE` and divided by the vector's length, with the sign restored.
pub open spec fn scaled_ratio(d: int, len: int) -> int
    recommends
        len >= 1,
{
    if d >= 0 {
        d * SCALE / len
    } else {
        -((-d) * SCALE / len)
    }
}

/// What `normalize_or_zero` returns: the zero vector for zero input,
/// and otherwise the input scaled by `SCALE` over the integer square
/// root of its squared length. `is_isqrt` has a unique witness, so this
/// pins the result completely.
pub open spec fn normalized(dx: int, dy: int, r: Point) -> bool {
    if dx == 0 && dy == 0 {
        r.x == 0 && r.y == 0
    } else {
        exists|len: int|
            #[trigger] is_isqrt(dx * dx + dy * dy, len)
            && r.x == scaled_ratio(dx, len)
            && r.y == scaled_ratio(dy, len)
    }
}

pub(crate) proof fn lemma_component_le_isqrt(d: int, n: int, len: int)
    requires
        is_isqrt(n, len),
        d * d <= n,
        d >= 0,
    ensures
        d <= len,
{
    if d > len {
        assert(d * d >= (len + 1) * (len + 1)) by (nonlinear_arith)
            requires d >= len + 1, len >= 0,
        {}
    }
}

proof fn lemma_scaled_ratio_bounded(d: int, len: int)
    requires
        len >= 1,
        -len <= d <= len,
    ensures
        -SCALE <= scaled_ratio(d, len) <= SCALE,
{
    let m = if d >= 0 { d } else { -d };
    assert(m * SCALE <= len * SCALE) by (nonlinear_arith)
        requires 0 <= m <= len, SCALE as int > 0,
    {}
    lemma_div_is_ordered(0, m * SCALE, len);
    lemma_div_is_ordered(m * SCALE, len * SCALE, len);
    lemma_div_multiples_vanish(SCALE as int, len);
}

/// Normalize a vector to fixed-point length `SCALE`; the zero vector
/// maps to itself. Every result component lies within `[-SCALE, SCALE]`.
pub fn normalize_or_zero(dx: i64, dy: i64) -> (r: Point)
    requires
        -COMPONENT_LIMIT <= dx <= COMPONENT_LIMIT,
        -COMPONENT_LIMIT <= dy <= COMPONENT_LIMIT,
    ensures
        normalized(dx as int, dy as int, r),
        -SCALE <= r.x <= SCALE,
        -SCALE <= r.y <= SCALE,
{
    if dx == 0 && dy == 0 {
        return Point { x: 0, y: 0 };
    }
    proof {
        crate::bounding::lemma_mul_range(
            dx as int, dx as int, COMPONENT_LIMIT as int, COMPONENT_LIMIT as int);
        crate::bounding::lemma_mul_range(
            dy as int, dy as int, COMPONENT_LIMIT as int, COMPONENT_LIMIT as int);
        assert(dx * dx >= 0 && dy * dy >= 0
            && (dx != 0 ==> dx * dx >= 1) && (dy != 0 ==> dy * dy >= 1)) by (nonlinear_arith) {}
    }
    let n = dx * dx + dy * dy;
    let len = isqrt(n);
    proof {
        assert(len >= 1) by (nonlinear_arith)
            requires is_isqrt(n as int, len as int), n >= 1,
        {}
    }
    let ax: u64 = if dx >= 0 { dx as u64 } else { (-dx) as u64 };
    let ay: u64 = if dy >= 0 { dy as u64 } else { (-dy) as u64 };
    proof {
        assert(ax * ax == dx * dx && ay * ay == dy * dy) by (nonlinear_arith)
            requires
                ax as int == (if dx >= 0 { dx as int } else { -(dx as int) }),
                ay as int == (if dy >= 0 { dy as int } else { -(dy as int) }),
        {}
        lemma_component_le_isqrt(ax as int, n as int, len as int);
        lemma_component_le_isqrt(ay as int, n as int, len as int);
        assert(ax as int * SCALE <= len as int * SCALE) by (nonlinear_arith)
            requires 0 <= ax as int <= len as int, SCALE as int > 0,
        {}
        assert(ay as int * SCALE <= len as int * SCALE) by (nonlinear_arith)
            requires 0 <= ay as int <= len as int, SCALE as int > 0,
        {}
    }
    let mx = (ax * (SCALE as u64)) / (len as u64);
    let my = (ay * (SCALE as u64)) / (len as u64);
    proof {
        lemma_scaled_ratio_bounded(dx as int, len as int);
        lemma_scaled_ratio_bounded(dy as int, len as int);
    }
    let rx: i64 = if dx >= 0 { mx as i64 } else { -(mx as i64) };
    let ry: i64 = if dy >= 0 { my as i64 } else { -(my as i64) };
    Point { x: rx, y: ry }
}

/// Displacement of one component over a tick: direction (fixed-point,
/// magnitude at most `SCALE`) times speed (units per second) times the
/// tick length in milliseconds, brought back to world units.
pub open spec fn step_delta_spec(d: int, speed: int, dt_ms: int) -> int {
    if d >= 0 {
        d * speed * dt_ms / (SCALE * 1000)
    } else {
        -((-d) * speed * dt_ms / (SCALE * 1000))
    }
}

pub fn step_delta(d: i64, speed: i64, dt_ms: u64) -> (r: i64)
    requires
        -SCALE <= d <= SCALE,
        0 <= speed <= SPEED_LIMIT,
        dt_ms <= DT_LIMIT,
    ensures
        r as int == step_delta_spec(d as int, speed as int, dt_ms as int),
        -(POS_LIMIT as int) <= r as int <= POS_LIMIT as int,
{
    let m: u64 = if d >= 0 { d as u64 } else { (-d) as u64 };
    proof {
        assert(m * speed <= SCALE as int * SPEED_LIMIT
            && m * speed * dt_ms <= SCALE as int * SPEED_LIMIT * DT_LIMIT) by (nonlinear_arith)
            requires
                0 <= m as int <= SCALE as int,
                0 <= speed as int <= SPEED_LIMIT as int,
                0 <= dt_ms as int <= DT_LIMIT as int,
        {}
        lemma_div_is_ordered(0, m as int * speed * dt_ms, SCALE as int * 1000);
        lemma_div_is_ordered(
            m as int * speed * dt_ms,
            SCALE as int * SPEED_LIMIT * DT_LIMIT,
            SCALE as int * 1000,
        );
    }
    let q = (m * (speed as u64) * dt_ms) / ((SCALE as u64) * 1000);
    if d >= 0 {
        q as i64
    } else {
        -(q as i64)
    }
}

/// Clamp a coordinate into the world's admissible range.
pub open spec fn clamp_spec(v: int) -> int {
    if v < -POS_LIMIT { -POS_LIMIT as int } else if v > POS_LIMIT { POS_LIMIT as int } else { v }
}

pub fn clamp_pos(v: i64) -> (r: i64)
    ensures
        r as int == clamp_spec(v as int),
        -POS_LIMIT <= r <= POS_LIMIT,
{
    if v < -POS_LIMIT {
        -POS_LIMIT
    } else if v > POS_LIMIT {
        POS_LIMIT
    } else {
        v
    }
}

} // verus!
