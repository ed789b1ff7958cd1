use vstd::prelude::*;
use crate::geometry::Vec2Fix;
use crate::geometry::clamp_i64;
use crate::geometry::clamp_spec;
use crate::params::MAX_TICK_MS;
use crate::params::POS_LIMIT;
use crate::params::POS_TICK_STEP;
use crate::params::VEL_X_LIMIT;
use crate::params::VEL_Y_LIMIT;

verus! {

/// `-(am * bm) <= a * b <= am * bm` whenever `|a| <= am` and
/// `0 <= b <= bm`; bounds the fixed-point products of a tick.
pub proof fn lemma_mul_bound(a: int, b: int, am: int, bm: int)
    requires
        -am <= a <= am,
        0 <= b <= bm,
        0 <= am,
    ensures
        -(am * bm) <= a * b <= am * bm,
{
    assert(-(am * bm) <= a * b <= am * bm) by (nonlinear_arith)
        requires
            -am <= a <= am,
            0 <= b <= bm,
            0 <= am,
    ;
}

/// One tick of the movement integrator over a velocity: the intent is
/// added to the horizontal component and the result is clamped, the
/// horizontal component into `[-VEL_X_LIMIT, VEL_X_LIMIT]` and the
/// vertical one into the wide `[-VEL_Y_LIMIT, VEL_Y_LIMIT]`.  The
/// clamp bounds in the postcondition hold for every velocity: this is
/// the clamp invariant of integration.
pub fn integrate_velocity(v: Vec2Fix, dvx: i64) -> (r: Vec2Fix)
    requires
        i64::MIN <= v.x as int + dvx as int <= i64::MAX,
    ensures
        r.x == clamp_spec(v.x as int + dvx as int, -(VEL_X_LIMIT as int), VEL_X_LIMIT as int),
        r.y == clamp_spec(v.y as int, -(VEL_Y_LIMIT as int), VEL_Y_LIMIT as int),
        -VEL_X_LIMIT <= r.x <= VEL_X_LIMIT,
        -VEL_Y_LIMIT <= r.y <= VEL_Y_LIMIT,
{
    let nx: i64 = v.x + dvx;
    Vec2Fix {
        x: clamp_i64(nx, -VEL_X_LIMIT, VEL_X_LIMIT),
        y: clamp_i64(v.y, -VEL_Y_LIMIT, VEL_Y_LIMIT),
    }
}

/// One tick of position integration: `position + velocity * dt`, exact
/// in fixed point (milli-units/s times milliseconds is micro-units).
/// The same rule moves the character and every projectile.
pub fn advance_position(p: Vec2Fix, v: Vec2Fix, dt_ms: u64) -> (r: Vec2Fix)
    requires
        dt_ms <= MAX_TICK_MS,
        -VEL_X_LIMIT <= v.x <= VEL_X_LIMIT,
        -VEL_Y_LIMIT <= v.y <= VEL_Y_LIMIT,
        -POS_LIMIT - POS_TICK_STEP <= p.x <= POS_LIMIT + POS_TICK_STEP,
        -POS_LIMIT - POS_TICK_STEP <= p.y <= POS_LIMIT + POS_TICK_STEP,
    ensures
        r.x == p.x as int + v.x as int * dt_ms as int,
        r.y == p.y as int + v.y as int * dt_ms as int,
        -POS_LIMIT - 2 * POS_TICK_STEP <= r.x <= POS_LIMIT + 2 * POS_TICK_STEP,
        -POS_LIMIT - 2 * POS_TICK_STEP <= r.y <= POS_LIMIT + 2 * POS_TICK_STEP,
{
    proof {
        lemma_mul_bound(v.x as int, dt_ms as int, VEL_X_LIMIT as int, MAX_TICK_MS as int);
        lemma_mul_bound(v.y as int, dt_ms as int, VEL_Y_LIMIT as int, MAX_TICK_MS as int);
    }
    let dt: i64 = dt_ms as i64;
    Vec2Fix { x: p.x + v.x * dt, y: p.y + v.y * dt }
}

} // verus!
