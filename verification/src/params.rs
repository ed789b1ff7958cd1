use vstd::prelude::*;

verus! {

/// Largest elapsed time one tick may carry, in milliseconds.  A cap is
/// needed so that the fixed-point products below fit in `i64`.
pub const MAX_TICK_MS: u64 = 1_000;

/// Largest number of static colliders a world may hold; bounds the
/// gravity increments one tick can accumulate.
pub const MAX_COLLIDERS: usize = 1_024;

/// Positions handed to the simulation stay within this many micro-units
/// of the origin (one billion world units); one tick moves a position by
/// at most `POS_TICK_STEP`.
pub const POS_LIMIT: i64 = 1_000_000_000_000_000;

/// Largest distance one tick can move a position: `VEL_Y_LIMIT` times
/// `MAX_TICK_MS`, in micro-units.
pub const POS_TICK_STEP: i64 = 10_000_000_000;

/// Horizontal velocity is clamped into `[-VEL_X_LIMIT, VEL_X_LIMIT]`
/// (1000 world units per second) by the movement integrator.
pub const VEL_X_LIMIT: i64 = 1_000_000;

/// Vertical velocity is clamped into `[-VEL_Y_LIMIT, VEL_Y_LIMIT]`
/// (10000 world units per second) by the movement integrator.
pub const VEL_Y_LIMIT: i64 = 10_000_000;

/// Bound on the character's vertical velocity between ticks: the clamp
/// bound plus the gravity a single tick can add over `MAX_COLLIDERS`
/// colliders (`VEL_Y_LIMIT + GRAVITY * MAX_TICK_MS * MAX_COLLIDERS`).
pub const CHAR_VY_BOUND: i64 = 600_000_000;

/// Velocity gained per millisecond of a held movement key, in
/// milli-units/s (800 world units per second per second).
pub const MOVE_ACCEL: i64 = 800;

/// Velocity lost per millisecond of free fall, in milli-units/s
/// (500 world units per second per second).
pub const GRAVITY: i64 = 500;

/// Upward velocity granted while grounded with the jump key held
/// (500 world units per second).
pub const JUMP_IMPULSE: i64 = 500_000;

/// Velocity shed per millisecond while grounded with the movement key
/// released, in milli-units/s (1000 world units per second per second).
pub const DECEL: i64 = 1_000;

/// The ground decay clamps the decayed horizontal velocity into
/// `[-DECEL_CAP, 0]` (moving left) or `[0, DECEL_CAP]` (moving right).
pub const DECEL_CAP: i64 = 500_000;

/// On an attack trigger the horizontal velocity becomes
/// `vx * dt_ms / ATTACK_SCALE_DIV`, which nearly zeroes it at ordinary
/// tick rates.  The divisor folds the one-half factor and the
/// milliseconds-to-seconds conversion into one constant.
pub const ATTACK_SCALE_DIV: u64 = 2_000;

/// Duration of the attack lock armed by every attack trigger.
pub const ATTACK_COOLDOWN_MS: u64 = 1_200;

/// Frame indices of an animation cycle stay below this bound, so that
/// advancing a frame cannot overflow.
pub const FRAME_LIMIT: usize = 1_000_000;

/// Periods of an animation timer stay within this bound (one day), so
/// that accumulating elapsed time cannot overflow.
pub const PERIOD_LIMIT: u64 = 86_400_000;

/// Half-extent of the character's square bounding box, in micro-units
/// (32 world units).
pub const CHAR_HALF_EXTENT: i64 = 32_000_000;

/// Horizontal distance from the character at which a projectile spawns,
/// in micro-units (32 world units), signed by the facing.
pub const PROJ_OFFSET: i64 = 32_000_000;

/// Horizontal speed of a projectile, in milli-units/s (500 world units
/// per second), signed by the facing.
pub const PROJ_SPEED: i64 = 500_000;

/// A projectile whose horizontal position leaves
/// `[-PROJ_RANGE, PROJ_RANGE]` (2000 world units) is despawned at the
/// end of the tick; this is the termination rule that keeps the set of
/// live projectiles bounded.
pub const PROJ_RANGE: i64 = 2_000_000_000;

} // verus!
