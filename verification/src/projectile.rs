use vstd::prelude::*;
use crate::animation::AnimView;
use crate::animation::AnimationCycle;
use crate::animation::AnimationDescriptor;
use crate::animation::ImageId;
use crate::animation::anim_step;
use crate::animation::cycle_spec;
use crate::animation::descriptor_wf;
use crate::geometry::Vec2Fix;
use crate::locomotion::Facing;
use crate::motion::advance_position;
use crate::params::MAX_TICK_MS;
use crate::params::POS_LIMIT;
use crate::params::POS_TICK_STEP;
use crate::params::PROJ_OFFSET;
use crate::params::PROJ_RANGE;
use crate::params::PROJ_SPEED;
use crate::params::VEL_X_LIMIT;

verus! {

/// A projectile: position, fixed velocity, and its own independent
/// animation cycle.  It owns no collision response.
#[derive(Clone, Copy, Debug, PartialEq, Eq, Structural)]
pub struct Projectile {
    pub position: Vec2Fix,
    pub velocity: Vec2Fix,
    pub anim: AnimationCycle,
}

/// The mathematical value of a projectile.
pub struct ProjView {
    pub px: int,
    pub py: int,
    pub vx: int,
    pub vy: int,
    pub anim: AnimView,
}

impl View for Projectile {
    type V = ProjView;

    open spec fn view(&self) -> ProjView {
        ProjView {
            px: self.position.x as int,
            py: self.position.y as int,
            vx: self.velocity.x as int,
            vy: self.velocity.y as int,
            anim: self.anim@,
        }
    }
}

impl ProjView {
    /// Everything the projectile invariant asks except the despawn
    /// range: it flies horizontally at a bounded speed with a
    /// well-formed animation, its height within the world.
    pub open spec fn wf_except_range(self) -> bool {
        &&& -VEL_X_LIMIT <= self.vx <= VEL_X_LIMIT
        &&& self.vy == 0
        &&& -POS_LIMIT - POS_TICK_STEP <= self.py <= POS_LIMIT + POS_TICK_STEP
        &&& self.anim.wf()
    }

    /// The projectile invariant between ticks; culling keeps the
    /// horizontal position within the despawn range.
    pub open spec fn wf(self) -> bool {
        &&& self.wf_except_range()
        &&& in_range_spec(self.px)
    }
}

/// Whether a projectile at horizontal position `px` is still within
/// the world's despawn range.
pub open spec fn in_range_spec(px: int) -> bool {
    -PROJ_RANGE <= px <= PROJ_RANGE
}

pub fn in_range(p: &Projectile) -> (r: bool)
    ensures
        r == in_range_spec(p.position.x as int),
{
    -PROJ_RANGE <= p.position.x && p.position.x <= PROJ_RANGE
}

/// The fixed animation of a projectile: an eight-frame fast cycle of
/// the bubble imagery.
pub open spec fn projectile_descriptor_spec() -> AnimationDescriptor {
    AnimationDescriptor { image: ImageId::ProjectileBubble, first: 0, last: 7, period_ms: 100 }
}

pub fn projectile_descriptor() -> (d: AnimationDescriptor)
    ensures
        d == projectile_descriptor_spec(),
        descriptor_wf(d),
{
    AnimationDescriptor { image: ImageId::ProjectileBubble, first: 0, last: 7, period_ms: 100 }
}

/// The projectile an attack trigger at `(px, py)` spawns: offset
/// horizontally by the fixed distance in the facing direction, with
/// the fixed horizontal speed signed by the facing, no vertical
/// motion, and a fresh animation cycle.
pub open spec fn spawn_spec(px: int, py: int, facing: Facing) -> ProjView {
    let dir: int = if facing is Left {
        -1
    } else {
        1
    };
    ProjView {
        px: px + dir * (PROJ_OFFSET as int),
        py,
        vx: dir * (PROJ_SPEED as int),
        vy: 0,
        anim: cycle_spec(projectile_descriptor_spec()),
    }
}

/// Creates the projectile for an attack trigger at `origin`.
pub fn spawn(origin: Vec2Fix, facing: Facing) -> (p: Projectile)
    requires
        -POS_LIMIT - POS_TICK_STEP <= origin.x <= POS_LIMIT + POS_TICK_STEP,
        -POS_LIMIT - POS_TICK_STEP <= origin.y <= POS_LIMIT + POS_TICK_STEP,
    ensures
        p@ == spawn_spec(origin.x as int, origin.y as int, facing),
        p@.wf_except_range(),
{
    let dir: i64 = if let Facing::Left = facing {
        -1
    } else {
        1
    };
    Projectile {
        position: Vec2Fix { x: origin.x + dir * PROJ_OFFSET, y: origin.y },
        velocity: Vec2Fix { x: dir * PROJ_SPEED, y: 0 },
        anim: AnimationCycle::from_descriptor(&projectile_descriptor()),
    }
}

/// One tick of a projectile: the integration rule moves it by its
/// velocity and the animation driver advances its cycle.
pub open spec fn proj_step_spec(p: ProjView, dt: int) -> ProjView {
    ProjView {
        px: p.px + p.vx * dt,
        py: p.py + p.vy * dt,
        vx: p.vx,
        vy: p.vy,
        anim: anim_step(p.anim, dt),
    }
}

/// Advances one projectile by one tick.
pub fn step(p: Projectile, dt_ms: u64) -> (r: Projectile)
    requires
        p@.wf(),
        dt_ms <= MAX_TICK_MS,
    ensures
        r@ == proj_step_spec(p@, dt_ms as int),
        r@.wf_except_range(),
        -PROJ_RANGE - POS_TICK_STEP <= r@.px <= PROJ_RANGE + POS_TICK_STEP,
{
    let mut q = p;
    q.anim.advance(dt_ms);
    q.position = advance_position(q.position, q.velocity, dt_ms);
    proof {
        crate::motion::lemma_mul_bound(
            p.velocity.x as int,
            dt_ms as int,
            VEL_X_LIMIT as int,
            MAX_TICK_MS as int,
        );
    }
    q
}

} // verus!
