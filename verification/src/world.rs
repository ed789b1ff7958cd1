use vstd::prelude::*;
use crate::animation::AnimView;
use crate::animation::AnimationCycle;
use crate::animation::AnimationDescriptor;
use crate::animation::anim_step;
use crate::animation::cycle_spec;
use crate::collision::ColState;
use crate::collision::collide_from;
use crate::collision::resolve_collisions;
use crate::cooldown::AttackCooldown;
use crate::cooldown::cooldown_after;
use crate::geometry::Aabb;
use crate::geometry::Vec2Fix;
use crate::geometry::clamp_spec;
use crate::input::InputState;
use crate::input::intent_dvx;
use crate::input::movement_intent;
use crate::locomotion::Facing;
use crate::locomotion::LocomotionState;
use crate::locomotion::descriptor_for;
use crate::locomotion::descriptor_spec;
use crate::locomotion::mirrored_spec;
use crate::locomotion::transition;
use crate::locomotion::transition_spec;
use crate::motion::advance_position;
use crate::motion::integrate_velocity;
use crate::motion::lemma_mul_bound;
use crate::params::CHAR_VY_BOUND;
use crate::params::MAX_COLLIDERS;
use crate::params::MAX_TICK_MS;
use crate::params::POS_LIMIT;
use crate::params::POS_TICK_STEP;
use crate::params::VEL_X_LIMIT;
use crate::params::VEL_Y_LIMIT;
use crate::projectile::ProjView;
use crate::projectile::Projectile;
use crate::projectile::in_range;
use crate::projectile::in_range_spec;
use crate::projectile::proj_step_spec;
use crate::projectile::spawn_spec;

verus! {

/// The single simulated character: position, velocity, facing,
/// locomotion state, attack cooldown, and its animation cycle.
#[derive(Clone, Copy, Debug)]
pub struct Character {
    pub position: Vec2Fix,
    pub velocity: Vec2Fix,
    pub facing: Facing,
    pub state: LocomotionState,
    pub cooldown: AttackCooldown,
    pub anim: AnimationCycle,
}

impl Character {
    /// The character invariant between ticks: horizontal velocity
    /// within the clamp range, vertical velocity within the clamp
    /// range plus what one tick of per-collider gravity can add, and a
    /// well-formed animation cycle.
    pub open spec fn wf(self) -> bool {
        &&& -VEL_X_LIMIT <= self.velocity.x <= VEL_X_LIMIT
        &&& -CHAR_VY_BOUND <= self.velocity.y <= CHAR_VY_BOUND
        &&& self.anim@.wf()
    }

    /// A character at rest at `(px, py)`: no motion, facing right, in
    /// the Neutral state with its animation, with the cooldown expired.
    pub fn new(px: i64, py: i64) -> (c: Character)
        requires
            -POS_LIMIT <= px <= POS_LIMIT,
            -POS_LIMIT <= py <= POS_LIMIT,
        ensures
            c.position == (Vec2Fix { x: px, y: py }),
            c.velocity == (Vec2Fix { x: 0, y: 0 }),
            c.facing is Right,
            c.state is Neutral,
            c.cooldown.remaining_ms == 0,
            c.anim@ == cycle_spec(descriptor_spec(LocomotionState::Neutral)),
            c.wf(),
    {
        let d = descriptor_for(LocomotionState::Neutral);
        Character {
            position: Vec2Fix { x: px, y: py },
            velocity: Vec2Fix { x: 0, y: 0 },
            facing: Facing::Right,
            state: LocomotionState::Neutral,
            cooldown: AttackCooldown::new(),
            anim: AnimationCycle::from_descriptor(&d),
        }
    }

    /// Whether the rendered sprite is mirrored: exactly when the
    /// character faces left.
    pub fn mirrored(&self) -> (r: bool)
        ensures
            r == mirrored_spec(self.facing),
    {
        crate::locomotion::mirrored(self.facing)
    }
}

/// What one tick reports to the host: contact notifications, attack
/// triggers, the state entered if the state changed together with the
/// animation descriptor to apply, and whether the facing changed.
#[derive(Clone, Copy, Debug)]
pub struct TickOutput {
    pub contacts: usize,
    pub triggers: usize,
    pub entered: Option<LocomotionState>,
    pub reconfig: Option<AnimationDescriptor>,
    pub facing_changed: bool,
}

/// The mathematical outcome of one tick.
pub struct TickView {
    pub px: int,
    pub py: int,
    pub vx: int,
    pub vy: int,
    pub facing: Facing,
    pub state: LocomotionState,
    pub cooldown: int,
    pub anim: AnimView,
    pub contacts: int,
    pub triggers: int,
    pub entered: Option<LocomotionState>,
    pub facing_changed: bool,
    pub projectiles: Seq<ProjView>,
}

/// The projectiles that survive the despawn rule, in order, from
/// index `i` on.
pub open spec fn cull_from(s: Seq<ProjView>, i: int) -> Seq<ProjView>
    decreases s.len() - i,
{
    if 0 <= i < s.len() {
        if in_range_spec(s[i].px) {
            seq![s[i]] + cull_from(s, i + 1)
        } else {
            cull_from(s, i + 1)
        }
    } else {
        Seq::<ProjView>::empty()
    }
}

/// One simulation tick over the whole world, stage by stage: the
/// animation driver advances every cycle; the input intent is
/// resolved; the character's velocity is integrated and clamped;
/// every position moves by its velocity; the collision pass adjusts
/// the character's velocity and raises contacts and attack triggers;
/// the cooldown counts down; the transition rule picks state and
/// facing and, on a state entry, replaces the character's animation
/// cycle; each attack trigger spawns a projectile; and projectiles
/// out of range are despawned.
pub open spec fn tick_spec(
    ch: Character,
    colliders: Seq<Aabb>,
    projs: Seq<ProjView>,
    inp: InputState,
    dt: int,
) -> TickView {
    let anim1 = anim_step(ch.anim@, dt);
    let projs1 = projs.map_values(|p: ProjView| proj_step_spec(p, dt));
    let dvx = intent_dvx(inp, ch.state, dt);
    let vx1 = clamp_spec(ch.velocity.x + dvx, -(VEL_X_LIMIT as int), VEL_X_LIMIT as int);
    let vy1 = clamp_spec(ch.velocity.y as int, -(VEL_Y_LIMIT as int), VEL_Y_LIMIT as int);
    let px1 = ch.position.x + vx1 * dt;
    let py1 = ch.position.y + vy1 * dt;
    let col = collide_from(
        ColState { vx: vx1, vy: vy1, contacts: 0, triggers: 0 },
        colliders,
        0,
        px1,
        py1,
        inp,
        ch.state is Attack,
        dt,
    );
    let cd1 = cooldown_after(ch.cooldown.remaining_ms as int, dt);
    let step = transition_spec(ch.state, ch.facing, col.vx, col.vy, col.triggers > 0, cd1);
    let entered = if step.state == ch.state {
        Option::<LocomotionState>::None
    } else {
        Option::Some(step.state)
    };
    let anim2 = if entered is Some {
        cycle_spec(descriptor_spec(step.state))
    } else {
        anim1
    };
    let spawned = Seq::new(col.triggers as nat, |t: int| spawn_spec(px1, py1, step.facing));
    let kept = cull_from(projs1 + spawned, 0);
    TickView {
        px: px1,
        py: py1,
        vx: col.vx,
        vy: col.vy,
        facing: step.facing,
        state: step.state,
        cooldown: step.cooldown,
        anim: anim2,
        contacts: col.contacts,
        triggers: col.triggers,
        entered,
        facing_changed: step.facing != ch.facing,
        projectiles: kept,
    }
}

/// The whole simulation: the character, the immutable static
/// colliders, and the live projectiles.
pub struct World {
    pub character: Character,
    pub colliders: Vec<Aabb>,
    pub projectiles: Vec<Projectile>,
}

impl World {
    pub open spec fn wf(self) -> bool {
        &&& self.character.wf()
        &&& self.colliders@.len() <= MAX_COLLIDERS
        &&& forall|j: int|
            0 <= j < self.colliders@.len() ==> (#[trigger] self.colliders@[j]).wf()
        &&& forall|j: int|
            0 <= j < self.projectiles@.len() ==> (#[trigger] self.projectiles@[j])@.wf()
    }

    /// A world at startup: the character, the level's colliders, and
    /// no projectiles.
    pub fn new(character: Character, colliders: Vec<Aabb>) -> (w: World)
        requires
            character.wf(),
            colliders@.len() <= MAX_COLLIDERS,
            forall|j: int| 0 <= j < colliders@.len() ==> (#[trigger] colliders@[j]).wf(),
        ensures
            w.character == character,
            w.colliders@ == colliders@,
            w.projectiles@.len() == 0,
            w.wf(),
    {
        World { character, colliders, projectiles: Vec::new() }
    }

    /// Runs one simulation tick of `dt_ms` milliseconds and reports
    /// the tick's events; the outcome is exactly `tick_spec` over the
    /// world's prior value.
    pub fn tick(&mut self, input: &InputState, dt_ms: u64) -> (out: TickOutput)
        requires
            old(self).wf(),
            dt_ms <= MAX_TICK_MS,
            -POS_LIMIT <= old(self).character.position.x <= POS_LIMIT,
            -POS_LIMIT <= old(self).character.position.y <= POS_LIMIT,
        ensures
            ({
                let t = tick_spec(
                    old(self).character,
                    old(self).colliders@,
                    old(self).projectiles@.map_values(|p: Projectile| p@),
                    *input,
                    dt_ms as int,
                );
                &&& final(self).character.position.x == t.px
                &&& final(self).character.position.y == t.py
                &&& final(self).character.velocity.x == t.vx
                &&& final(self).character.velocity.y == t.vy
                &&& final(self).character.facing == t.facing
                &&& final(self).character.state == t.state
                &&& final(self).character.cooldown.remaining_ms == t.cooldown
                &&& final(self).character.anim@ == t.anim
                &&& final(self).colliders@ == old(self).colliders@
                &&& final(self).projectiles@.map_values(|p: Projectile| p@) == t.projectiles
                &&& out.contacts == t.contacts
                &&& out.triggers == t.triggers
                &&& out.entered == t.entered
                &&& out.facing_changed == t.facing_changed
                &&& out.reconfig == (match t.entered {
                    Option::Some(s) => Option::Some(descriptor_spec(s)),
                    Option::None => Option::<AnimationDescriptor>::None,
                })
            }),
            final(self).wf(),
            -POS_LIMIT - POS_TICK_STEP <= final(self).character.position.x <= POS_LIMIT
                + POS_TICK_STEP,
            -POS_LIMIT - POS_TICK_STEP <= final(self).character.position.y <= POS_LIMIT
                + POS_TICK_STEP,
    {
        let ghost w0 = *old(self);
        let ghost dt_g = dt_ms as int;
        let ghost projs0 = w0.projectiles@.map_values(|p: Projectile| p@);
        let ghost t = tick_spec(w0.character, w0.colliders@, projs0, *input, dt_g);

        // Animation driver: the character's cycle and every
        // projectile's cycle advance exactly once per tick; the
        // projectile pass also applies the integration rule to each
        // projectile.
        self.character.anim.advance(dt_ms);
        let mut moved: Vec<Projectile> = Vec::new();
        let n: usize = self.projectiles.len();
        let mut i: usize = 0;
        while i < n
            invariant
                i <= n,
                n == self.projectiles@.len(),
                self.projectiles@ == w0.projectiles@,
                dt_ms <= MAX_TICK_MS,
                forall|j: int|
                    0 <= j < self.projectiles@.len()
                        ==> (#[trigger] self.projectiles@[j])@.wf(),
                moved@.len() == i,
                forall|j: int|
                    0 <= j < i ==> (#[trigger] moved@[j])@ == proj_step_spec(
                        w0.projectiles@[j]@,
                        dt_ms as int,
                    ),
                forall|j: int| 0 <= j < i ==> (#[trigger] moved@[j])@.wf_except_range(),
            decreases n - i,
        {
            let p = self.projectiles[i];
            moved.push(crate::projectile::step(p, dt_ms));
            i = i + 1;
        }
        proof {
            assert(moved@.map_values(|p: Projectile| p@) =~= projs0.map_values(
                |p: ProjView| proj_step_spec(p, dt_g)));
        }

        // Input intent and movement integration.
        let dvx = movement_intent(input, self.character.state, dt_ms);
        self.character.velocity = integrate_velocity(self.character.velocity, dvx);
        self.character.position = advance_position(
            self.character.position,
            self.character.velocity,
            dt_ms,
        );
        proof {
            lemma_mul_bound(
                self.character.velocity.x as int,
                dt_ms as int,
                VEL_X_LIMIT as int,
                MAX_TICK_MS as int,
            );
            lemma_mul_bound(
                self.character.velocity.y as int,
                dt_ms as int,
                VEL_Y_LIMIT as int,
                MAX_TICK_MS as int,
            );
        }

        // Collision pass.
        let in_attack: bool = if let LocomotionState::Attack = self.character.state {
            true
        } else {
            false
        };
        let (contacts, triggers) = resolve_collisions(
            &mut self.character.velocity,
            self.character.position,
            &self.colliders,
            input,
            in_attack,
            dt_ms,
        );

        // Cooldown countdown, then the transition rule.
        self.character.cooldown.tick(dt_ms);
        let tr = transition(
            self.character.state,
            self.character.facing,
            self.character.velocity,
            triggers > 0,
            &mut self.character.cooldown,
        );
        self.character.state = tr.state;
        self.character.facing = tr.facing;

        // Animation reconfiguration on a state entry.
        let reconfig: Option<AnimationDescriptor> = match tr.entered {
            Option::Some(s) => {
                let d = descriptor_for(s);
                self.character.anim = AnimationCycle::from_descriptor(&d);
                Option::Some(d)
            },
            Option::None => Option::None,
        };

        // Projectile spawning: one per attack trigger.
        let ghost spawned = Seq::new(
            t.triggers as nat,
            |s: int| spawn_spec(t.px, t.py, t.facing),
        );
        let mut j: usize = 0;
        while j < triggers
            invariant
                j <= triggers,
                triggers as int == t.triggers,
                moved@.len() == n + j,
                n == w0.projectiles@.len(),
                dt_ms <= MAX_TICK_MS,
                dt_g == dt_ms as int,
                self.character.position.x as int == t.px,
                self.character.position.y as int == t.py,
                self.character.facing == t.facing,
                -POS_LIMIT - POS_TICK_STEP <= self.character.position.x <= POS_LIMIT
                    + POS_TICK_STEP,
                -POS_LIMIT - POS_TICK_STEP <= self.character.position.y <= POS_LIMIT
                    + POS_TICK_STEP,
                forall|k: int|
                    0 <= k < n ==> (#[trigger] moved@[k])@ == proj_step_spec(
                        w0.projectiles@[k]@,
                        dt_g,
                    ),
                forall|k: int|
                    n <= k < n + j ==> (#[trigger] moved@[k])@ == spawn_spec(
                        t.px,
                        t.py,
                        t.facing,
                    ),
                forall|k: int| 0 <= k < n + j ==> (#[trigger] moved@[k])@.wf_except_range(),
            decreases triggers - j,
        {
            moved.push(crate::projectile::spawn(self.character.position, self.character.facing));
            j = j + 1;
        }
        let ghost all = moved@.map_values(|p: Projectile| p@);
        proof {
            assert(all =~= projs0.map_values(|p: ProjView| proj_step_spec(p, dt_g)) + spawned);
        }

        // Despawn rule: keep only projectiles still in range.
        let mut kept: Vec<Projectile> = Vec::new();
        let m: usize = moved.len();
        let mut k: usize = 0;
        while k < m
            invariant
                k <= m,
                m == moved@.len(),
                all == moved@.map_values(|p: Projectile| p@),
                forall|q: int| 0 <= q < m ==> (#[trigger] moved@[q])@.wf_except_range(),
                kept@.map_values(|p: Projectile| p@) + cull_from(all, k as int) == cull_from(
                    all,
                    0,
                ),
                forall|q: int| 0 <= q < kept@.len() ==> (#[trigger] kept@[q])@.wf(),
            decreases m - k,
        {
            let p = moved[k];
            if in_range(&p) {
                let ghost kept_before = kept@.map_values(|x: Projectile| x@);
                kept.push(p);
                proof {
                    assert(kept@.map_values(|x: Projectile| x@) =~= kept_before + seq![p@]);
                    assert((kept_before + seq![p@]) + cull_from(all, k as int + 1)
                        =~= kept_before + (seq![p@] + cull_from(all, k as int + 1)));
                    assert(seq![p@] + cull_from(all, k as int + 1) == cull_from(all, k as int));
                }
            }
            k = k + 1;
        }
        proof {
            assert(cull_from(all, m as int) =~= Seq::<ProjView>::empty());
            assert(kept@.map_values(|p: Projectile| p@) + Seq::<ProjView>::empty()
                =~= kept@.map_values(|p: Projectile| p@));
        }
        self.projectiles = kept;

        TickOutput {
            contacts,
            triggers,
            entered: tr.entered,
            reconfig,
            facing_changed: tr.facing_changed,
        }
    }
}

} // verus!
