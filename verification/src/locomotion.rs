use vstd::prelude::*;
use crate::animation::AnimationDescriptor;
use crate::animation::ImageId;
use crate::animation::descriptor_wf;
use crate::cooldown::AttackCooldown;
use crate::geometry::Vec2Fix;
use crate::params::ATTACK_COOLDOWN_MS;

verus! {

/// The discrete behavior mode of the character.
#[derive(Clone, Copy, Debug, PartialEq, Eq, Structural)]
pub enum LocomotionState {
    Neutral,
    Run,
    Jump,
    Attack,
}

/// Which way the character looks; drives sprite mirroring and the sign
/// of a projectile's offset and velocity.
#[derive(Clone, Copy, Debug, PartialEq, Eq, Structural)]
pub enum Facing {
    Right,
    Left,
}

/// A facing of Left means the rendered sprite is mirrored.
pub open spec fn mirrored_spec(f: Facing) -> bool {
    f is Left
}

pub fn mirrored(f: Facing) -> (r: bool)
    ensures
        r == mirrored_spec(f),
{
    match f {
        Facing::Right => false,
        Facing::Left => true,
    }
}

/// The state motion alone asks for: vertical motion means Jump, pure
/// horizontal motion means Run, rest means Neutral.
pub open spec fn motion_state(vx: int, vy: int) -> LocomotionState {
    if vy != 0 {
        LocomotionState::Jump
    } else if vx != 0 {
        LocomotionState::Run
    } else {
        LocomotionState::Neutral
    }
}

/// The facing motion alone asks for; zero horizontal velocity leaves
/// the facing unchanged.
pub open spec fn motion_facing(f: Facing, vx: int) -> Facing {
    if vx < 0 {
        Facing::Left
    } else if vx > 0 {
        Facing::Right
    } else {
        f
    }
}

/// What one evaluation of the transition rule yields: the next state,
/// the next facing, and the cooldown time remaining after it.
pub struct StateStep {
    pub state: LocomotionState,
    pub facing: Facing,
    pub cooldown: int,
}

/// The transition rule, evaluated once per tick, highest priority
/// first: an attack trigger forces Attack and (re)arms the cooldown;
/// otherwise, only while the cooldown is not locked, motion picks the
/// state and the facing.  `cooldown` is the remaining lock time after
/// this tick's countdown.
pub open spec fn transition_spec(
    state: LocomotionState,
    facing: Facing,
    vx: int,
    vy: int,
    attack_triggered: bool,
    cooldown: int,
) -> StateStep {
    if attack_triggered {
        StateStep {
            state: LocomotionState::Attack,
            facing,
            cooldown: ATTACK_COOLDOWN_MS as int,
        }
    } else if cooldown > 0 {
        StateStep { state, facing, cooldown }
    } else {
        StateStep {
            state: motion_state(vx, vy),
            facing: motion_facing(facing, vx),
            cooldown,
        }
    }
}

/// What the state machine reports to the caller each tick: the new
/// state and facing, the state entered if the state changed (the edge
/// on which animation is reconfigured), and whether the facing
/// changed (the edge on which the mirror flag is updated).
#[derive(Clone, Copy, Debug)]
pub struct TransitionResult {
    pub state: LocomotionState,
    pub facing: Facing,
    pub entered: Option<LocomotionState>,
    pub facing_changed: bool,
}

/// Evaluates the transition rule.  The cooldown must already have been
/// counted down for this tick; an attack trigger (re)arms it.
pub fn transition(
    state: LocomotionState,
    facing: Facing,
    velocity: Vec2Fix,
    attack_triggered: bool,
    cooldown: &mut AttackCooldown,
) -> (r: TransitionResult)
    ensures
        ({
            let s = transition_spec(
                state,
                facing,
                velocity.x as int,
                velocity.y as int,
                attack_triggered,
                old(cooldown).remaining_ms as int,
            );
            &&& r.state == s.state
            &&& r.facing == s.facing
            &&& final(cooldown).remaining_ms == s.cooldown
            &&& r.entered == (if s.state == state {
                Option::<LocomotionState>::None
            } else {
                Option::Some(s.state)
            })
            &&& r.facing_changed == (s.facing != facing)
        }),
{
    let next_state: LocomotionState;
    let next_facing: Facing;
    if attack_triggered {
        cooldown.arm();
        next_state = LocomotionState::Attack;
        next_facing = facing;
    } else if cooldown.locked() {
        next_state = state;
        next_facing = facing;
    } else {
        next_state = if velocity.y != 0 {
            LocomotionState::Jump
        } else if velocity.x != 0 {
            LocomotionState::Run
        } else {
            LocomotionState::Neutral
        };
        next_facing = if velocity.x < 0 {
            Facing::Left
        } else if velocity.x > 0 {
            Facing::Right
        } else {
            facing
        };
    }
    TransitionResult {
        state: next_state,
        facing: next_facing,
        entered: if next_state == state {
            Option::None
        } else {
            Option::Some(next_state)
        },
        facing_changed: next_facing != facing,
    }
}

/// The animation descriptor each state configures on entry.
pub open spec fn descriptor_spec(s: LocomotionState) -> AnimationDescriptor {
    match s {
        LocomotionState::Neutral => AnimationDescriptor {
            image: ImageId::CharacterNeutral,
            first: 0,
            last: 1,
            period_ms: 400,
        },
        LocomotionState::Run => AnimationDescriptor {
            image: ImageId::CharacterRun,
            first: 0,
            last: 7,
            period_ms: 100,
        },
        LocomotionState::Jump => AnimationDescriptor {
            image: ImageId::CharacterJump,
            first: 0,
            last: 3,
            period_ms: 100,
        },
        LocomotionState::Attack => AnimationDescriptor {
            image: ImageId::CharacterAttack,
            first: 0,
            last: 11,
            period_ms: 100,
        },
    }
}

/// The fixed animation descriptor for a state: Neutral is a two-frame
/// slow cycle, Run an eight-frame fast cycle, Jump a four-frame fast
/// cycle, Attack a twelve-frame fast cycle.
pub fn descriptor_for(s: LocomotionState) -> (d: AnimationDescriptor)
    ensures
        d == descriptor_spec(s),
        descriptor_wf(d),
{
    match s {
        LocomotionState::Neutral => AnimationDescriptor {
            image: ImageId::CharacterNeutral,
            first: 0,
            last: 1,
            period_ms: 400,
        },
        LocomotionState::Run => AnimationDescriptor {
            image: ImageId::CharacterRun,
            first: 0,
            last: 7,
            period_ms: 100,
        },
        LocomotionState::Jump => AnimationDescriptor {
            image: ImageId::CharacterJump,
            first: 0,
            last: 3,
            period_ms: 100,
        },
        LocomotionState::Attack => AnimationDescriptor {
            image: ImageId::CharacterAttack,
            first: 0,
            last: 11,
            period_ms: 100,
        },
    }
}

/// Law: the transition rule is idempotent.  Re-evaluating it with the
/// velocity, the trigger and the remaining cooldown unchanged leaves
/// state, facing and cooldown where the first evaluation put them, so
/// an entry side effect (animation reconfiguration, mirror update)
/// fires once per actual change, never once per tick.
pub proof fn lemma_transition_idempotent(
    state: LocomotionState,
    facing: Facing,
    vx: int,
    vy: int,
    attack_triggered: bool,
    cooldown: int,
)
    ensures
        ({
            let s1 = transition_spec(state, facing, vx, vy, attack_triggered, cooldown);
            let s2 = transition_spec(
                s1.state,
                s1.facing,
                vx,
                vy,
                attack_triggered,
                s1.cooldown,
            );
            &&& s2.state == s1.state
            &&& s2.facing == s1.facing
            &&& s2.cooldown == s1.cooldown
        }),
{
}

/// Law: the attack lock.  While cooldown time remains and no attack
/// trigger fires, the transition rule changes neither the locomotion
/// state nor the facing, whatever the velocity.
pub proof fn lemma_attack_lock(
    state: LocomotionState,
    facing: Facing,
    vx: int,
    vy: int,
    cooldown: int,
)
    requires
        cooldown > 0,
    ensures
        transition_spec(state, facing, vx, vy, false, cooldown).state == state,
        transition_spec(state, facing, vx, vy, false, cooldown).facing == facing,
{
}

} // verus!
