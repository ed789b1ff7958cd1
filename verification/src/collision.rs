use vstd::prelude::*;
use crate::geometry::Aabb;
use crate::geometry::Side;
use crate::geometry::Vec2Fix;
use crate::geometry::abs_spec;
use crate::geometry::clamp_i64;
use crate::geometry::clamp_spec;
use crate::geometry::contact;
use crate::geometry::contact_spec;
use crate::input::InputState;
use crate::params::ATTACK_SCALE_DIV;
use crate::params::CHAR_VY_BOUND;
use crate::params::DECEL;
use crate::params::DECEL_CAP;
use crate::params::GRAVITY;
use crate::params::JUMP_IMPULSE;
use crate::params::MAX_COLLIDERS;
use crate::params::MAX_TICK_MS;
use crate::params::POS_LIMIT;
use crate::params::POS_TICK_STEP;
use crate::params::VEL_X_LIMIT;
use crate::params::VEL_Y_LIMIT;
use crate::motion::lemma_mul_bound;

verus! {

/// The horizontal velocity after an attack trigger:
/// `vx * dt / ATTACK_SCALE_DIV`, truncated toward zero, which nearly
/// zeroes the velocity at ordinary tick rates.
pub open spec fn attack_scale(vx: int, dt: int) -> int {
    if vx >= 0 {
        (vx * dt) / (ATTACK_SCALE_DIV as int)
    } else {
        -(((-vx) * dt) / (ATTACK_SCALE_DIV as int))
    }
}

/// Applies the attack-trigger velocity scaling; the result never
/// exceeds the scaled velocity in magnitude.
pub fn attack_scale_exec(vx: i64, dt_ms: u64) -> (r: i64)
    requires
        -VEL_X_LIMIT <= vx <= VEL_X_LIMIT,
        dt_ms <= MAX_TICK_MS,
    ensures
        r == attack_scale(vx as int, dt_ms as int),
        abs_spec(r as int) <= abs_spec(vx as int),
{
    let mag: i64 = if vx < 0 { -vx } else { vx };
    proof {
        lemma_mul_bound(mag as int, dt_ms as int, VEL_X_LIMIT as int, MAX_TICK_MS as int);
        vstd::arithmetic::mul::lemma_mul_inequality(
            dt_ms as int,
            ATTACK_SCALE_DIV as int,
            mag as int,
        );
        vstd::arithmetic::div_mod::lemma_div_is_ordered(
            mag as int * dt_ms as int,
            mag as int * ATTACK_SCALE_DIV as int,
            ATTACK_SCALE_DIV as int,
        );
        vstd::arithmetic::div_mod::lemma_div_multiples_vanish(
            mag as int,
            ATTACK_SCALE_DIV as int,
        );
        assert(mag as int * ATTACK_SCALE_DIV as int == ATTACK_SCALE_DIV as int * mag as int)
            by (nonlinear_arith);
        assert(dt_ms as int * mag as int == mag as int * dt_ms as int) by (nonlinear_arith);
        assert(mag as int * dt_ms as int >= 0) by (nonlinear_arith)
            requires
                mag as int >= 0,
                dt_ms as int >= 0,
        ;
    }
    let scaled_mag: u64 = (mag as u64) * dt_ms / ATTACK_SCALE_DIV;
    let scaled: i64 = scaled_mag as i64;
    if vx < 0 {
        -scaled
    } else {
        scaled
    }
}

/// The running outcome of the collision pass: the character's velocity
/// so far, the contact notifications emitted, and the attack triggers
/// raised.
pub struct ColState {
    pub vx: int,
    pub vy: int,
    pub contacts: int,
    pub triggers: int,
}

/// The collision response for one collider.  No overlap applies the
/// downward gravity increment for this collider's iteration (once per
/// non-overlapping collider, not once per tick, so a world with one
/// collider falls exactly once per tick).  An overlap emits a contact
/// notification; only a Top contact carries behavior: the vertical
/// velocity is zeroed (landing), the jump key grants the fixed upward
/// impulse, an attack press outside the Attack state scales the
/// horizontal velocity down and raises an attack trigger, and a
/// released movement key decays the horizontal velocity toward zero
/// without crossing it.
pub open spec fn collide_step(
    st: ColState,
    b: Aabb,
    px: int,
    py: int,
    inp: InputState,
    in_attack: bool,
    dt: int,
) -> ColState {
    match contact_spec(px, py, b) {
        Option::None => ColState {
            vx: st.vx,
            vy: st.vy - GRAVITY * dt,
            contacts: st.contacts,
            triggers: st.triggers,
        },
        Option::Some(side) => {
            if side is Top {
                let vy1: int = if !in_attack && inp.up_held {
                    JUMP_IMPULSE as int
                } else {
                    0
                };
                let attacking: bool = !in_attack && inp.attack_just_pressed;
                let vx1: int = if attacking {
                    attack_scale(st.vx, dt)
                } else {
                    st.vx
                };
                let vx2: int = if !inp.left_held && vx1 < 0 {
                    clamp_spec(vx1 + DECEL * dt, -(DECEL_CAP as int), 0)
                } else {
                    vx1
                };
                let vx3: int = if !inp.right_held && vx2 > 0 {
                    clamp_spec(vx2 - DECEL * dt, 0, DECEL_CAP as int)
                } else {
                    vx2
                };
                ColState {
                    vx: vx3,
                    vy: vy1,
                    contacts: st.contacts + 1,
                    triggers: if attacking {
                        st.triggers + 1
                    } else {
                        st.triggers
                    },
                }
            } else {
                ColState {
                    vx: st.vx,
                    vy: st.vy,
                    contacts: st.contacts + 1,
                    triggers: st.triggers,
                }
            }
        },
    }
}

/// The collision pass folded over the colliders from index `i` on.
pub open spec fn collide_from(
    st: ColState,
    bs: Seq<Aabb>,
    i: int,
    px: int,
    py: int,
    inp: InputState,
    in_attack: bool,
    dt: int,
) -> ColState
    decreases bs.len() - i,
{
    if 0 <= i < bs.len() {
        collide_from(
            collide_step(st, bs[i], px, py, inp, in_attack, dt),
            bs,
            i + 1,
            px,
            py,
            inp,
            in_attack,
            dt,
        )
    } else {
        st
    }
}

/// The collision resolver: tests the character's box at `position`
/// against every collider in order and applies each collider's
/// response to the velocity, returning how many contact notifications
/// and attack triggers the pass emitted.
pub fn resolve_collisions(
    velocity: &mut Vec2Fix,
    position: Vec2Fix,
    colliders: &Vec<Aabb>,
    input: &InputState,
    in_attack: bool,
    dt_ms: u64,
) -> (r: (usize, usize))
    requires
        dt_ms <= MAX_TICK_MS,
        colliders@.len() <= MAX_COLLIDERS,
        forall|j: int| 0 <= j < colliders@.len() ==> (#[trigger] colliders@[j]).wf(),
        -VEL_X_LIMIT <= old(velocity).x <= VEL_X_LIMIT,
        -VEL_Y_LIMIT <= old(velocity).y <= VEL_Y_LIMIT,
        -POS_LIMIT - POS_TICK_STEP <= position.x <= POS_LIMIT + POS_TICK_STEP,
        -POS_LIMIT - POS_TICK_STEP <= position.y <= POS_LIMIT + POS_TICK_STEP,
    ensures
        ({
            let end = collide_from(
                ColState {
                    vx: old(velocity).x as int,
                    vy: old(velocity).y as int,
                    contacts: 0,
                    triggers: 0,
                },
                colliders@,
                0,
                position.x as int,
                position.y as int,
                *input,
                in_attack,
                dt_ms as int,
            );
            &&& final(velocity).x == end.vx
            &&& final(velocity).y == end.vy
            &&& r.0 == end.contacts
            &&& r.1 == end.triggers
        }),
        -VEL_X_LIMIT <= final(velocity).x <= VEL_X_LIMIT,
        -CHAR_VY_BOUND <= final(velocity).y <= CHAR_VY_BOUND,
{
    let ghost init = ColState {
        vx: velocity.x as int,
        vy: velocity.y as int,
        contacts: 0,
        triggers: 0,
    };
    let ghost px = position.x as int;
    let ghost py = position.y as int;
    let ghost dt_g = dt_ms as int;
    let mut vx: i64 = velocity.x;
    let mut vy: i64 = velocity.y;
    let mut contacts: usize = 0;
    let mut triggers: usize = 0;
    let mut i: usize = 0;
    let n: usize = colliders.len();
    while i < n
        invariant
            n == colliders@.len(),
            n <= MAX_COLLIDERS,
            i <= n,
            dt_ms <= MAX_TICK_MS,
            forall|j: int| 0 <= j < colliders@.len() ==> (#[trigger] colliders@[j]).wf(),
            -POS_LIMIT - POS_TICK_STEP <= position.x <= POS_LIMIT + POS_TICK_STEP,
            -POS_LIMIT - POS_TICK_STEP <= position.y <= POS_LIMIT + POS_TICK_STEP,
            px == position.x as int,
            py == position.y as int,
            dt_g == dt_ms as int,
            contacts <= i,
            triggers <= i,
            -VEL_X_LIMIT <= vx <= VEL_X_LIMIT,
            vy as int <= VEL_Y_LIMIT,
            vy as int >= -(VEL_Y_LIMIT as int) - (GRAVITY as int * MAX_TICK_MS as int) * (
            i as int),
            collide_from(
                ColState {
                    vx: vx as int,
                    vy: vy as int,
                    contacts: contacts as int,
                    triggers: triggers as int,
                },
                colliders@,
                i as int,
                px,
                py,
                *input,
                in_attack,
                dt_g,
            ) == collide_from(init, colliders@, 0, px, py, *input, in_attack, dt_g),
        decreases n - i,
    {
        let ghost st_old = ColState {
            vx: vx as int,
            vy: vy as int,
            contacts: contacts as int,
            triggers: triggers as int,
        };
        proof {
            let k: int = GRAVITY as int * MAX_TICK_MS as int;
            lemma_mul_bound(GRAVITY as int, dt_ms as int, GRAVITY as int, MAX_TICK_MS as int);
            lemma_mul_bound(DECEL as int, dt_ms as int, DECEL as int, MAX_TICK_MS as int);
            assert(k * (i as int + 1) == k * (i as int) + k) by (nonlinear_arith);
            assert(k * (i as int) <= k * (MAX_COLLIDERS as int)) by (nonlinear_arith)
                requires
                    0 <= i as int <= MAX_COLLIDERS as int,
                    k >= 0,
            ;
        }
        let side = contact(position.x, position.y, &colliders[i]);
        match side {
            Option::None => {
                vy = vy - GRAVITY * (dt_ms as i64);
            },
            Option::Some(s) => {
                contacts = contacts + 1;
                if let Side::Top = s {
                    vy = 0;
                    if !in_attack {
                        if input.up_held {
                            vy = vy + JUMP_IMPULSE;
                        }
                        if input.attack_just_pressed {
                            vx = attack_scale_exec(vx, dt_ms);
                            triggers = triggers + 1;
                        }
                    }
                    if !input.left_held && vx < 0 {
                        vx = clamp_i64(vx + DECEL * (dt_ms as i64), -DECEL_CAP, 0);
                    }
                    if !input.right_held && vx > 0 {
                        vx = clamp_i64(vx - DECEL * (dt_ms as i64), 0, DECEL_CAP);
                    }
                }
            },
        }
        proof {
            let st_new = ColState {
                vx: vx as int,
                vy: vy as int,
                contacts: contacts as int,
                triggers: triggers as int,
            };
            assert(st_new == collide_step(st_old, colliders@[i as int], px, py, *input,
                in_attack, dt_g));
        }
        i = i + 1;
    }
    proof {
        let k: int = GRAVITY as int * MAX_TICK_MS as int;
        assert(k * (n as int) <= k * (MAX_COLLIDERS as int)) by (nonlinear_arith)
            requires
                0 <= n as int <= MAX_COLLIDERS as int,
                k >= 0,
        ;
    }
    velocity.x = vx;
    velocity.y = vy;
    (contacts, triggers)
}

} // verus!
