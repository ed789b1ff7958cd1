use vstd::prelude::*;
use crate::locomotion::LocomotionState;
use crate::params::MAX_TICK_MS;
use crate::params::MOVE_ACCEL;

verus! {

/// The key state the host hands the core each tick: held state for the
/// movement and jump keys, and the edge-triggered "just pressed" state
/// of the attack key (true only on the tick the key goes down).
#[derive(Clone, Copy, Debug, PartialEq, Eq, Structural)]
pub struct InputState {
    pub left_held: bool,
    pub right_held: bool,
    pub up_held: bool,
    pub attack_just_pressed: bool,
}

impl InputState {
    /// No key held and no edge pending.
    pub fn idle() -> (r: InputState)
        ensures
            r == (InputState {
                left_held: false,
                right_held: false,
                up_held: false,
                attack_just_pressed: false,
            }),
    {
        InputState { left_held: false, right_held: false, up_held: false, attack_just_pressed: false }
    }
}

/// The horizontal velocity request the held keys produce over `dt`
/// milliseconds: `MOVE_ACCEL * dt` rightward, its negation leftward,
/// zero if neither or both keys are held, and zero unconditionally
/// while the character is in the Attack state.
pub open spec fn intent_dvx(inp: InputState, state: LocomotionState, dt: int) -> int {
    if state is Attack {
        0
    } else {
        (if inp.right_held {
            MOVE_ACCEL * dt
        } else {
            0
        }) - (if inp.left_held {
            MOVE_ACCEL * dt
        } else {
            0
        })
    }
}

/// Resolves the held movement keys into a horizontal velocity request.
pub fn movement_intent(inp: &InputState, state: LocomotionState, dt_ms: u64) -> (dvx: i64)
    requires
        dt_ms <= MAX_TICK_MS,
    ensures
        dvx == intent_dvx(*inp, state, dt_ms as int),
        -(MOVE_ACCEL as int) * (MAX_TICK_MS as int) <= dvx
            <= (MOVE_ACCEL as int) * (MAX_TICK_MS as int),
{
    if let LocomotionState::Attack = state {
        return 0;
    }
    let step: i64 = MOVE_ACCEL * (dt_ms as i64);
    let mut dvx: i64 = 0;
    if inp.right_held {
        dvx = dvx + step;
    }
    if inp.left_held {
        dvx = dvx - step;
    }
    dvx
}

} // verus!
