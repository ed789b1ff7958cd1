use vstd::prelude::*;
use crate::params::ATTACK_COOLDOWN_MS;

verus! {

/// The remaining cooldown after `dt` milliseconds have elapsed:
/// counting down, floor-clamped at zero.
pub open spec fn cooldown_after(c: int, dt: int) -> int {
    if dt >= c {
        0
    } else {
        c - dt
    }
}

/// The one-shot countdown timer gating the locomotion state machine:
/// while it is counting down, motion-driven state and facing changes
/// are suppressed.
#[derive(Clone, Copy, Debug, PartialEq, Eq, Structural)]
pub struct AttackCooldown {
    pub remaining_ms: u64,
}

impl AttackCooldown {
    /// A cooldown that is already expired, as the character starts.
    pub fn new() -> (c: AttackCooldown)
        ensures
            c.remaining_ms == 0,
            !c.locked_spec(),
    {
        AttackCooldown { remaining_ms: 0 }
    }

    /// The lock is held exactly while time remains on the countdown.
    pub open spec fn locked_spec(self) -> bool {
        self.remaining_ms > 0
    }

    pub fn locked(&self) -> (r: bool)
        ensures
            r == self.locked_spec(),
    {
        self.remaining_ms > 0
    }

    /// Counts down by the elapsed time, floor-clamped at zero.
    pub fn tick(&mut self, dt_ms: u64)
        ensures
            final(self).remaining_ms == cooldown_after(
                old(self).remaining_ms as int,
                dt_ms as int,
            ),
    {
        if dt_ms >= self.remaining_ms {
            self.remaining_ms = 0;
        } else {
            self.remaining_ms = self.remaining_ms - dt_ms;
        }
    }

    /// (Re)arms the lock to its fixed duration, overriding any value in
    /// progress; re-triggering can never shorten it.
    pub fn arm(&mut self)
        ensures
            final(self).remaining_ms == ATTACK_COOLDOWN_MS,
            final(self).locked_spec(),
    {
        self.remaining_ms = ATTACK_COOLDOWN_MS;
    }
}

} // verus!
