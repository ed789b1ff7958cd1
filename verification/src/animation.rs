use vstd::prelude::*;
use crate::params::FRAME_LIMIT;
use crate::params::MAX_TICK_MS;
use crate::params::PERIOD_LIMIT;

verus! {

/// Identifies the source imagery of an animation; the host resolves it
/// into drawable frames, the core never decodes images.
#[derive(Clone, Copy, Debug, PartialEq, Eq, Structural)]
pub enum ImageId {
    CharacterNeutral,
    CharacterRun,
    CharacterJump,
    CharacterAttack,
    ProjectileBubble,
}

/// What the state machine hands the host on every state entry: the
/// imagery, the frame range, and the playback period of the new cycle.
#[derive(Clone, Copy, Debug, PartialEq, Eq, Structural)]
pub struct AnimationDescriptor {
    pub image: ImageId,
    pub first: usize,
    pub last: usize,
    pub period_ms: u64,
}

/// A per-entity repeating animation: the frame range `[first, last]`,
/// the current frame, and a repeating timer with period `period_ms` of
/// which `elapsed_ms` has passed.
#[derive(Clone, Copy, Debug, PartialEq, Eq, Structural)]
pub struct AnimationCycle {
    pub first: usize,
    pub last: usize,
    pub index: usize,
    pub period_ms: u64,
    pub elapsed_ms: u64,
}

/// The mathematical value of an animation cycle.
pub struct AnimView {
    pub first: int,
    pub last: int,
    pub index: int,
    pub period: int,
    pub elapsed: int,
}

impl View for AnimationCycle {
    type V = AnimView;

    open spec fn view(&self) -> AnimView {
        AnimView {
            first: self.first as int,
            last: self.last as int,
            index: self.index as int,
            period: self.period_ms as int,
            elapsed: self.elapsed_ms as int,
        }
    }
}

impl AnimView {
    /// The cycle invariant: the current frame lies in `[first, last]`,
    /// the timer period is positive, and the elapsed time has not yet
    /// reached the period.
    pub open spec fn wf(self) -> bool {
        &&& 0 <= self.first <= self.index <= self.last <= FRAME_LIMIT
        &&& 0 < self.period <= PERIOD_LIMIT
        &&& 0 <= self.elapsed < self.period
    }
}

pub open spec fn descriptor_wf(d: AnimationDescriptor) -> bool {
    &&& d.first <= d.last <= FRAME_LIMIT
    &&& 0 < d.period_ms <= PERIOD_LIMIT
}

/// The cycle an animation descriptor configures: the frame pointer is
/// re-initialized to the first frame and the timer starts fresh.
pub open spec fn cycle_spec(d: AnimationDescriptor) -> AnimView {
    AnimView {
        first: d.first as int,
        last: d.last as int,
        index: d.first as int,
        period: d.period_ms as int,
        elapsed: 0,
    }
}

/// One tick of the animation driver: the repeating timer advances by
/// `dt`; when it completes, the frame advances by one, wrapping to
/// `first` after `last`.
pub open spec fn anim_step(a: AnimView, dt: int) -> AnimView
    recommends
        a.period > 0,
{
    AnimView {
        first: a.first,
        last: a.last,
        index: if a.elapsed + dt < a.period {
            a.index
        } else if a.index == a.last {
            a.first
        } else {
            a.index + 1
        },
        period: a.period,
        elapsed: (a.elapsed + dt) % a.period,
    }
}

impl AnimationCycle {
    /// Starts the cycle a descriptor configures.
    pub fn from_descriptor(d: &AnimationDescriptor) -> (c: AnimationCycle)
        requires
            descriptor_wf(*d),
        ensures
            c@ == cycle_spec(*d),
            c@.wf(),
    {
        AnimationCycle {
            first: d.first,
            last: d.last,
            index: d.first,
            period_ms: d.period_ms,
            elapsed_ms: 0,
        }
    }

    /// One tick of the animation driver over this cycle.
    pub fn advance(&mut self, dt_ms: u64)
        requires
            old(self)@.wf(),
            dt_ms <= MAX_TICK_MS,
        ensures
            final(self)@ == anim_step(old(self)@, dt_ms as int),
            final(self)@.wf(),
    {
        let total: u64 = self.elapsed_ms + dt_ms;
        if total >= self.period_ms {
            self.elapsed_ms = total % self.period_ms;
            self.index = if self.index == self.last {
                self.first
            } else {
                self.index + 1
            };
        } else {
            self.elapsed_ms = total;
            proof {
                vstd::arithmetic::div_mod::lemma_small_mod(
                    total as nat,
                    self.period_ms as nat,
                );
            }
        }
    }
}

} // verus!
