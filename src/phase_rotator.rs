//! Stage planning and coefficient storage for the all-pass phase rotator.
use vstd::prelude::*;
use vstd::std_specs::convert::FromSpec;

verus! {

/// The prenormalized coefficients `[b0, b1, b2, a1, a2]` of one biquad stage
/// (every coefficient already divided by `a0`).
#[derive(Clone, Copy, Debug)]
pub struct BiquadCoefficients<T> {
    pub b0: T,
    pub b1: T,
    pub b2: T,
    pub a1: T,
    pub a2: T,
}

impl<T: From<u8>> BiquadCoefficients<T> {
    /// Coefficients of the pass-through stage: `b0 = 1`, all others `0`.
    pub fn identity() -> (r: Self)
        ensures
            T::obeys_from_spec() ==> r == (BiquadCoefficients {
                b0: T::from_spec(1u8),
                b1: T::from_spec(0u8),
                b2: T::from_spec(0u8),
                a1: T::from_spec(0u8),
                a2: T::from_spec(0u8),
            }),
    {
        BiquadCoefficients {
            b0: T::from(1u8),
            b1: T::from(0u8),
            b2: T::from(0u8),
            a1: T::from(0u8),
            a2: T::from(0u8),
        }
    }
}

/// The most all-pass stages the rotator cascades.
pub const MAX_STAGES: usize = 16;

/// A change of the active stage count by more than this resets every stage's state.
pub const RESET_STAGE_JUMP: usize = 2;

/// The outcome of a coefficient update: how many stages are active and
/// whether every stage's state registers must be cleared first.
#[derive(Clone, Copy, Debug, PartialEq, Eq, Structural)]
pub struct StagePlan {
    pub active: usize,
    pub reset_states: bool,
}

/// The stage count for a requested count, clamped to the cascade length.
pub open spec fn clamp_stages(required: usize) -> usize {
    if required < MAX_STAGES {
        required
    } else {
        MAX_STAGES
    }
}

/// The plan for moving from `active` stages to `required` stages.
pub open spec fn plan_for(active: usize, required: usize) -> StagePlan {
    let next = clamp_stages(required);
    StagePlan {
        active: next,
        reset_states: (active - next > RESET_STAGE_JUMP) || (next - active > RESET_STAGE_JUMP),
    }
}

/// When the rotator's coefficients are recomputed and how many stages run.
/// Parameter setters mark it dirty; an update consumes the mark.
pub struct RotatorSchedule {
    num_active_filters: usize,
    needs_update: bool,
}

impl RotatorSchedule {
    pub closed spec fn spec_active(&self) -> usize {
        self.num_active_filters
    }

    pub closed spec fn spec_dirty(&self) -> bool {
        self.needs_update
    }

    /// The schedule and plan that an update with `required` stages yields:
    /// nothing at all unless the schedule is dirty.
    pub closed spec fn updated(&self, required: usize) -> (Self, Option<StagePlan>) {
        if !self.needs_update {
            (*self, None)
        } else {
            let plan = plan_for(self.num_active_filters, required);
            (RotatorSchedule { num_active_filters: plan.active, needs_update: false }, Some(plan))
        }
    }

    /// No active stage and nothing to recompute.
    pub fn new() -> (r: Self)
        ensures
            r.spec_active() == 0,
            !r.spec_dirty(),
    {
        RotatorSchedule { num_active_filters: 0, needs_update: false }
    }

    /// Records that a parameter moved by more than its tolerance.
    pub fn mark_dirty(&mut self)
        ensures
            final(self).spec_dirty(),
            final(self).spec_active() == old(self).spec_active(),
    {
        self.needs_update = true;
    }

    pub fn needs_update(&self) -> (r: bool)
        ensures
            r == self.spec_dirty(),
    {
        self.needs_update
    }

    pub fn num_active_filters(&self) -> (r: usize)
        ensures
            r == self.spec_active(),
    {
        self.num_active_filters
    }

    /// When dirty, switches to `min(required_stages, 16)` active stages,
    /// asks for a state reset when that count moves by more than two, clears
    /// the mark and returns the plan; otherwise changes nothing and returns
    /// `None`.
    pub fn update_if_needed(&mut self, required_stages: usize) -> (r: Option<StagePlan>)
        ensures
            (*final(self), r) == old(self).updated(required_stages),
            !old(self).spec_dirty() ==> r is None && *final(self) == *old(self),
            old(self).spec_dirty() ==> {
                &&& r == Some(plan_for(old(self).spec_active(), required_stages))
                &&& final(self).spec_active() == clamp_stages(required_stages)
                &&& !final(self).spec_dirty()
            },
    {
        if !self.needs_update {
            return None;
        }
        let next = if required_stages < MAX_STAGES {
            required_stages
        } else {
            MAX_STAGES
        };
        let old_active = self.num_active_filters;
        let reset_states = if old_active >= next {
            old_active - next > RESET_STAGE_JUMP
        } else {
            next - old_active > RESET_STAGE_JUMP
        };
        self.num_active_filters = next;
        self.needs_update = false;
        Some(StagePlan { active: next, reset_states })
    }

    /// No active stage and nothing to recompute.
    pub fn reset(&mut self)
        ensures
            final(self).spec_active() == 0,
            !final(self).spec_dirty(),
    {
        self.num_active_filters = 0;
        self.needs_update = false;
    }
}

/// A second update with no parameter change in between is a no-op: it
/// yields no plan (no coefficient is recomputed and no state is reset) and
/// leaves the schedule as it was, whatever stage count it is asked for.
pub proof fn lemma_update_settles(schedule: RotatorSchedule, required: usize, required_again: usize)
    ensures
        schedule.updated(required).0.updated(required_again) == (schedule.updated(required).0, None::<StagePlan>),
{
}

} // verus!
