//! Kick timing state of the phase controller: inter-kick interval tracking,
//! next-kick prediction, the stage that decides how the rotation moves, and
//! the silence timeout.
use vstd::prelude::*;
use crate::history::{bounded_push, BoundedHistory};
use crate::median::{median, median_of};

verus! {

/// How the rotation moves from its current value to the target between kicks.
#[derive(Clone, Copy, Debug, PartialEq, Eq, Structural)]
pub enum AdaptationMode {
    /// Jump to the target at once.
    Immediate,
    /// Move linearly over the whole interval.
    LinearDrift,
    /// Move along a normalized exponential curve over the whole interval.
    ExponentialDrift,
    /// Hold until a threshold fraction of the interval, then move linearly.
    LastMoment,
}

/// What the rotation output is at a given sample.
#[derive(Clone, Copy, Debug, PartialEq, Eq, Structural)]
pub enum PhaseStage {
    /// No kick seen yet: the rotation is zero.
    Idle,
    /// A kick was seen but no interval is known: the current rotation holds.
    Hold,
    /// The rotation is the target.
    Target,
    /// The rotation moves from current to target along the mode's curve;
    /// `elapsed` samples of an interval of `interval` samples have passed.
    Drift { elapsed: usize, interval: usize },
}

/// How many recent inter-kick intervals the prediction is based on.
pub const MAX_RECENT_INTERVALS: usize = 8;

/// The interval assumed before two kicks have been seen (one second at 48 kHz).
pub const DEFAULT_INTERVAL_SAMPLES: usize = 48000;

pub open spec fn saturating_sub(a: usize, b: usize) -> usize {
    if a >= b {
        (a - b) as usize
    } else {
        0
    }
}

pub open spec fn saturating_add(a: usize, b: usize) -> usize {
    if a + b > usize::MAX {
        usize::MAX
    } else {
        (a + b) as usize
    }
}

/// Kick timing of the phase controller.
pub struct KickTimeline {
    last_kick_sample: Option<usize>,
    next_kick_sample_predicted: Option<usize>,
    inter_kick_interval: usize,
    recent_intervals: BoundedHistory<usize>,
    samples_since_last_kick: usize,
}

impl KickTimeline {
    pub closed spec fn spec_last_kick(&self) -> Option<usize> {
        self.last_kick_sample
    }

    pub closed spec fn spec_predicted(&self) -> Option<usize> {
        self.next_kick_sample_predicted
    }

    pub closed spec fn spec_interval(&self) -> usize {
        self.inter_kick_interval
    }

    /// The recent inter-kick intervals, oldest first.
    pub closed spec fn spec_intervals(&self) -> Seq<usize> {
        self.recent_intervals@
    }

    pub closed spec fn spec_since_last_kick(&self) -> usize {
        self.samples_since_last_kick
    }

    pub closed spec fn wf(&self) -> bool {
        &&& self.recent_intervals.wf()
        &&& self.recent_intervals.spec_capacity() == MAX_RECENT_INTERVALS
        &&& self.consistent()
    }

    /// The timing invariant: the interval is the median of the recent
    /// intervals once one is recorded, the default before; a predicted kick
    /// lies one interval after the last kick.
    pub open spec fn consistent(&self) -> bool {
        &&& self.spec_intervals().len() <= MAX_RECENT_INTERVALS
        &&& self.spec_intervals().len() > 0 ==> self.spec_interval() == median(self.spec_intervals())
        &&& self.spec_intervals().len() == 0 ==> self.spec_interval() == DEFAULT_INTERVAL_SAMPLES
        &&& self.spec_predicted() is Some ==> {
            &&& self.spec_intervals().len() > 0
            &&& self.spec_last_kick() is Some
            &&& self.spec_predicted() == Some(
                saturating_add(self.spec_last_kick()->0, self.spec_interval()),
            )
        }
    }

    /// Every well-formed timeline keeps the timing invariant.
    pub proof fn lemma_consistent(&self)
        requires
            self.wf(),
        ensures
            self.consistent(),
    {
    }

    /// The stage of the rotation at `current_sample` under `mode`.
    pub open spec fn stage_at(&self, current_sample: usize, mode: AdaptationMode) -> PhaseStage {
        match self.spec_last_kick() {
            None => PhaseStage::Idle,
            Some(last) => match self.spec_predicted() {
                None => PhaseStage::Hold,
                Some(_) => match mode {
                    AdaptationMode::Immediate => PhaseStage::Target,
                    _ => PhaseStage::Drift {
                        elapsed: saturating_sub(current_sample, last),
                        interval: self.spec_interval(),
                    },
                },
            },
        }
    }

    /// No kick seen, no prediction, no intervals, no elapsed samples.
    pub fn new() -> (r: Self)
        ensures
            r.wf(),
            r.spec_last_kick() is None,
            r.spec_predicted() is None,
            r.spec_interval() == DEFAULT_INTERVAL_SAMPLES,
            r.spec_intervals() == Seq::<usize>::empty(),
            r.spec_since_last_kick() == 0,
    {
        KickTimeline {
            last_kick_sample: None,
            next_kick_sample_predicted: None,
            inter_kick_interval: DEFAULT_INTERVAL_SAMPLES,
            recent_intervals: BoundedHistory::new(MAX_RECENT_INTERVALS),
            samples_since_last_kick: 0,
        }
    }

    /// The stage of the rotation at `current_sample`: idle before the first
    /// kick, holding until an interval is known, then the target or a drift
    /// over the median interval.
    pub fn phase_stage(&self, current_sample: usize, mode: AdaptationMode) -> (r: PhaseStage)
        requires
            self.wf(),
        ensures
            r == self.stage_at(current_sample, mode),
            self.spec_predicted() is Some && mode == AdaptationMode::Immediate ==> r
                == PhaseStage::Target,
    {
        match self.last_kick_sample {
            None => PhaseStage::Idle,
            Some(last) => match self.next_kick_sample_predicted {
                None => PhaseStage::Hold,
                Some(_) => match mode {
                    AdaptationMode::Immediate => PhaseStage::Target,
                    _ => PhaseStage::Drift {
                        elapsed: if current_sample >= last {
                            current_sample - last
                        } else {
                            0
                        },
                        interval: self.inter_kick_interval,
                    },
                },
            },
        }
    }

    /// Records a kick at `kick_sample`. When an earlier kick is known, the
    /// interval since it joins the recent intervals (the oldest leaves beyond
    /// eight), the interval becomes their median and the next kick is
    /// predicted one interval later (saturating at the largest sample index).
    pub fn on_kick(&mut self, kick_sample: usize)
        requires
            old(self).wf(),
        ensures
            final(self).wf(),
            final(self).spec_last_kick() == Some(kick_sample),
            final(self).spec_since_last_kick() == 0,
            match old(self).spec_last_kick() {
                None => {
                    &&& final(self).spec_intervals() == old(self).spec_intervals()
                    &&& final(self).spec_interval() == old(self).spec_interval()
                    &&& final(self).spec_predicted() == old(self).spec_predicted()
                },
                Some(last) => {
                    &&& final(self).spec_intervals() == bounded_push(
                        old(self).spec_intervals(),
                        saturating_sub(kick_sample, last),
                        MAX_RECENT_INTERVALS as nat,
                    )
                    &&& final(self).spec_interval() == median(final(self).spec_intervals())
                    &&& final(self).spec_predicted() == Some(
                        saturating_add(kick_sample, final(self).spec_interval()),
                    )
                },
            },
    {
        if let Some(last) = self.last_kick_sample {
            let interval = if kick_sample >= last {
                kick_sample - last
            } else {
                0
            };
            self.recent_intervals.push(interval);
            let intervals = self.recent_intervals.to_vec();
            let m = median_of(&intervals);
            self.inter_kick_interval = m;
            self.next_kick_sample_predicted = Some(
                if kick_sample <= usize::MAX - m {
                    kick_sample + m
                } else {
                    usize::MAX
                },
            );
        }
        self.last_kick_sample = Some(kick_sample);
        self.samples_since_last_kick = 0;
    }

    /// Counts one more sample since the last kick (saturating). Once more
    /// than `timeout_samples` have passed, returns how many samples lie past
    /// the timeout, from which the caller fades the rotation out.
    pub fn update_sample_counter(&mut self, timeout_samples: usize) -> (r: Option<usize>)
        requires
            old(self).wf(),
        ensures
            final(self).wf(),
            final(self).spec_since_last_kick() == saturating_add(old(self).spec_since_last_kick(), 1),
            r == (if final(self).spec_since_last_kick() > timeout_samples {
                Some((final(self).spec_since_last_kick() - timeout_samples) as usize)
            } else {
                None::<usize>
            }),
            final(self).spec_last_kick() == old(self).spec_last_kick(),
            final(self).spec_predicted() == old(self).spec_predicted(),
            final(self).spec_interval() == old(self).spec_interval(),
            final(self).spec_intervals() == old(self).spec_intervals(),
    {
        if self.samples_since_last_kick < usize::MAX {
            self.samples_since_last_kick = self.samples_since_last_kick + 1;
        }
        if self.samples_since_last_kick > timeout_samples {
            Some(self.samples_since_last_kick - timeout_samples)
        } else {
            None
        }
    }

    /// Drops the next-kick prediction, as when a fade-out has completed.
    pub fn clear_prediction(&mut self)
        requires
            old(self).wf(),
        ensures
            final(self).wf(),
            final(self).spec_predicted() is None,
            final(self).spec_last_kick() == old(self).spec_last_kick(),
            final(self).spec_interval() == old(self).spec_interval(),
            final(self).spec_intervals() == old(self).spec_intervals(),
            final(self).spec_since_last_kick() == old(self).spec_since_last_kick(),
    {
        self.next_kick_sample_predicted = None;
    }

    /// Returns to the initial state: no kick, no prediction, no intervals,
    /// the default interval.
    pub fn reset(&mut self)
        requires
            old(self).wf(),
        ensures
            final(self).wf(),
            final(self).spec_last_kick() is None,
            final(self).spec_predicted() is None,
            final(self).spec_intervals() == Seq::<usize>::empty(),
            final(self).spec_since_last_kick() == 0,
            final(self).spec_interval() == DEFAULT_INTERVAL_SAMPLES,
    {
        self.inter_kick_interval = DEFAULT_INTERVAL_SAMPLES;
        self.last_kick_sample = None;
        self.next_kick_sample_predicted = None;
        self.recent_intervals.clear();
        self.samples_since_last_kick = 0;
    }

    pub fn last_kick_sample(&self) -> (r: Option<usize>)
        ensures
            r == self.spec_last_kick(),
    {
        self.last_kick_sample
    }

    pub fn next_kick_predicted(&self) -> (r: Option<usize>)
        ensures
            r == self.spec_predicted(),
    {
        self.next_kick_sample_predicted
    }

    /// The interval the drift runs over, in samples.
    pub fn inter_kick_interval(&self) -> (r: usize)
        ensures
            r == self.spec_interval(),
    {
        self.inter_kick_interval
    }

    pub fn samples_since_last_kick(&self) -> (r: usize)
        ensures
            r == self.spec_since_last_kick(),
    {
        self.samples_since_last_kick
    }

    /// The recent inter-kick intervals, oldest first.
    pub fn recent_intervals(&self) -> (r: Vec<usize>)
        ensures
            r@ == self.spec_intervals(),
    {
        self.recent_intervals.to_vec()
    }
}

} // verus!
