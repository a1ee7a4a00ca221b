//! Debounce of the kick detector: a rising edge fires only when enough
//! samples have passed since the previous firing.
use vstd::prelude::*;
use crate::phase_controller::saturating_sub;

verus! {

/// The number of recent peak levels the adaptive threshold is based on.
pub const MAX_PEAK_LEVELS: usize = 16;

/// Decides which rising edges of the detection envelope become kicks.
pub struct KickGate {
    last_peak_sample: usize,
    min_kick_interval_samples: usize,
}

impl KickGate {
    pub closed spec fn spec_last_peak(&self) -> usize {
        self.last_peak_sample
    }

    pub closed spec fn spec_min_interval(&self) -> usize {
        self.min_kick_interval_samples
    }

    /// Whether a rising edge at `current_sample` fires: at least the minimum
    /// interval must separate it from the previous firing.
    pub open spec fn fires(&self, rising_edge: bool, current_sample: usize) -> bool {
        rising_edge && saturating_sub(current_sample, self.spec_last_peak()) >= self.spec_min_interval()
    }

    /// A gate that has not fired, with the given minimum interval.
    pub fn new(min_kick_interval_samples: usize) -> (r: Self)
        ensures
            r.spec_last_peak() == 0,
            r.spec_min_interval() == min_kick_interval_samples,
    {
        KickGate { last_peak_sample: 0, min_kick_interval_samples }
    }

    /// Returns whether the envelope's rising edge (if any) at `current_sample`
    /// is a kick, and records the firing sample when it is.
    pub fn accept_edge(&mut self, rising_edge: bool, current_sample: usize) -> (r: bool)
        ensures
            r == old(self).fires(rising_edge, current_sample),
            final(self).spec_last_peak() == (if r {
                current_sample
            } else {
                old(self).spec_last_peak()
            }),
            final(self).spec_min_interval() == old(self).spec_min_interval(),
    {
        let time_since_last = if current_sample >= self.last_peak_sample {
            current_sample - self.last_peak_sample
        } else {
            0
        };
        if rising_edge && time_since_last >= self.min_kick_interval_samples {
            self.last_peak_sample = current_sample;
            true
        } else {
            false
        }
    }

    pub fn set_min_interval_samples(&mut self, samples: usize)
        ensures
            final(self).spec_min_interval() == samples,
            final(self).spec_last_peak() == old(self).spec_last_peak(),
    {
        self.min_kick_interval_samples = samples;
    }

    pub fn min_interval_samples(&self) -> (r: usize)
        ensures
            r == self.spec_min_interval(),
    {
        self.min_kick_interval_samples
    }

    pub fn last_peak_sample(&self) -> (r: usize)
        ensures
            r == self.spec_last_peak(),
    {
        self.last_peak_sample
    }

    /// Forgets the last firing: the next one is measured from sample 0.
    pub fn reset(&mut self)
        ensures
            final(self).spec_last_peak() == 0,
            final(self).spec_min_interval() == old(self).spec_min_interval(),
    {
        self.last_peak_sample = 0;
    }
}

} // verus!
