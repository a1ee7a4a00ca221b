//! Fixed sizes of the per-sample pipeline and the throttle that paces
//! snapshot publication to the display thread.
use vstd::prelude::*;

verus! {

/// Lookahead ring length in samples (about 85 ms at 48 kHz).
pub const LOOKAHEAD_SIZE: usize = 4096;

/// Samples of the target signal analysed on each kick (about 42 ms at 48 kHz).
pub const BASS_LOOKBACK_SIZE: usize = 2048;

/// Largest number of independently aligned target tracks.
pub const MAX_BASS_TRACKS: usize = 8;

/// Samples between two published display snapshots.
pub const PUBLISH_INTERVAL_SAMPLES: usize = 512;

/// The absolute index of the first sample of the analysis window that ends
/// at `current_sample` (0 while fewer samples than the window have passed).
pub fn analysis_window_start(current_sample: usize) -> (r: usize)
    ensures
        r == (if current_sample >= BASS_LOOKBACK_SIZE {
            (current_sample - BASS_LOOKBACK_SIZE) as usize
        } else {
            0
        }),
{
    if current_sample >= BASS_LOOKBACK_SIZE {
        current_sample - BASS_LOOKBACK_SIZE
    } else {
        0
    }
}

/// Counts processed samples and signals every `interval`-th one.
pub struct PublishThrottle {
    samples_since_publish: usize,
    interval: usize,
}

impl PublishThrottle {
    pub closed spec fn spec_count(&self) -> nat {
        self.samples_since_publish as nat
    }

    pub closed spec fn spec_interval(&self) -> nat {
        self.interval as nat
    }

    pub closed spec fn wf(&self) -> bool {
        &&& self.interval > 0
        &&& self.samples_since_publish < self.interval
    }

    /// A throttle that signals once every `interval` samples.
    pub fn new(interval: usize) -> (r: Self)
        requires
            interval > 0,
        ensures
            r.wf(),
            r.spec_count() == 0,
            r.spec_interval() == interval,
    {
        PublishThrottle { samples_since_publish: 0, interval }
    }

    /// Counts one sample; returns true, and starts counting again from zero,
    /// when `interval` samples have been counted since the last signal.
    pub fn tick(&mut self) -> (r: bool)
        requires
            old(self).wf(),
        ensures
            final(self).wf(),
            final(self).spec_interval() == old(self).spec_interval(),
            r == (old(self).spec_count() + 1 == old(self).spec_interval()),
            final(self).spec_count() == (if r {
                0
            } else {
                old(self).spec_count() + 1
            }),
    {
        self.samples_since_publish = self.samples_since_publish + 1;
        if self.samples_since_publish >= self.interval {
            self.samples_since_publish = 0;
            true
        } else {
            false
        }
    }
}

} // verus!
