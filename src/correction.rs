//! Index and state logic of the frequency-domain phase correction
//! algorithms: algorithm selection, the banded cascade's latency, and the
//! time-delay corrector's delay line.
use vstd::prelude::*;

verus! {

/// The available correction algorithms.
#[derive(Clone, Copy, Debug, PartialEq, Eq, Structural)]
pub enum AlgorithmType {
    /// Constant-delay correction for linear phase errors.
    TimeDelay,
    /// All-pass cascade for frequency-dependent correction.
    AllPassCascade,
}

impl Default for AlgorithmType {
    fn default() -> (r: Self)
        ensures
            r == AlgorithmType::TimeDelay,
    {
        AlgorithmType::TimeDelay
    }
}

/// Number of logarithmically spaced bands of the all-pass cascade.
pub const NUM_BANDS: usize = 12;

/// The group-delay budget the all-pass cascade reports: two samples per band.
pub fn allpass_latency_samples() -> (r: u32)
    ensures
        r == 2 * NUM_BANDS,
{
    (NUM_BANDS * 2) as u32
}

/// The inclusive bin range a band averages, given its nominal edges: `None`
/// for a band whose end does not lie past its start or that starts beyond
/// the last bin (its target phase is zero); otherwise the range from the
/// start to the end, cut at the last bin.
pub fn band_bins(start_bin: usize, end_bin: usize, num_bins: usize) -> (r: Option<(usize, usize)>)
    ensures
        r == (if end_bin <= start_bin || start_bin >= num_bins {
            None::<(usize, usize)>
        } else {
            Some((start_bin, if end_bin < num_bins { end_bin } else { (num_bins - 1) as usize }))
        }),
{
    if end_bin <= start_bin || start_bin >= num_bins {
        None
    } else if end_bin < num_bins {
        Some((start_bin, end_bin))
    } else {
        Some((start_bin, num_bins - 1))
    }
}

/// Slots the delay line is given beyond the largest block: room for the
/// largest delay plus the interpolation kernel.
pub const DELAY_HEADROOM: usize = 1024;

/// Slots an interpolated read needs beyond the integer delay.
pub const KERNEL_SLOTS: usize = 4;

/// The four slots around the read position `delay` behind `pos` in a ring
/// of `len` slots: one before, the read slot, and two after.
pub open spec fn tap_slots(pos: int, delay: int, len: int) -> Seq<int> {
    let read = if pos >= delay { pos - delay } else { len + pos - delay };
    seq![
        if read == 0 { len - 1 } else { read - 1 },
        read,
        if read + 1 >= len { 0 } else { read + 1 },
        if read + 2 >= len { read + 2 - len } else { read + 2 },
    ]
}

/// The ring buffer of the time-delay corrector. Each sample is written at
/// the current position, and the four samples around the delayed read
/// position are handed back for interpolation.
pub struct DelayLine<T> {
    buffer: Vec<T>,
    position: usize,
    silence: T,
}

impl<T: Copy> DelayLine<T> {
    pub closed spec fn spec_buffer(&self) -> Seq<T> {
        self.buffer@
    }

    pub closed spec fn spec_position(&self) -> nat {
        self.position as nat
    }

    /// The value new slots and cleared slots hold.
    pub closed spec fn spec_silence(&self) -> T {
        self.silence
    }

    pub closed spec fn wf(&self) -> bool {
        self.position < self.buffer@.len() || (self.position == 0 && self.buffer@.len() == 0)
    }

    /// An empty line that fills new slots with `silence`.
    pub fn new(silence: T) -> (r: Self)
        ensures
            r.wf(),
            r.spec_buffer() == Seq::<T>::empty(),
            r.spec_position() == 0,
            r.spec_silence() == silence,
    {
        DelayLine { buffer: Vec::new(), position: 0, silence }
    }

    pub fn len(&self) -> (r: usize)
        ensures
            r == self.spec_buffer().len(),
    {
        self.buffer.len()
    }

    /// Grows the line to at least `required` slots, filling new slots with
    /// silence; a longer line is left as it is.
    pub fn ensure_len(&mut self, required: usize)
        requires
            old(self).wf(),
        ensures
            final(self).wf(),
            final(self).spec_position() == old(self).spec_position(),
            final(self).spec_silence() == old(self).spec_silence(),
            old(self).spec_buffer().len() >= required ==> final(self).spec_buffer() == old(self).spec_buffer(),
            old(self).spec_buffer().len() < required ==> final(self).spec_buffer() == old(self).spec_buffer()
                + Seq::new((required - old(self).spec_buffer().len()) as nat, |i: int| old(self).spec_silence()),
    {
        let ghost start = self.buffer@;
        let n = self.buffer.len();
        if n < required {
            let mut i = n;
            while i < required
                invariant
                    n <= i <= required,
                    self.buffer@.len() == i,
                    self.position == old(self).position,
                    self.silence == old(self).silence,
                    self.buffer@ == start + Seq::new((i - n) as nat, |k: int| old(self).silence),
                    start == old(self).buffer@,
                    n == start.len(),
                decreases required - i,
            {
                let silence = self.silence;
                self.buffer.push(silence);
                i = i + 1;
                assert(self.buffer@ =~= start + Seq::new((i - n) as nat, |k: int| old(self).silence));
            }
        }
    }

    /// Sizes the line to exactly `DELAY_HEADROOM + max_block_size` slots,
    /// keeping the slots that remain and filling new ones with silence, and
    /// moves the position back to the first slot.
    pub fn initialize(&mut self, max_block_size: usize)
        requires
            old(self).wf(),
            max_block_size <= usize::MAX - DELAY_HEADROOM,
        ensures
            final(self).wf(),
            final(self).spec_position() == 0,
            final(self).spec_silence() == old(self).spec_silence(),
            final(self).spec_buffer().len() == DELAY_HEADROOM + max_block_size,
            forall|i: int|
                0 <= i < DELAY_HEADROOM + max_block_size ==> #[trigger] final(self).spec_buffer()[i] == (if i
                    < old(self).spec_buffer().len() {
                    old(self).spec_buffer()[i]
                } else {
                    old(self).spec_silence()
                }),
    {
        let size = DELAY_HEADROOM + max_block_size;
        self.position = 0;
        if self.buffer.len() > size {
            self.buffer.truncate(size);
        } else {
            self.ensure_len(size);
        }
    }

    /// Writes `sample` at the current position, returns the four slots
    /// around the read position `delay` samples back (after the write), and
    /// moves the position one slot forward, wrapping at the end.
    pub fn push_and_taps(&mut self, sample: T, delay: usize) -> (r: [T; 4])
        requires
            old(self).wf(),
            delay + KERNEL_SLOTS <= old(self).spec_buffer().len(),
        ensures
            final(self).wf(),
            final(self).spec_silence() == old(self).spec_silence(),
            final(self).spec_buffer() == old(self).spec_buffer().update(old(self).spec_position() as int, sample),
            final(self).spec_position() == (old(self).spec_position() + 1) as int % (old(self).spec_buffer().len() as int),
            r@ == tap_slots(
                old(self).spec_position() as int,
                delay as int,
                old(self).spec_buffer().len() as int,
            ).map_values(|slot: int| final(self).spec_buffer()[slot]),
    {
        let len = self.buffer.len();
        let pos = self.position;
        self.buffer.set(pos, sample);
        let read = if pos >= delay {
            pos - delay
        } else {
            len - (delay - pos)
        };
        let i0 = if read == 0 {
            len - 1
        } else {
            read - 1
        };
        let i1 = read;
        let i2 = if read >= len - 1 {
            0
        } else {
            read + 1
        };
        let i3 = if read >= len - 2 {
            read - (len - 2)
        } else {
            read + 2
        };
        let r = [self.buffer[i0], self.buffer[i1], self.buffer[i2], self.buffer[i3]];
        self.position = (pos + 1) % len;
        assert(r@ =~= tap_slots(pos as int, delay as int, len as int).map_values(
            |slot: int| self.buffer@[slot],
        ));
        r
    }

    /// Fills every slot with silence and moves the position to the first slot.
    pub fn reset(&mut self)
        requires
            old(self).wf(),
        ensures
            final(self).wf(),
            final(self).spec_position() == 0,
            final(self).spec_silence() == old(self).spec_silence(),
            final(self).spec_buffer() == Seq::new(
                old(self).spec_buffer().len(),
                |i: int| old(self).spec_silence(),
            ),
    {
        let n = self.buffer.len();
        for i in 0..n
            invariant
                n == self.buffer@.len(),
                self.silence == old(self).silence,
                forall|k: int| 0 <= k < i ==> self.buffer@[k] == self.silence,
        {
            let silence = self.silence;
            self.buffer.set(i, silence);
        }
        self.position = 0;
        assert(self.buffer@ =~= Seq::new(n as nat, |i: int| old(self).silence));
    }
}

} // verus!
