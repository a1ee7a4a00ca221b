//! Per-channel circular lookahead buffer shared by every channel's write position.
use vstd::prelude::*;
use vstd::arithmetic::div_mod::{lemma_add_mod_noop_right, lemma_mod_add_multiples_vanish, lemma_small_mod};

verus! {

/// The abstract state of a [`LookaheadBuffer`]: one slot sequence per channel,
/// the common slot count and the slot the next sample is written to.
pub struct RingState<T> {
    pub channels: Seq<Seq<T>>,
    pub size: nat,
    pub write_pos: nat,
}

impl<T> RingState<T> {
    pub open spec fn wf(self) -> bool {
        &&& self.size > 0
        &&& self.write_pos < self.size
        &&& forall|ch: int| 0 <= ch < self.channels.len() ==> #[trigger] self.channels[ch].len() == self.size
    }

    /// The slot that lies `delay` samples before the write position.
    pub open spec fn slot(self, delay: int) -> int {
        (self.write_pos + self.size - delay) % (self.size as int)
    }

    /// The value stored `delay` samples before the write position of `ch`.
    pub open spec fn read(self, ch: int, delay: int) -> T {
        self.channels[ch][self.slot(delay)]
    }

    /// The state after storing `value` at the write position of `ch`.
    pub open spec fn write(self, ch: int, value: T) -> Self {
        RingState {
            channels: self.channels.update(ch, self.channels[ch].update(self.write_pos as int, value)),
            ..self
        }
    }

    /// The state after moving the write position one slot forward.
    pub open spec fn advance(self) -> Self {
        RingState { write_pos: (self.write_pos + 1) % self.size, ..self }
    }

    /// The state after writing each of `values` into `ch`, one slot at a time,
    /// advancing after each.
    pub open spec fn feed(self, ch: int, values: Seq<T>) -> Self
        decreases values.len(),
    {
        if values.len() == 0 {
            self
        } else {
            self.feed(ch, values.drop_last()).write(ch, values.last()).advance()
        }
    }

    /// The slot `delay` positions back, written without the modulus.
    pub proof fn lemma_slot(self, delay: int)
        requires
            self.wf(),
            0 <= delay <= self.size,
        ensures
            self.slot(delay) == if delay <= self.write_pos {
                self.write_pos - delay
            } else {
                self.write_pos + self.size - delay
            },
    {
        let size = self.size as int;
        let wp = self.write_pos as int;
        if delay <= wp {
            lemma_mod_add_multiples_vanish(wp - delay, size);
            lemma_small_mod((wp - delay) as nat, size as nat);
        } else {
            lemma_small_mod((wp + size - delay) as nat, size as nat);
        }
    }

    /// Feeding values keeps the shape of the state.
    pub proof fn lemma_feed_shape(self, ch: int, values: Seq<T>)
        requires
            self.wf(),
            0 <= ch < self.channels.len(),
        ensures
            self.feed(ch, values).wf(),
            self.feed(ch, values).size == self.size,
            self.feed(ch, values).channels.len() == self.channels.len(),
            self.feed(ch, values).write_pos == (self.write_pos + values.len()) as int % (self.size as int),
        decreases values.len(),
    {
        if values.len() == 0 {
            lemma_small_mod(self.write_pos, self.size);
        } else {
            let prev = values.drop_last();
            self.lemma_feed_shape(ch, prev);
            let before = self.feed(ch, prev);
            let written = before.write(ch, values.last());
            assert forall|c: int| 0 <= c < written.channels.len() implies #[trigger] written.channels[c].len()
                == written.size by {
                assert(before.channels[c].len() == before.size);
            }
            lemma_add_mod_noop_right(1, (self.write_pos + prev.len()) as int, self.size as int);
        }
    }

    /// The last `min(n, size)` values of `ch`, oldest first.
    pub open spec fn recent(self, ch: int, n: nat) -> Seq<T> {
        let count = if n < self.size { n } else { self.size };
        Seq::new(count, |i: int| self.read(ch, count - i))
    }
}

/// Writing a run of values into one channel and reading it back: the value
/// `delay` samples behind the write position is the one written `delay`
/// samples ago, for every delay from 1 up to the buffer size that does not
/// reach before the first written value. A delay of 0 reads the same slot as
/// a delay of the full buffer size.
pub proof fn lemma_round_trip<T>(state: RingState<T>, ch: int, values: Seq<T>, delay: int)
    requires
        state.wf(),
        0 <= ch < state.channels.len(),
        0 <= delay <= state.size,
        (if delay == 0 { state.size as int } else { delay }) <= values.len(),
    ensures
        state.feed(ch, values).read(ch, delay) == values[values.len() - (if delay == 0 {
            state.size as int
        } else {
            delay
        })],
    decreases values.len(),
{
    let back = if delay == 0 { state.size as int } else { delay };
    let prev = values.drop_last();
    state.lemma_feed_shape(ch, prev);
    state.lemma_feed_shape(ch, values);
    let before = state.feed(ch, prev);
    let after = state.feed(ch, values);
    assert(after == before.write(ch, values.last()).advance());
    if before.write_pos + 1 < state.size {
        lemma_small_mod((before.write_pos + 1) as nat, state.size);
    } else {
        vstd::arithmetic::div_mod::lemma_mod_self_0(state.size as int);
    }
    after.lemma_slot(delay);
    after.lemma_slot(back);
    if back == 1 {
        assert(after.slot(delay) == before.write_pos);
    } else {
        before.lemma_slot(back - 1);
        lemma_round_trip(state, ch, prev, back - 1);
        assert(after.slot(delay) == before.slot(back - 1));
    }
}

/// A fixed-capacity circular buffer with one row per channel. Every channel
/// is written at the same position, which moves forward once per sample.
pub struct LookaheadBuffer<T> {
    buffers: Vec<Vec<T>>,
    buffer_size: usize,
    write_pos: usize,
    silence: T,
}

impl<T> View for LookaheadBuffer<T> {
    type V = RingState<T>;

    closed spec fn view(&self) -> RingState<T> {
        RingState {
            channels: Seq::new(self.buffers@.len(), |ch: int| self.buffers@[ch]@),
            size: self.buffer_size as nat,
            write_pos: self.write_pos as nat,
        }
    }
}

impl<T: Copy + Default> LookaheadBuffer<T> {
    /// A buffer of `num_channels` rows of `buffer_size` slots, every slot
    /// holding `T`'s default value, written from slot 0.
    pub fn new(num_channels: usize, buffer_size: usize) -> (r: Self)
        requires
            buffer_size > 0,
        ensures
            r.wf(),
            r@.wf(),
            r.num_channels() == num_channels,
            r@.size == buffer_size,
            r@.write_pos == 0,
            r.is_silent(),
            call_ensures(T::default, (), r.spec_silence()),
    {
        let silence = T::default();
        let mut buffers: Vec<Vec<T>> = Vec::with_capacity(num_channels);
        for ch in 0..num_channels
            invariant
                buffers@.len() == ch,
                forall|c: int, i: int|
                    0 <= c < ch && 0 <= i < buffer_size ==> #[trigger] buffers@[c]@[i] == silence,
                forall|c: int| 0 <= c < ch ==> #[trigger] buffers@[c]@.len() == buffer_size,
        {
            let mut row: Vec<T> = Vec::with_capacity(buffer_size);
            for i in 0..buffer_size
                invariant
                    row@.len() == i,
                    forall|j: int| 0 <= j < i ==> #[trigger] row@[j] == silence,
            {
                row.push(silence);
            }
            buffers.push(row);
        }
        let r = LookaheadBuffer { buffers, buffer_size, write_pos: 0, silence };
        assert forall|ch: int| 0 <= ch < r@.channels.len() implies #[trigger] r@.channels[ch].len() == r@.size by {
            assert(r.buffers@[ch]@.len() == buffer_size);
        }
        r
    }
}

impl<T: Copy> LookaheadBuffer<T> {
    /// Fills every slot of every channel with the construction-time silence
    /// value and moves the write position back to slot 0.
    pub fn reset(&mut self)
        requires
            old(self).wf(),
        ensures
            final(self).wf(),
            final(self)@.wf(),
            final(self).is_silent(),
            final(self)@.write_pos == 0,
            final(self)@.size == old(self)@.size,
            final(self).num_channels() == old(self).num_channels(),
            final(self).spec_silence() == old(self).spec_silence(),
    {
        let n = self.buffers.len();
        let size = self.buffer_size;
        for ch in 0..n
            invariant
                self.wf(),
                n == self.buffers@.len(),
                size == self.buffer_size,
                self.silence == old(self).silence,
                self.buffer_size == old(self).buffer_size,
                self.write_pos == old(self).write_pos,
                forall|c: int, i: int|
                    0 <= c < ch && 0 <= i < size ==> #[trigger] self.buffers@[c]@[i] == self.silence,
        {
            for i in 0..size
                invariant
                    self.wf(),
                    ch < n,
                    n == self.buffers@.len(),
                    size == self.buffer_size,
                    self.silence == old(self).silence,
                    self.buffer_size == old(self).buffer_size,
                    self.write_pos == old(self).write_pos,
                    forall|c: int, j: int|
                        0 <= c < ch && 0 <= j < size ==> #[trigger] self.buffers@[c]@[j] == self.silence,
                    forall|j: int| 0 <= j < i ==> #[trigger] self.buffers@[ch as int]@[j] == self.silence,
            {
                let silence = self.silence;
                self.buffers[ch][i] = silence;
                assert(self.buffers@[ch as int]@.len() == size);
            }
        }
        self.write_pos = 0;
    }


    pub closed spec fn wf(&self) -> bool {
        &&& self@.wf()
        &&& forall|ch: int| 0 <= ch < self.buffers@.len() ==> #[trigger] self.buffers@[ch]@.len() == self.buffer_size
        &&& self.buffer_size > 0
        &&& self.write_pos < self.buffer_size
    }

    /// The value every slot holds after construction or reset.
    pub closed spec fn spec_silence(&self) -> T {
        self.silence
    }

    pub open spec fn num_channels(&self) -> nat {
        self@.channels.len()
    }

    /// True when every slot of every channel holds `silence`.
    pub open spec fn is_silent(&self) -> bool {
        forall|ch: int, i: int|
            0 <= ch < self@.channels.len() && 0 <= i < self@.size ==> #[trigger] self@.channels[ch][i]
                == self.spec_silence()
    }

    /// Writes `sample` into `channel` at the current write position.
    pub fn write_sample(&mut self, channel: usize, sample: T)
        requires
            old(self).wf(),
            channel < old(self).num_channels(),
        ensures
            final(self).wf(),
            final(self)@.wf(),
            final(self)@ == old(self)@.write(channel as int, sample),
            final(self).spec_silence() == old(self).spec_silence(),
    {
        let wp = self.write_pos;
        self.buffers[channel][wp] = sample;
        assert(self@.channels =~= old(self)@.write(channel as int, sample).channels);
    }

    /// Moves every channel's write position one slot forward, wrapping at the end.
    pub fn advance_write_pos(&mut self)
        requires
            old(self).wf(),
        ensures
            final(self).wf(),
            final(self)@.wf(),
            final(self)@ == old(self)@.advance(),
            final(self).spec_silence() == old(self).spec_silence(),
    {
        self.write_pos = (self.write_pos + 1) % self.buffer_size;
        assert(self@.channels =~= old(self)@.channels);
    }

    /// The value written `delay_samples` samples before the write position;
    /// a delay of `0` reads the slot about to be overwritten, which is the
    /// oldest sample held.
    pub fn read_sample(&self, channel: usize, delay_samples: usize) -> (r: T)
        requires
            self.wf(),
            channel < self.num_channels(),
            delay_samples <= self@.size,
        ensures
            r == self@.read(channel as int, delay_samples as int),
    {
        let pos = self.slot_index(delay_samples);
        self.buffers[channel][pos]
    }

    /// Replaces the contents of `output` with the last `min(lookback_samples,
    /// buffer size)` samples of `channel`, oldest first, reusing its allocation.
    pub fn get_recent_samples_into(&self, channel: usize, lookback_samples: usize, output: &mut Vec<T>)
        requires
            self.wf(),
            channel < self.num_channels(),
        ensures
            final(output)@ == self@.recent(channel as int, lookback_samples as nat),
    {
        let lookback = if lookback_samples < self.buffer_size {
            lookback_samples
        } else {
            self.buffer_size
        };
        output.clear();
        output.reserve(lookback);
        for i in 0..lookback
            invariant
                self.wf(),
                channel < self.num_channels(),
                lookback <= self.buffer_size,
                lookback == (if lookback_samples < self@.size { lookback_samples as nat } else { self@.size }),
                output@ == self@.recent(channel as int, lookback_samples as nat).subrange(0, i as int),
        {
            let pos = self.slot_index(lookback - i);
            output.push(self.buffers[channel][pos]);
        }
        assert(output@ =~= self@.recent(channel as int, lookback_samples as nat));
    }

    /// The last `min(lookback_samples, buffer size)` samples of `channel`,
    /// oldest first, in a new vector.
    pub fn get_recent_samples(&self, channel: usize, lookback_samples: usize) -> (r: Vec<T>)
        requires
            self.wf(),
            channel < self.num_channels(),
        ensures
            r@ == self@.recent(channel as int, lookback_samples as nat),
    {
        let mut result: Vec<T> = Vec::new();
        self.get_recent_samples_into(channel, lookback_samples, &mut result);
        result
    }

    /// The slot `delay` positions behind the write position.
    fn slot_index(&self, delay: usize) -> (r: usize)
        requires
            self.wf(),
            delay <= self.buffer_size,
        ensures
            r == self@.slot(delay as int),
            r < self.buffer_size,
    {
        let size = self.buffer_size;
        let wp = self.write_pos;
        if delay <= wp {
            proof {
                lemma_mod_add_multiples_vanish((wp - delay) as int, size as int);
                lemma_small_mod((wp - delay) as nat, size as nat);
            }
            wp - delay
        } else {
            proof {
                lemma_small_mod((wp + size - delay) as nat, size as nat);
            }
            wp + (size - delay)
        }
    }
}

} // verus!
