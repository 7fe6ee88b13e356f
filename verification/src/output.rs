//! The interleaved output buffer the renderer writes into: one sample per
//! channel per frame, frame after frame.
use vstd::prelude::*;

verus! {

/// Every sample is a value that `T::default()` returns.
pub open spec fn all_default<T: Default>(s: Seq<T>) -> bool {
    forall|i: int| 0 <= i < s.len() ==> call_ensures(T::default, (), #[trigger] s[i])
}

/// An interleaved buffer of `buffer_length` frames of `channels` samples each.
pub struct PluginOutput<T> {
    buffer: Vec<T>,
    buffer_length: usize,
    channels: usize,
}

impl<T> View for PluginOutput<T> {
    type V = Seq<T>;

    /// The samples, frame after frame.
    closed spec fn view(&self) -> Seq<T> {
        self.buffer@
    }
}

impl<T> PluginOutput<T> {
    /// The buffer holds one sample per channel per frame.
    pub closed spec fn wf(self) -> bool {
        self.buffer@.len() == self.channels * self.buffer_length
    }

    /// The number of channels.
    pub closed spec fn spec_channels(self) -> usize {
        self.channels
    }

    /// The number of frames.
    pub closed spec fn spec_buffer_length(self) -> usize {
        self.buffer_length
    }

    /// A well-formed buffer holds one sample per channel per frame.
    pub proof fn lemma_len(self)
        requires
            self.wf(),
        ensures
            self@.len() == self.spec_channels() * self.spec_buffer_length(),
    {
    }

    /// The position of a sample in the buffer.
    pub open spec fn spec_index(self, frame: int, channel: int) -> int {
        frame * self.spec_channels() + channel
    }

    /// The position of the sample of `channel` in frame `frame`.
    pub fn index(&self, frame: usize, channel: usize) -> (i: usize)
        requires
            frame * self.spec_channels() + channel <= usize::MAX,
        ensures
            i == self.spec_index(frame as int, channel as int),
    {
        (frame * self.channels) + channel
    }

    /// The number of output channels.
    pub fn channel_count(&self) -> (n: usize)
        ensures
            n == self.spec_channels(),
    {
        self.channels
    }

    /// How many frames the buffer can take.
    pub fn frames_available(&self) -> (n: Option<usize>)
        ensures
            n == Some(self.spec_buffer_length()),
    {
        Some(self.buffer_length)
    }

    /// Moving on after rendering needs nothing from this buffer.
    pub fn advance(&mut self, _frames: usize)
        ensures
            *final(self) == *old(self),
    {
    }
}

impl<T: Copy + Default> PluginOutput<T> {
    /// A buffer of `buffer_length` frames of `channels` samples, every one of them
    /// one and the same value returned by `T::default()`.
    pub fn new(channels: usize, buffer_length: usize) -> (o: Self)
        requires
            channels * buffer_length <= usize::MAX,
        ensures
            o.wf(),
            o.spec_channels() == channels,
            o.spec_buffer_length() == buffer_length,
            o@.len() == channels * buffer_length,
            all_default(o@),
            forall|i: int, j: int| 0 <= i < o@.len() && 0 <= j < o@.len() ==> o@[i] == o@[j],
    {
        let fill = T::default();
        let n = channels * buffer_length;
        let mut buffer: Vec<T> = Vec::new();
        let mut i: usize = 0;
        while i < n
            invariant
                i <= n,
                buffer@.len() == i,
                forall|k: int| 0 <= k < i ==> buffer@[k] == fill,
            decreases n - i,
        {
            buffer.push(fill);
            i = i + 1;
        }
        PluginOutput { buffer, buffer_length, channels }
    }

    /// The sample of `channel` in frame `frame`.
    pub fn get_sample(&self, frame: usize, channel: usize) -> (s: T)
        requires
            self.wf(),
            0 <= self.spec_index(frame as int, channel as int) < self@.len(),
        ensures
            s == self@[self.spec_index(frame as int, channel as int)],
    {
        proof {
            // A vector's length fits in `usize`, so the in-bounds index does too.
            assert(self.buffer@.len() == self.buffer.len());
        }
        let index = self.index(frame, channel);
        self.buffer[index]
    }

    /// Puts `value` as the sample of `channel` in frame `frame`.
    pub fn store_sample(&mut self, channel: usize, frame: usize, value: T)
        requires
            old(self).wf(),
            0 <= old(self).spec_index(frame as int, channel as int) < old(self)@.len(),
        ensures
            final(self).wf(),
            final(self)@ == old(self)@.update(old(self).spec_index(frame as int, channel as int), value),
            final(self).spec_channels() == old(self).spec_channels(),
            final(self).spec_buffer_length() == old(self).spec_buffer_length(),
    {
        proof {
            // A vector's length fits in `usize`, so the in-bounds index does too.
            assert(self.buffer@.len() == self.buffer.len());
        }
        let index = self.index(frame, channel);
        self.buffer.set(index, value);
    }

    /// Sets every sample back to one and the same value returned by `T::default()`.
    pub fn clear(&mut self)
        requires
            old(self).wf(),
        ensures
            final(self).wf(),
            final(self)@.len() == old(self)@.len(),
            final(self).spec_channels() == old(self).spec_channels(),
            final(self).spec_buffer_length() == old(self).spec_buffer_length(),
            all_default(final(self)@),
            forall|i: int, j: int|
                0 <= i < final(self)@.len() && 0 <= j < final(self)@.len() ==> final(self)@[i]
                    == final(self)@[j],
    {
        let fill = T::default();
        let n = self.buffer.len();
        let mut i: usize = 0;
        while i < n
            invariant
                i <= n,
                n == self.buffer@.len(),
                self.buffer@.len() == self.channels * self.buffer_length,
                self.channels == old(self).channels,
                self.buffer_length == old(self).buffer_length,
                forall|k: int| 0 <= k < i ==> self.buffer@[k] == fill,
            decreases n - i,
        {
            self.buffer.set(i, fill);
            i = i + 1;
        }
    }
}

/// Different (frame, channel) pairs inside the buffer's shape address different samples.
pub proof fn lemma_index_injective(channels: int, f1: int, c1: int, f2: int, c2: int)
    requires
        0 <= c1 < channels,
        0 <= c2 < channels,
        0 <= f1,
        0 <= f2,
        f1 * channels + c1 == f2 * channels + c2,
    ensures
        f1 == f2 && c1 == c2,
{
    if f1 < f2 {
        assert(f1 * channels + channels <= f2 * channels) by (nonlinear_arith)
            requires
                f1 < f2,
                channels > 0,
        ;
    } else if f2 < f1 {
        assert(f2 * channels + channels <= f1 * channels) by (nonlinear_arith)
            requires
                f2 < f1,
                channels > 0,
        ;
    }
}

/// Clearing a cleared buffer changes nothing: two cleared buffers of the same
/// shape are equal whenever `T::default()` always returns the same value (as it
/// does for the numeric types).
pub proof fn lemma_clear_idempotent<T: Default>(once: Seq<T>, twice: Seq<T>)
    requires
        forall|a: T, b: T| call_ensures(T::default, (), a) && call_ensures(T::default, (), b) ==> a == b,
        all_default(once),
        all_default(twice),
        once.len() == twice.len(),
    ensures
        once == twice,
{
    assert forall|i: int| 0 <= i < once.len() implies once[i] == twice[i] by {
        assert(call_ensures(T::default, (), once[i]));
        assert(call_ensures(T::default, (), twice[i]));
    }
    assert(once =~= twice);
}

} // verus!
