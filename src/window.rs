use std::collections::VecDeque;
use vstd::prelude::*;

verus! {

/// Default number of samples a window holds.
pub const WINDOW_SIZE: usize = 1000;

/// The last `n` elements of `s`, or all of `s` when it is shorter.
pub open spec fn keep_last(s: Seq<u32>, n: nat) -> Seq<u32> {
    if s.len() <= n {
        s
    } else {
        s.subrange(s.len() - n, s.len() as int)
    }
}

/// A bounded FIFO buffer of samples. Each sample is held as the bit pattern
/// of a little-endian IEEE-754 single-precision value.
pub struct SignalWindow {
    samples: VecDeque<u32>,
    max_size: usize,
}

impl View for SignalWindow {
    type V = Seq<u32>;

    closed spec fn view(&self) -> Seq<u32> {
        self.samples@
    }
}

impl SignalWindow {
    /// The number of samples the window keeps at most.
    pub closed spec fn capacity(&self) -> nat {
        self.max_size as nat
    }

    pub closed spec fn wf(&self) -> bool {
        self.samples@.len() <= self.max_size
    }

    pub fn new(max_size: usize) -> (w: Self)
        ensures
            w.wf(),
            w@ == Seq::<u32>::empty(),
            w.capacity() == max_size,
    {
        SignalWindow { samples: VecDeque::new(), max_size }
    }

    pub fn max_size(&self) -> (r: usize)
        ensures
            r == self.capacity(),
    {
        self.max_size
    }

    pub fn len(&self) -> (r: usize)
        requires
            self.wf(),
        ensures
            r == self@.len(),
    {
        self.samples.len()
    }

    /// Appends one sample, evicting the oldest one when the window is full.
    pub fn add_sample(&mut self, sample: u32)
        requires
            old(self).wf(),
        ensures
            final(self).wf(),
            final(self).capacity() == old(self).capacity(),
            final(self)@ == keep_last(old(self)@.push(sample), old(self).capacity()),
    {
        if self.max_size == 0 {
            return;
        }
        if self.samples.len() >= self.max_size {
            self.samples.pop_front();
        }
        self.samples.push_back(sample);
        assert(final(self)@ =~= keep_last(old(self)@.push(sample), old(self).capacity()));
    }

    /// Appends the samples one at a time, in order.
    pub fn add_samples(&mut self, samples: &[u32])
        requires
            old(self).wf(),
        ensures
            final(self).wf(),
            final(self).capacity() == old(self).capacity(),
            final(self)@ == keep_last(old(self)@ + samples@, old(self).capacity()),
    {
        let n = samples.len();
        let mut i: usize = 0;
        while i < n
            invariant
                self.wf(),
                n == samples@.len(),
                i <= n,
                self.capacity() == old(self).capacity(),
                self@ == keep_last(old(self)@ + samples@.subrange(0, i as int), self.capacity()),
            decreases n - i,
        {
            self.add_sample(samples[i]);
            proof {
                lemma_keep_last_push(
                    old(self)@ + samples@.subrange(0, i as int),
                    samples@[i as int],
                    self.capacity(),
                );
                assert(old(self)@ + samples@.subrange(0, i + 1) =~= (old(self)@
                    + samples@.subrange(0, i as int)).push(samples@[i as int]));
            }
            i = i + 1;
        }
        assert(samples@.subrange(0, n as int) =~= samples@);
    }

    /// The current contents, oldest first; the window is left as it is.
    pub fn drain(&self) -> (r: Vec<u32>)
        requires
            self.wf(),
        ensures
            r@ == self@,
    {
        let mut out: Vec<u32> = Vec::new();
        let n = self.samples.len();
        let mut i: usize = 0;
        while i < n
            invariant
                n == self@.len(),
                i <= n,
                out@ == self@.subrange(0, i as int),
            decreases n - i,
        {
            out.push(self.samples[i]);
            i = i + 1;
            assert(out@ =~= self@.subrange(0, i as int));
        }
        assert(self@.subrange(0, n as int) =~= self@);
        out
    }

    /// Removes every sample.
    pub fn clear(&mut self)
        requires
            old(self).wf(),
        ensures
            final(self).wf(),
            final(self).capacity() == old(self).capacity(),
            final(self)@ == Seq::<u32>::empty(),
    {
        self.samples.clear();
    }
}

/// Trimming after each push equals trimming once at the end.
proof fn lemma_keep_last_push(s: Seq<u32>, x: u32, n: nat)
    ensures
        keep_last(keep_last(s, n).push(x), n) == keep_last(s.push(x), n),
{
    assert(keep_last(keep_last(s, n).push(x), n) =~= keep_last(s.push(x), n));
}

/// However the samples arrive, the window never holds more than its
/// capacity, and it holds exactly the most recent of them, in arrival order.
pub proof fn lemma_window_fifo(w: SignalWindow, appended: Seq<u32>)
    requires
        w.wf(),
    ensures
        keep_last(w@ + appended, w.capacity()).len() <= w.capacity(),
        w@.len() + appended.len() > w.capacity() ==> keep_last(w@ + appended, w.capacity())
            == (w@ + appended).subrange(
            (w@.len() + appended.len()) - w.capacity(),
            (w@.len() + appended.len()) as int,
        ),
        appended.len() >= w.capacity() ==> keep_last(w@ + appended, w.capacity())
            == appended.subrange(appended.len() - w.capacity(), appended.len() as int),
{
    let s = w@ + appended;
    if appended.len() >= w.capacity() {
        assert(keep_last(s, w.capacity()) =~= appended.subrange(
            appended.len() - w.capacity(),
            appended.len() as int,
        ));
    }
}

} // verus!
