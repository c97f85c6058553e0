//! Short-time spectral stage: sliding window and hop schedule.
//!
//! The stage buffers the most recent `window_size` scalar samples and, on a
//! hop schedule, releases the buffered frame for one transform iteration:
//! Hann windowing, a real-valued Fourier transform, and per-bin squared
//! magnitudes. Those three are floating point and run outside this
//! library; verified here is the exact schedule — a frame is released for
//! the sample with index `i` (counting from zero) precisely when the
//! buffer has filled and `i` is a multiple of the hop size — together with
//! the sliding-buffer bookkeeping, so that a released frame holds exactly
//! the last `window_size` samples, oldest first.

use vstd::prelude::*;

use crate::errors::SpectralConfigError;

verus! {

/// Sliding window plus hop schedule of the spectral stage. Samples are
/// IEEE-754 double-precision bit patterns, carried as opaque words.
pub struct SpectralStage {
    pub window_size: usize,
    pub hop_size: usize,
    /// The most recent samples, oldest first; at most `window_size`.
    pub buffer: Vec<u64>,
    /// How many samples the stage has consumed so far.
    pub count: u64,
}

impl SpectralStage {
    /// The buffer holds the last `window_size` samples seen, or all of
    /// them while fewer have arrived.
    pub open spec fn wf(&self) -> bool {
        &&& self.window_size >= 1
        &&& self.hop_size >= 1
        &&& self.buffer@.len() == if self.count >= self.window_size {
            self.window_size as int
        } else {
            self.count as int
        }
    }

    /// Whether the sample with index `i` closes a frame: the buffer has
    /// filled by then, and `i` lands on the hop schedule.
    pub open spec fn frame_due(&self, i: u64) -> bool {
        i + 1 >= self.window_size && i as int % self.hop_size as int == 0
    }

    /// A fresh stage. A zero window size can never fill a frame and is
    /// rejected at construction; nothing else is.
    pub fn new(window_size: usize, hop_size: usize) -> (r: Result<SpectralStage, SpectralConfigError>)
        requires
            hop_size >= 1,
        ensures
            window_size == 0 ==> r == Err::<SpectralStage, SpectralConfigError>(
                SpectralConfigError::ZeroWindow,
            ),
            window_size >= 1 ==> ({
                &&& r is Ok
                &&& r->Ok_0.wf()
                &&& r->Ok_0.window_size == window_size
                &&& r->Ok_0.hop_size == hop_size
                &&& r->Ok_0.count == 0
                &&& r->Ok_0.buffer@ == Seq::<u64>::empty()
            }),
    {
        if window_size == 0 {
            return Err(SpectralConfigError::ZeroWindow);
        }
        Ok(SpectralStage { window_size, hop_size, buffer: Vec::new(), count: 0 })
    }

    /// Consumes one sample. The sample enters the sliding buffer (evicting
    /// the oldest once the buffer is full), and the frame — the buffered
    /// `window_size` samples, oldest first — is released exactly when the
    /// sample's index is due on the hop schedule. Absence of a frame is the
    /// normal outcome, not an error.
    pub fn step(&mut self, sample: u64) -> (r: Option<Vec<u64>>)
        requires
            old(self).wf(),
            old(self).count < u64::MAX,
        ensures
            final(self).wf(),
            final(self).window_size == old(self).window_size,
            final(self).hop_size == old(self).hop_size,
            final(self).count == old(self).count + 1,
            final(self).buffer@ == (if old(self).buffer@.len() == old(self).window_size {
                old(self).buffer@.drop_first()
            } else {
                old(self).buffer@
            }) + seq![sample],
            r is Some <==> old(self).frame_due(old(self).count),
            r is Some ==> r->Some_0@ == final(self).buffer@ && r->Some_0@.len() == old(
                self,
            ).window_size,
    {
        if self.buffer.len() >= self.window_size {
            self.buffer.remove(0);
        }
        self.buffer.push(sample);
        let i = self.count;
        self.count = self.count + 1;
        if self.buffer.len() == self.window_size && i % (self.hop_size as u64) == 0 {
            let mut frame: Vec<u64> = Vec::new();
            let mut j: usize = 0;
            while j < self.buffer.len()
                invariant
                    j <= self.buffer@.len(),
                    frame@ == self.buffer@.take(j as int),
                decreases self.buffer@.len() - j,
            {
                frame.push(self.buffer[j]);
                proof {
                    assert(frame@ =~= self.buffer@.take(j + 1));
                }
                j = j + 1;
            }
            proof {
                assert(frame@ =~= self.buffer@);
            }
            Some(frame)
        } else {
            None
        }
    }
}

/// The hop schedule releases exactly one frame per `hop_size` consecutive
/// samples once the window has filled: after the frame due at index `i`,
/// the indices strictly between `i` and `i + hop_size` are not due, and
/// `i + hop_size` is due again.
pub proof fn lemma_frame_cadence(s: SpectralStage, i: u64, j: u64)
    requires
        s.wf(),
        s.frame_due(i),
        i < j,
        j <= i + s.hop_size,
        j <= u64::MAX,
    ensures
        j < i + s.hop_size ==> !s.frame_due(j),
        j == i + s.hop_size ==> s.frame_due(j),
{
    let h = s.hop_size as int;
    vstd::arithmetic::div_mod::lemma_add_mod_noop(i as int, h, h);
    vstd::arithmetic::div_mod::lemma_mod_self_0(h);
    vstd::arithmetic::div_mod::lemma_small_mod(0nat, h as nat);
    assert((i + h) % h == 0);
    if j < i + s.hop_size {
        let d = j - i;
        vstd::arithmetic::div_mod::lemma_add_mod_noop(i as int, d, h);
        vstd::arithmetic::div_mod::lemma_small_mod(d as nat, h as nat);
        assert(j as int % h == d % h);
        assert(d % h == d);
    }
}

} // verus!
