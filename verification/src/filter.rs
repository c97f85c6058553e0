//! Causal highpass filter: design validation and history bookkeeping.
//!
//! The filter stage designs digital Butterworth highpass coefficients once
//! at startup and then applies the recursive difference equation
//!
//! ```text
//! y[n] = sum(k = 0..=order) b[k]*x[n-k]  -  sum(k = 1..=order) a[k]*y[n-k]
//! ```
//!
//! one output per input, with no look-ahead. The coefficient values and the
//! multiply-accumulate itself are floating point and live outside this
//! library; what is verified here is everything exact about the stage: when
//! a design is admissible at all, and that the two most-recent-first history
//! buffers hold precisely the samples the difference equation may read —
//! the last `order + 1` inputs and the last `order` outputs, newest first,
//! oldest evicted.

use vstd::prelude::*;

use crate::errors::FilterDesignError;

verus! {

/// Whether a highpass design is admissible: a positive order, and a cutoff
/// whose normalization by the Nyquist frequency (half the sampling rate)
/// lies strictly between zero and one.
pub open spec fn design_admissible(order: usize, cutoff_hz: u32, sampling_hz: u32) -> bool {
    order >= 1 && 0 < cutoff_hz && 2 * cutoff_hz < sampling_hz
}

/// Validates highpass design parameters before any coefficient is
/// computed. Frequencies are whole hertz. Exactly the admissible designs
/// pass; a zero order is reported as such, any other rejection means the
/// normalized cutoff left the open unit interval.
pub fn validate_highpass_design(order: usize, cutoff_hz: u32, sampling_hz: u32) -> (r: Result<
    (),
    FilterDesignError,
>)
    ensures
        r is Ok <==> design_admissible(order, cutoff_hz, sampling_hz),
        order == 0 ==> r == Err::<(), FilterDesignError>(FilterDesignError::ZeroOrder),
        order >= 1 && !design_admissible(order, cutoff_hz, sampling_hz) ==> r == Err::<
            (),
            FilterDesignError,
        >(FilterDesignError::CutoffOutOfRange),
{
    if order == 0 {
        return Err(FilterDesignError::ZeroOrder);
    }
    if cutoff_hz == 0 || (cutoff_hz as u64) * 2 >= sampling_hz as u64 {
        return Err(FilterDesignError::CutoffOutOfRange);
    }
    Ok(())
}

/// The two history buffers of a running filter of a fixed order, newest
/// sample first. Samples are IEEE-754 double-precision bit patterns,
/// carried as opaque words.
pub struct FilterHistory {
    pub order: usize,
    /// `x[n], x[n-1], ..., x[n-order]` — at most `order + 1` entries.
    pub inputs: Vec<u64>,
    /// `y[n-1], ..., y[n-order]` — at most `order` entries.
    pub outputs: Vec<u64>,
}

impl FilterHistory {
    /// Both buffers within their fixed capacities.
    pub open spec fn wf(&self) -> bool {
        &&& self.order >= 1
        &&& self.inputs@.len() <= self.order + 1
        &&& self.outputs@.len() <= self.order
    }

    /// Empty histories: before the first sample, the difference equation
    /// reads nothing but that sample.
    pub fn new(order: usize) -> (h: Self)
        requires
            order >= 1,
            order < usize::MAX,
        ensures
            h.wf(),
            h.order == order,
            h.inputs@ == Seq::<u64>::empty(),
            h.outputs@ == Seq::<u64>::empty(),
    {
        FilterHistory { order, inputs: Vec::new(), outputs: Vec::new() }
    }

    /// Records the newest input sample in front, evicting the oldest entry
    /// once the buffer already holds `order + 1` samples.
    pub fn record_input(&mut self, x: u64)
        requires
            old(self).wf(),
            old(self).order < usize::MAX,
        ensures
            final(self).wf(),
            final(self).order == old(self).order,
            final(self).outputs@ == old(self).outputs@,
            final(self).inputs@ == seq![x] + (if old(self).inputs@.len() == old(self).order + 1 {
                old(self).inputs@.drop_last()
            } else {
                old(self).inputs@
            }),
    {
        if self.inputs.len() >= self.order + 1 {
            self.inputs.pop();
        }
        self.inputs.insert(0, x);
        proof {
            assert(self.inputs@ =~= seq![x] + (if old(self).inputs@.len() == old(self).order + 1 {
                old(self).inputs@.drop_last()
            } else {
                old(self).inputs@
            }));
        }
    }

    /// Records the newest output sample in front, evicting the oldest entry
    /// once the buffer already holds `order` samples.
    pub fn record_output(&mut self, y: u64)
        requires
            old(self).wf(),
        ensures
            final(self).wf(),
            final(self).order == old(self).order,
            final(self).inputs@ == old(self).inputs@,
            final(self).outputs@ == seq![y] + (if old(self).outputs@.len() == old(self).order {
                old(self).outputs@.drop_last()
            } else {
                old(self).outputs@
            }),
    {
        if self.outputs.len() >= self.order {
            self.outputs.pop();
        }
        self.outputs.insert(0, y);
        proof {
            assert(self.outputs@ =~= seq![y] + (if old(self).outputs@.len() == old(self).order {
                old(self).outputs@.drop_last()
            } else {
                old(self).outputs@
            }));
        }
    }
}

/// At the first sample of a run the filter is history-free: once the first
/// input has been recorded into empty histories, the input buffer holds
/// exactly that sample and the output buffer is still empty, so the first
/// output the difference equation can form is a function of `x0` and the
/// coefficients alone.
pub proof fn lemma_first_output_reads_only_first_input(
    before: FilterHistory,
    after: FilterHistory,
    x0: u64,
)
    requires
        before.wf(),
        before.inputs@.len() == 0,
        before.outputs@.len() == 0,
        after.outputs@ == before.outputs@,
        after.inputs@ == seq![x0] + (if before.inputs@.len() == before.order + 1 {
            before.inputs@.drop_last()
        } else {
            before.inputs@
        }),
    ensures
        after.inputs@ == seq![x0],
        after.outputs@ == Seq::<u64>::empty(),
{
    assert(after.inputs@ =~= seq![x0]);
    assert(after.outputs@ =~= Seq::<u64>::empty());
}

} // verus!
