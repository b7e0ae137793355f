//! Progressive accumulation: an exact running average for per-pixel
//! samples, independent of how many samples have arrived so far.
use vstd::prelude::*;

use crate::fixed::floor_div;

verus! {

/// The largest magnitude a single sample may have, in raw fixed-point
/// steps: sixteen units.
pub const SAMPLE_MAX: i64 = 16_000_000;

/// Sum of a sample sequence.
pub open spec fn spec_seq_sum(s: Seq<i64>) -> int
    decreases s.len(),
{
    if s.len() == 0 {
        0int
    } else {
        spec_seq_sum(s.drop_last()) + s.last()
    }
}

/// An exact running average over bounded samples: the mean after any
/// number of additions equals the floor of the true mean of everything
/// added, regardless of the order or grouping of the additions.
pub struct RunningMean {
    pub sum: i64,
    pub count: u32,
    pub history: Ghost<Seq<i64>>,
}

impl RunningMean {
    /// The sum tracks the recorded samples exactly, and every recorded
    /// sample is bounded, so the sum cannot overflow.
    pub open spec fn wf(&self) -> bool {
        &&& self.sum == spec_seq_sum(self.history@)
        &&& self.count == self.history@.len()
        &&& forall|i: int|
            0 <= i < self.history@.len() ==> -SAMPLE_MAX <= #[trigger] self.history@[i]
                <= SAMPLE_MAX
        &&& -(self.count as int) * SAMPLE_MAX as int <= self.sum <= (self.count as int)
            * SAMPLE_MAX as int
    }

    pub fn new() -> (r: RunningMean)
        ensures
            r.wf(),
            r.history@ =~= Seq::<i64>::empty(),
    {
        RunningMean { sum: 0, count: 0, history: Ghost(Seq::empty()) }
    }

    /// Record one bounded sample.
    pub fn add(&mut self, v: i64)
        requires
            old(self).wf(),
            -SAMPLE_MAX <= v <= SAMPLE_MAX,
            old(self).count < u32::MAX,
        ensures
            final(self).wf(),
            final(self).history@ == old(self).history@.push(v),
    {
        proof {
            let c: int = old(self).count as int;
            assert(c * SAMPLE_MAX as int + SAMPLE_MAX as int == (c + 1) * SAMPLE_MAX as int
                && -c * SAMPLE_MAX as int - SAMPLE_MAX as int == -(c + 1) * SAMPLE_MAX as int
                && ((c + 1 <= 0x1_0000_0000i64) ==> (c + 1) * SAMPLE_MAX as int
                    <= 0x1_0000_0000i64 * SAMPLE_MAX as int)) by (nonlinear_arith);
        }
        self.sum = self.sum + v;
        self.count = self.count + 1;
        proof {
            let h = self.history@.push(v);
            assert(h.drop_last() =~= self.history@);
        }
        self.history = Ghost(self.history@.push(v));
    }

    /// The accumulated mean: exactly the floor of the true mean of all
    /// recorded samples.
    pub fn mean(&self) -> (r: i64)
        requires
            self.wf(),
            self.count > 0,
        ensures
            r == floor_div(spec_seq_sum(self.history@), self.history@.len() as int),
    {
        crate::fixed::fp_divi(self.sum, self.count as i64)
    }
}

} // verus!
