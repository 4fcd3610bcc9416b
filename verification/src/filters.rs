//! Finite impulse response filters in fixed point.
//!
//! A filter keeps the last samples, as many as it has coefficients, and
//! answers each new sample with the sum of the samples kept, each weighted by
//! its coefficient. Coefficients are whole multiples of one over a scale, so
//! that the sum is exact and only the final division rounds.

use vstd::prelude::*;
use crate::oxygen_saturation::FilteredSample;
use crate::quantity::{clamp, limit, trunc_div, Current};

verus! {

/// The largest number of coefficients of a filter.
pub const MAX_TAPS: usize = 65_536;

/// The sum of the first `k` samples of `window`, each weighted by the
/// coefficient at its place.
pub open spec fn weighted_sum(coefficients: Seq<i32>, window: Seq<i64>, k: int) -> int
    decreases k,
{
    if k <= 0 {
        0
    } else {
        weighted_sum(coefficients, window, k - 1) + coefficients[k - 1] * window[k - 1]
    }
}

/// The window after `sample`: the oldest sample leaves, the new one comes last.
pub open spec fn shifted(window: Seq<i64>, sample: i64) -> Seq<i64> {
    window.skip(1).push(sample)
}

/// The answer of a filter whose window is `window`.
pub open spec fn response(coefficients: Seq<i32>, scale: u32, window: Seq<i64>) -> int {
    clamp(
        trunc_div(weighted_sum(coefficients, window, coefficients.len() as int), scale as int),
        i64::MIN as int,
        i64::MAX as int,
    )
}

/// A weighted sum is no larger than as many largest products.
pub proof fn lemma_weighted_sum_bound(coefficients: Seq<i32>, window: Seq<i64>, k: int)
    requires
        0 <= k <= coefficients.len(),
        coefficients.len() == window.len(),
    ensures
        -k * 0x4000_0000_0000_0000_0000_0000 <= weighted_sum(coefficients, window, k) <= k
            * 0x4000_0000_0000_0000_0000_0000,
    decreases k,
{
    if k > 0 {
        lemma_weighted_sum_bound(coefficients, window, k - 1);
        let c = coefficients[k - 1] as int;
        let x = window[k - 1] as int;
        assert(-0x4000_0000_0000_0000_0000_0000 <= c * x <= 0x4000_0000_0000_0000_0000_0000)
            by (nonlinear_arith)
            requires
                -0x8000_0000 <= c <= 0x8000_0000,
                -0x8000_0000_0000_0000 <= x <= 0x8000_0000_0000_0000,
        ;
    }
}

/// A filter that has only seen zeros answers with zero, whatever its
/// coefficients.
pub proof fn lemma_silence(coefficients: Seq<i32>, window: Seq<i64>, k: int)
    requires
        0 <= k <= coefficients.len(),
        coefficients.len() == window.len(),
        forall|i: int| 0 <= i < window.len() ==> window[i] == 0,
    ensures
        weighted_sum(coefficients, window, k) == 0,
    decreases k,
{
    if k > 0 {
        lemma_silence(coefficients, window, k - 1);
    }
}

/// The sum of the first `k` coefficients.
pub open spec fn coefficient_sum(coefficients: Seq<i32>, k: int) -> int
    decreases k,
{
    if k <= 0 {
        0
    } else {
        coefficient_sum(coefficients, k - 1) + coefficients[k - 1]
    }
}

/// A filter that has only seen one value weights it by the sum of its
/// coefficients: a lowpass whose coefficients sum to the scale lets a steady
/// signal through unchanged, and a bandpass whose coefficients sum to zero
/// removes it.
pub proof fn lemma_steady_input(coefficients: Seq<i32>, window: Seq<i64>, value: i64, k: int)
    requires
        0 <= k <= coefficients.len(),
        coefficients.len() == window.len(),
        forall|i: int| 0 <= i < window.len() ==> window[i] == value,
    ensures
        weighted_sum(coefficients, window, k) == coefficient_sum(coefficients, k) * value,
    decreases k,
{
    if k > 0 {
        lemma_steady_input(coefficients, window, value, k - 1);
        let before = coefficient_sum(coefficients, k - 1);
        let c = coefficients[k - 1] as int;
        let x = value as int;
        assert(before * x + c * x == (before + c) * x) by (nonlinear_arith);
    }
}

/// A fixed-coefficient filter.
pub struct FirFilter {
    coefficients: Vec<i32>,
    scale: u32,
    window: Vec<i64>,
}

impl FirFilter {
    /// The invariant of a filter: one sample is kept per coefficient.
    pub closed spec fn wf(&self) -> bool {
        &&& 0 < self.coefficients@.len() <= MAX_TAPS
        &&& self.window@.len() == self.coefficients@.len()
        &&& self.scale > 0
    }

    /// The coefficients, the one for the oldest sample first.
    pub closed spec fn coefficients(&self) -> Seq<i32> {
        self.coefficients@
    }

    /// What one unit of output is in units of the weighted sum.
    pub closed spec fn scale(&self) -> u32 {
        self.scale
    }

    /// The samples kept, oldest first.
    pub closed spec fn window(&self) -> Seq<i64> {
        self.window@
    }

    /// What the invariant gives to callers.
    pub proof fn lemma_wf(&self)
        requires
            self.wf(),
        ensures
            0 < self.coefficients().len() <= MAX_TAPS,
            self.window().len() == self.coefficients().len(),
            self.scale() > 0,
    {
    }

    /// Creates a filter that has seen only zeros.
    pub fn new(coefficients: Vec<i32>, scale: u32) -> (r: FirFilter)
        requires
            0 < coefficients@.len() <= MAX_TAPS,
            scale > 0,
        ensures
            r.wf(),
            r.coefficients() == coefficients@,
            r.scale() == scale,
            r.window() == Seq::new(coefficients@.len(), |i: int| 0i64),
    {
        let mut window: Vec<i64> = Vec::new();
        let mut i: usize = 0;
        while i < coefficients.len()
            invariant
                i <= coefficients@.len(),
                window@.len() == i,
                forall|j: int| 0 <= j < i ==> window@[j] == 0,
            decreases coefficients@.len() - i,
        {
            window.push(0);
            i += 1;
        }
        proof {
            assert(window@ =~= Seq::new(coefficients@.len(), |i: int| 0i64));
        }
        FirFilter { coefficients, scale, window }
    }

    /// Takes `sample` into the window and returns the weighted sum of the
    /// window over the scale, rounded towards zero.
    pub fn feed(&mut self, sample: i64) -> (r: i64)
        requires
            old(self).wf(),
        ensures
            final(self).wf(),
            final(self).coefficients() == old(self).coefficients(),
            final(self).scale() == old(self).scale(),
            final(self).window() == shifted(old(self).window(), sample),
            r == response(final(self).coefficients(), final(self).scale(), final(self).window()),
    {
        let taps: usize = self.window.len();
        let mut i: usize = 0;
        while i + 1 < taps
            invariant
                taps == self.window@.len(),
                taps == old(self).window@.len(),
                self.coefficients == old(self).coefficients,
                self.scale == old(self).scale,
                i < taps,
                forall|j: int| 0 <= j < i ==> self.window@[j] == old(self).window@[j + 1],
                forall|j: int| i <= j < taps ==> self.window@[j] == old(self).window@[j],
            decreases taps - i,
        {
            let next: i64 = self.window[i + 1];
            self.window.set(i, next);
            i += 1;
        }
        self.window.set(taps - 1, sample);
        proof {
            assert(self.window@ =~= shifted(old(self).window@, sample));
        }
        let mut sum: i128 = 0;
        let mut k: usize = 0;
        while k < taps
            invariant
                self.wf(),
                taps == self.window@.len(),
                k <= taps,
                sum == weighted_sum(self.coefficients@, self.window@, k as int),
            decreases taps - k,
        {
            proof {
                lemma_weighted_sum_bound(self.coefficients@, self.window@, k as int);
                lemma_weighted_sum_bound(self.coefficients@, self.window@, k as int + 1);
                assert(k * 0x4000_0000_0000_0000_0000_0000 <= 0x1_0000
                    * 0x4000_0000_0000_0000_0000_0000) by (nonlinear_arith)
                    requires
                        k <= 0x1_0000,
                ;
            }
            let c: i128 = self.coefficients[k] as i128;
            let x: i128 = self.window[k] as i128;
            assert(-0x4000_0000_0000_0000_0000_0000 <= c * x <= 0x4000_0000_0000_0000_0000_0000)
                by (nonlinear_arith)
                requires
                    -0x8000_0000 <= c <= 0x8000_0000,
                    -0x8000_0000_0000_0000 <= x <= 0x8000_0000_0000_0000,
            ;
            sum = sum + c * x;
            k += 1;
        }
        let scaled: i128 = sum / (self.scale as i128);
        limit(scaled)
    }
}

/// The two filters of one channel: the lowpass that gives the baseline and the
/// bandpass that gives the pulsatile part.
pub struct ChannelFilter {
    pub dc: FirFilter,
    pub ac: FirFilter,
}

impl ChannelFilter {
    /// The invariant of the pair: that of each filter.
    pub open spec fn wf(&self) -> bool {
        self.dc.wf() && self.ac.wf()
    }

    /// Creates the pair from the coefficients of the lowpass and of the
    /// bandpass, which share one scale.
    pub fn new(lowpass: Vec<i32>, bandpass: Vec<i32>, scale: u32) -> (r: ChannelFilter)
        requires
            0 < lowpass@.len() <= MAX_TAPS,
            0 < bandpass@.len() <= MAX_TAPS,
            scale > 0,
        ensures
            r.wf(),
            r.dc.coefficients() == lowpass@,
            r.ac.coefficients() == bandpass@,
            r.dc.scale() == scale,
            r.ac.scale() == scale,
            r.dc.window() == Seq::new(lowpass@.len(), |i: int| 0i64),
            r.ac.window() == Seq::new(bandpass@.len(), |i: int| 0i64),
    {
        ChannelFilter { dc: FirFilter::new(lowpass, scale), ac: FirFilter::new(bandpass, scale) }
    }

    /// Feeds the photocurrent of the channel to both filters.
    pub fn feed(&mut self, current: Current) -> (r: FilteredSample)
        requires
            old(self).wf(),
        ensures
            final(self).wf(),
            final(self).dc.coefficients() == old(self).dc.coefficients(),
            final(self).ac.coefficients() == old(self).ac.coefficients(),
            final(self).dc.scale() == old(self).dc.scale(),
            final(self).ac.scale() == old(self).ac.scale(),
            final(self).dc.window() == shifted(old(self).dc.window(), current.picoamperes),
            final(self).ac.window() == shifted(old(self).ac.window(), current.picoamperes),
            r.dc == response(
                final(self).dc.coefficients(),
                final(self).dc.scale(),
                final(self).dc.window(),
            ),
            r.ac == response(
                final(self).ac.coefficients(),
                final(self).ac.scale(),
                final(self).ac.window(),
            ),
    {
        let dc = self.dc.feed(current.picoamperes);
        let ac = self.ac.feed(current.picoamperes);
        FilteredSample { dc, ac }
    }
}

} // verus!
