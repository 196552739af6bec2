use vstd::prelude::*;

use crate::arith::floor_div;
use crate::bar::Bar;
use crate::errors::TaError;
use crate::simple_moving_average::{
    lemma_slide_within_limit, lemma_sum_bounded, push_window, seq_sum, slide, sum_window,
    within_limit, MAX_PERIOD, VALUE_LIMIT,
};
use crate::true_range::abs;

verus! {

/// Sum of `|n * x - total|` over the values `x` of `w`.
pub open spec fn deviation_sum(w: Seq<u64>, n: int, total: int) -> int
    decreases w.len(),
{
    if w.len() == 0 {
        0
    } else {
        deviation_sum(w.drop_last(), n, total) + abs(n * w.last() - total)
    }
}

/// The commodity channel index of the newest value of a non-empty window of
/// `high + low + close` values, rounded down: the newest typical price's distance
/// from the window's mean, over 0.015 times the window's mean absolute deviation,
/// and zero where that deviation is zero. With `n` values of sum `s`, that is
/// `200 * n * (n * newest - s) / (3 * sum |n * x - s|)`.
pub open spec fn cci_of(w: Seq<u64>) -> int {
    let n = w.len() as int;
    let s = seq_sum(w);
    let m = deviation_sum(w, n, s);
    if m == 0 {
        0
    } else {
        (200 * n * (n * w.last() - s)) / (3 * m)
    }
}

/// Momentum oscillator over the typical prices of the last `period` bars.
pub struct CommodityChannelIndex {
    period: usize,
    window: Vec<u64>,
}

impl View for CommodityChannelIndex {
    type V = Seq<u64>;

    /// The `high + low + close` of the bars in the window, oldest first.
    closed spec fn view(&self) -> Seq<u64> {
        self.window@
    }
}

impl CommodityChannelIndex {
    /// The window length.
    pub closed spec fn spec_period(&self) -> nat {
        self.period as nat
    }

    /// The window is no longer than the period, and its values are within the limit.
    pub closed spec fn wf(&self) -> bool {
        &&& 1 <= self.period <= MAX_PERIOD
        &&& self.window.len() <= self.period
        &&& within_limit(self.window@)
    }

    /// An empty window of `period` bars; a period of zero is refused.
    pub fn new(period: usize) -> (r: Result<Self, TaError>)
        requires
            period <= MAX_PERIOD,
        ensures
            period == 0 <==> r is Err,
            r is Err ==> r == Err::<Self, TaError>(TaError::InvalidParameter),
            r matches Ok(s) ==> s.wf() && s@ == Seq::<u64>::empty() && s.spec_period() == period,
    {
        if period == 0 {
            Err(TaError::InvalidParameter)
        } else {
            Ok(CommodityChannelIndex { period, window: Vec::new() })
        }
    }

    /// Takes `b` into the window and returns the index of `b`.
    pub fn next(&mut self, b: &Bar) -> (r: i128)
        requires
            old(self).wf(),
        ensures
            final(self).wf(),
            final(self).spec_period() == old(self).spec_period(),
            final(self)@ == slide(old(self)@, b.hlc() as u64, old(self).spec_period()),
            r == cci_of(final(self)@),
    {
        let x: u64 = b.high as u64 + b.low as u64 + b.close as u64;
        proof {
            lemma_slide_within_limit(self.window@, x, self.period as nat);
        }
        push_window(&mut self.window, x, self.period);
        let total: u128 = sum_window(&self.window);
        let n: u128 = self.window.len() as u128;
        let ghost w = self.window@;
        proof {
            assert(total <= MAX_PERIOD * VALUE_LIMIT) by (nonlinear_arith)
                requires total <= n * VALUE_LIMIT, n <= MAX_PERIOD;
        }
        let mut dev: u128 = 0;
        let mut i: usize = 0;
        while i < self.window.len()
            invariant
                w == self.window@,
                n == w.len(),
                1 <= n <= MAX_PERIOD,
                within_limit(w),
                total == seq_sum(w),
                total <= MAX_PERIOD * VALUE_LIMIT,
                i <= n,
                dev == deviation_sum(w.subrange(0, i as int), n as int, total as int),
                dev <= i * (MAX_PERIOD * VALUE_LIMIT),
            decreases n - i,
        {
            let ghost prefix = w.subrange(0, i as int + 1);
            assert(prefix.drop_last() =~= w.subrange(0, i as int));
            assert(w[i as int] <= VALUE_LIMIT);
            assert(n * w[i as int] <= MAX_PERIOD * VALUE_LIMIT) by (nonlinear_arith)
                requires n <= MAX_PERIOD, w[i as int] <= VALUE_LIMIT;
            assert(i * (MAX_PERIOD * VALUE_LIMIT) + MAX_PERIOD * VALUE_LIMIT == (i + 1) * (
            MAX_PERIOD * VALUE_LIMIT)) by (nonlinear_arith);
            assert((i + 1) * (MAX_PERIOD * VALUE_LIMIT) <= MAX_PERIOD * (MAX_PERIOD * VALUE_LIMIT))
                by (nonlinear_arith)
                requires i + 1 <= MAX_PERIOD;
            let scaled: u128 = n * self.window[i] as u128;
            let gap: u128 = if scaled >= total {
                scaled - total
            } else {
                total - scaled
            };
            dev = dev + gap;
            i = i + 1;
        }
        assert(w.subrange(0, n as int) =~= w);
        if dev == 0 {
            0
        } else {
            let newest: u128 = self.window[self.window.len() - 1] as u128;
            assert(newest == w.last());
            assert(n * newest <= MAX_PERIOD * VALUE_LIMIT) by (nonlinear_arith)
                requires n <= MAX_PERIOD, newest <= VALUE_LIMIT;
            let diff: i128 = (n * newest) as i128 - total as i128;
            assert(200 * n * diff <= 200 * MAX_PERIOD * (MAX_PERIOD * VALUE_LIMIT)
                && -(200 * MAX_PERIOD * (MAX_PERIOD * VALUE_LIMIT)) <= 200 * n * diff)
                by (nonlinear_arith)
                requires
                    1 <= n <= MAX_PERIOD,
                    -(MAX_PERIOD * VALUE_LIMIT) <= diff <= MAX_PERIOD * VALUE_LIMIT;
            assert(dev <= MAX_PERIOD * (MAX_PERIOD * VALUE_LIMIT));
            let numerator: i128 = 200 * (n as i128) * diff;
            floor_div(numerator, 3 * dev as i128)
        }
    }

    /// Empties the window.
    pub fn reset(&mut self)
        requires
            old(self).wf(),
        ensures
            final(self).wf(),
            final(self).spec_period() == old(self).spec_period(),
            final(self)@ == Seq::<u64>::empty(),
    {
        self.window = Vec::new();
    }
}

} // verus!
