use vstd::prelude::*;

use crate::errors::TaError;

verus! {

/// The longest window an indicator may be built with; it keeps every sum over a
/// window, and the products formed from it, inside 128 bits.
pub const MAX_PERIOD: usize = 0x10_0000;

/// The largest value a window may hold (a price sum of three ticks fits).
pub const VALUE_LIMIT: u64 = 0x4_0000_0000;

/// Sum of the values of `s`.
pub open spec fn seq_sum(s: Seq<u64>) -> int
    decreases s.len(),
{
    if s.len() == 0 {
        0
    } else {
        seq_sum(s.drop_last()) + s.last()
    }
}

/// Every value of `s` is at most `VALUE_LIMIT`.
pub open spec fn within_limit(s: Seq<u64>) -> bool {
    forall|i: int| 0 <= i < s.len() ==> #[trigger] s[i] <= VALUE_LIMIT
}

/// The window after `x` arrives: `x` is appended and, once more than `period`
/// values are held, the oldest one leaves.
pub open spec fn slide(w: Seq<u64>, x: u64, period: nat) -> Seq<u64> {
    if w.len() + 1 > period {
        w.push(x).drop_first()
    } else {
        w.push(x)
    }
}

/// The mean of a non-empty window, rounded down.
pub open spec fn mean_of(w: Seq<u64>) -> int {
    seq_sum(w) / (w.len() as int)
}

/// A sum of values that are each at most `VALUE_LIMIT`.
pub proof fn lemma_sum_bounded(s: Seq<u64>)
    requires
        within_limit(s),
    ensures
        0 <= seq_sum(s) <= s.len() * VALUE_LIMIT,
    decreases s.len(),
{
    if s.len() > 0 {
        let r = s.drop_last();
        assert(within_limit(r)) by {
            assert forall|i: int| 0 <= i < r.len() implies #[trigger] r[i] <= VALUE_LIMIT by {
                assert(r[i] == s[i]);
            }
        }
        lemma_sum_bounded(r);
        assert(s.last() == s[s.len() - 1]);
        assert(r.len() * VALUE_LIMIT + VALUE_LIMIT == s.len() * VALUE_LIMIT) by (nonlinear_arith)
            requires r.len() + 1 == s.len();
    }
}

/// The window after a slide keeps every value within the limit.
pub proof fn lemma_slide_within_limit(w: Seq<u64>, x: u64, period: nat)
    requires
        within_limit(w),
        x <= VALUE_LIMIT,
    ensures
        within_limit(slide(w, x, period)),
{
    let p = w.push(x);
    assert(within_limit(p)) by {
        assert forall|i: int| 0 <= i < p.len() implies #[trigger] p[i] <= VALUE_LIMIT by {
            if i < w.len() {
                assert(p[i] == w[i]);
            }
        }
    }
    if w.len() + 1 > period {
        let d = p.drop_first();
        assert forall|i: int| 0 <= i < d.len() implies #[trigger] d[i] <= VALUE_LIMIT by {
            assert(d[i] == p[i + 1]);
        }
    }
}

/// Sums a window by walking it.
pub fn sum_window(w: &Vec<u64>) -> (r: u128)
    requires
        w.len() <= MAX_PERIOD,
        within_limit(w@),
    ensures
        r == seq_sum(w@),
        r <= w.len() * VALUE_LIMIT,
{
    let mut total: u128 = 0;
    let mut i: usize = 0;
    while i < w.len()
        invariant
            i <= w.len() <= MAX_PERIOD,
            within_limit(w@),
            total == seq_sum(w@.subrange(0, i as int)),
            total <= i * VALUE_LIMIT,
        decreases w.len() - i,
    {
        let ghost prefix = w@.subrange(0, i as int + 1);
        assert(prefix.drop_last() =~= w@.subrange(0, i as int));
        assert(w[i as int] <= VALUE_LIMIT);
        assert(i * VALUE_LIMIT + VALUE_LIMIT == (i + 1) * VALUE_LIMIT) by (nonlinear_arith);
        assert((i + 1) * VALUE_LIMIT <= MAX_PERIOD * VALUE_LIMIT) by (nonlinear_arith)
            requires i + 1 <= MAX_PERIOD;
        total = total + w[i] as u128;
        i = i + 1;
    }
    assert(w@.subrange(0, w.len() as int) =~= w@);
    total
}

/// Moves `w` on by one value, as `slide` describes.
pub fn push_window(w: &mut Vec<u64>, x: u64, period: usize)
    requires
        period >= 1,
        old(w).len() <= period,
    ensures
        final(w)@ == slide(old(w)@, x, period as nat),
        final(w).len() <= period,
{
    w.push(x);
    if w.len() > period {
        w.remove(0);
        assert(w@ =~= old(w)@.push(x).drop_first());
    }
}

/// Mean of the last `period` values of a stream.
pub struct SimpleMovingAverage {
    period: usize,
    window: Vec<u64>,
}

impl View for SimpleMovingAverage {
    type V = Seq<u64>;

    /// The values in the window, oldest first.
    closed spec fn view(&self) -> Seq<u64> {
        self.window@
    }
}

impl SimpleMovingAverage {
    /// The window length.
    pub closed spec fn spec_period(&self) -> nat {
        self.period as nat
    }

    /// The window is no longer than the period, and its values are within the limit.
    pub closed spec fn wf(&self) -> bool {
        &&& 1 <= self.period <= MAX_PERIOD
        &&& self.window.len() <= self.period
        &&& within_limit(self.window@)
    }

    /// An empty window of `period` values; a period of zero is refused.
    pub fn new(period: usize) -> (r: Result<Self, TaError>)
        requires
            period <= MAX_PERIOD,
        ensures
            period == 0 <==> r is Err,
            r is Err ==> r == Err::<Self, TaError>(TaError::InvalidParameter),
            r matches Ok(s) ==> s.wf() && s@ == Seq::<u64>::empty() && s.spec_period() == period,
    {
        if period == 0 {
            Err(TaError::InvalidParameter)
        } else {
            Ok(SimpleMovingAverage { period, window: Vec::new() })
        }
    }

    /// Takes `x` into the window and returns the mean of the window.
    pub fn next(&mut self, x: u64) -> (r: u64)
        requires
            old(self).wf(),
            x <= VALUE_LIMIT,
        ensures
            final(self).wf(),
            final(self).spec_period() == old(self).spec_period(),
            final(self)@ == slide(old(self)@, x, old(self).spec_period()),
            r == mean_of(final(self)@),
            r <= VALUE_LIMIT,
    {
        proof {
            lemma_slide_within_limit(self.window@, x, self.period as nat);
        }
        push_window(&mut self.window, x, self.period);
        let total = sum_window(&self.window);
        let n: u128 = self.window.len() as u128;
        proof {
            assert(n >= 1);
            vstd::arithmetic::div_mod::lemma_div_is_ordered(total as int, n * VALUE_LIMIT, n as int);
            vstd::arithmetic::div_mod::lemma_div_multiples_vanish(VALUE_LIMIT as int, n as int);
            assert(n * VALUE_LIMIT == n * (VALUE_LIMIT as int));
        }
        (total / n) as u64
    }

    /// Empties the window.
    pub fn reset(&mut self)
        requires
            old(self).wf(),
        ensures
            final(self).wf(),
            final(self).spec_period() == old(self).spec_period(),
            final(self)@ == Seq::<u64>::empty(),
    {
        self.window = Vec::new();
    }
}

} // verus!
