use vstd::prelude::*;

use crate::bar::Bar;
use crate::commodity_channel_index::{cci_of, CommodityChannelIndex};
use crate::errors::TaError;
use crate::simple_moving_average::{mean_of, slide, SimpleMovingAverage, MAX_PERIOD};
use crate::true_range::{true_range_of, TrueRange};

verus! {

/// `x` was at or below `y` and is now at or above it.
pub open spec fn spec_crossover(previous_x: int, previous_y: int, current_x: int, current_y: int) -> bool {
    previous_x <= previous_y && current_x >= current_y
}

/// `x` was at or above `y` and is now at or below it.
pub open spec fn spec_crossunder(previous_x: int, previous_y: int, current_x: int, current_y: int) -> bool {
    previous_x >= previous_y && current_x <= current_y
}

/// `x` touched or crossed `y` in either direction.
pub open spec fn spec_cross(previous_x: int, previous_y: int, current_x: int, current_y: int) -> bool {
    spec_crossover(previous_x, previous_y, current_x, current_y) || spec_crossunder(
        previous_x,
        previous_y,
        current_x,
        current_y,
    )
}

/// Whether `x` crossed over `y` between the previous and the current bar.
pub fn crossover(previous_x: i128, previous_y: i128, current_x: i128, current_y: i128) -> (r: bool)
    ensures
        r == spec_crossover(previous_x as int, previous_y as int, current_x as int, current_y as int),
{
    previous_x <= previous_y && current_x >= current_y
}

/// Whether `x` crossed under `y` between the previous and the current bar.
pub fn crossunder(previous_x: i128, previous_y: i128, current_x: i128, current_y: i128) -> (r: bool)
    ensures
        r == spec_crossunder(previous_x as int, previous_y as int, current_x as int, current_y as int),
{
    previous_x >= previous_y && current_x <= current_y
}

/// Whether `x` crossed `y` either way between the previous and the current bar.
pub fn cross(previous_x: i128, previous_y: i128, current_x: i128, current_y: i128) -> (r: bool)
    ensures
        r == spec_cross(previous_x as int, previous_y as int, current_x as int, current_y as int),
{
    let over = crossover(previous_x, previous_y, current_x, current_y);
    let under = crossunder(previous_x, previous_y, current_x, current_y);
    over || under
}

/// The state of a trend magic indicator.
pub struct TrendMagicView {
    /// ATR multiplier in thousandths.
    pub atr_multiplier: nat,
    pub atr_period: nat,
    pub cci_period: nat,
    pub previous_trend: int,
    pub previous_close: int,
    pub previous_high: int,
    pub previous_low: int,
    /// What the true range remembers of the previous bar.
    pub previous_tr_close: Option<u32>,
    /// The true ranges averaged into the ATR surrogate.
    pub atr_window: Seq<u64>,
    /// The `high + low + close` values the CCI looks at.
    pub cci_window: Seq<u64>,
}

/// The state right after construction or a reset.
pub open spec fn initial_view(atr_multiplier: nat, atr_period: nat, cci_period: nat) -> TrendMagicView {
    TrendMagicView {
        atr_multiplier,
        atr_period,
        cci_period,
        previous_trend: 0,
        previous_close: 0,
        previous_high: 0,
        previous_low: 0,
        previous_tr_close: None,
        atr_window: Seq::empty(),
        cci_window: Seq::empty(),
    }
}

/// The new trend line: with momentum up it follows the support `up` but never
/// falls; with momentum down it follows the resistance `down` but never rises.
pub open spec fn next_trend(cci: int, up: int, down: int, previous: int) -> int {
    if cci >= 0 {
        if up < previous {
            previous
        } else {
            up
        }
    } else {
        if down > previous {
            previous
        } else {
            down
        }
    }
}

/// The state after `b` and the three signals it gives: close crossing the trend
/// line either way, low crossing over it, high crossing under it.
pub open spec fn step(v: TrendMagicView, b: Bar) -> (TrendMagicView, (bool, bool, bool)) {
    let tr = true_range_of(v.previous_tr_close, b) as u64;
    let atr_window = slide(v.atr_window, tr, v.atr_period);
    let atr = mean_of(atr_window);
    let cci_window = slide(v.cci_window, b.hlc() as u64, v.cci_period);
    let cci = cci_of(cci_window);
    let offset = atr * v.atr_multiplier / 1000;
    let trend = next_trend(cci, b.low - offset, b.high + offset, v.previous_trend);
    let signals = (
        spec_cross(v.previous_close, v.previous_trend, b.close as int, trend),
        spec_crossover(v.previous_low, v.previous_trend, b.low as int, trend),
        spec_crossunder(v.previous_high, v.previous_trend, b.high as int, trend),
    );
    let after = TrendMagicView {
        previous_trend: trend,
        previous_close: b.close as int,
        previous_high: b.high as int,
        previous_low: b.low as int,
        previous_tr_close: Some(b.close),
        atr_window,
        cci_window,
        ..v
    };
    (after, signals)
}

/// The state after each of `bars` in turn, starting from `v`.
pub open spec fn run(v: TrendMagicView, bars: Seq<Bar>) -> TrendMagicView
    decreases bars.len(),
{
    if bars.len() == 0 {
        v
    } else {
        step(run(v, bars.drop_last()), bars.last()).0
    }
}

/// One bar moves the trend line only the way momentum points: up or level where
/// the CCI is not negative, down or level where it is.
pub proof fn lemma_trend_ratchet(v: TrendMagicView, b: Bar)
    ensures
        cci_of(step(v, b).0.cci_window) >= 0 ==> step(v, b).0.previous_trend >= v.previous_trend,
        cci_of(step(v, b).0.cci_window) < 0 ==> step(v, b).0.previous_trend <= v.previous_trend,
{
}

/// While the CCI stays non-negative over a run of bars the trend line never falls;
/// while it stays negative the line never rises.
pub proof fn lemma_trend_ratchet_run(v: TrendMagicView, bars: Seq<Bar>)
    ensures
        (forall|i: int|
            0 < i <= bars.len() ==> cci_of(#[trigger] run(v, bars.take(i)).cci_window) >= 0)
            ==> run(v, bars).previous_trend >= v.previous_trend,
        (forall|i: int|
            0 < i <= bars.len() ==> cci_of(#[trigger] run(v, bars.take(i)).cci_window) < 0)
            ==> run(v, bars).previous_trend <= v.previous_trend,
    decreases bars.len(),
{
    if bars.len() > 0 {
        let rest = bars.drop_last();
        lemma_trend_ratchet_run(v, rest);
        lemma_trend_ratchet(run(v, rest), bars.last());
        assert(bars.take(bars.len() as int) =~= bars);
        assert forall|i: int| 0 < i <= rest.len() implies rest.take(i) =~= bars.take(i) by {}
        if forall|i: int|
            0 < i <= bars.len() ==> cci_of(#[trigger] run(v, bars.take(i)).cci_window) >= 0 {
            assert forall|i: int| 0 < i <= rest.len() implies cci_of(
                #[trigger] run(v, rest.take(i)).cci_window,
            ) >= 0 by {
                assert(rest.take(i) =~= bars.take(i));
            }
            assert(cci_of(run(v, bars.take(bars.len() as int)).cci_window) >= 0);
        }
        if forall|i: int|
            0 < i <= bars.len() ==> cci_of(#[trigger] run(v, bars.take(i)).cci_window) < 0 {
            assert forall|i: int| 0 < i <= rest.len() implies cci_of(
                #[trigger] run(v, rest.take(i)).cci_window,
            ) < 0 by {
                assert(rest.take(i) =~= bars.take(i));
            }
            assert(cci_of(run(v, bars.take(bars.len() as int)).cci_window) < 0);
        }
    }
}

/// An indicator that was reset and a fresh one with the same parameters give the
/// same signals and reach the same state on any bars that follow.
pub proof fn lemma_reset_matches_fresh(reset: TrendMagic, fresh: TrendMagic, bars: Seq<Bar>)
    requires
        reset@ == initial_view(fresh@.atr_multiplier, fresh@.atr_period, fresh@.cci_period),
        fresh@ == initial_view(fresh@.atr_multiplier, fresh@.atr_period, fresh@.cci_period),
    ensures
        run(reset@, bars) == run(fresh@, bars),
        bars.len() > 0 ==> step(reset@, bars[0]) == step(fresh@, bars[0]),
{
}

/// Trend magic: a trailing support/resistance line from an ATR surrogate (a
/// moving average of the true range) and the CCI, with cross signals against it.
pub struct TrendMagic {
    atr_multiplier: u32,
    previous_trend_magic: i128,
    previous_low: u32,
    previous_high: u32,
    previous_close: u32,
    tr: TrueRange,
    tr_sma: SimpleMovingAverage,
    cci: CommodityChannelIndex,
}

impl View for TrendMagic {
    type V = TrendMagicView;

    closed spec fn view(&self) -> TrendMagicView {
        TrendMagicView {
            atr_multiplier: self.atr_multiplier as nat,
            atr_period: self.tr_sma.spec_period(),
            cci_period: self.cci.spec_period(),
            previous_trend: self.previous_trend_magic as int,
            previous_close: self.previous_close as int,
            previous_high: self.previous_high as int,
            previous_low: self.previous_low as int,
            previous_tr_close: self.tr@,
            atr_window: self.tr_sma@,
            cci_window: self.cci@,
        }
    }
}

impl TrendMagic {
    /// The owned indicators are well formed and the trend line is within reach of
    /// the prices.
    pub closed spec fn wf(&self) -> bool {
        &&& self.tr_sma.wf()
        &&& self.cci.wf()
        &&& -0x1_0000_0000_0000_0000_0000int <= self.previous_trend_magic
            <= 0x1_0000_0000_0000_0000_0000int
    }

    /// A trend magic over `atr_periods` true ranges and `cci_periods` bars, with the
    /// ATR surrogate scaled by `atr_multiplier` thousandths; a zero period is refused.
    pub fn new(atr_periods: usize, atr_multiplier: u32, cci_periods: usize) -> (r: Result<
        Self,
        TaError,
    >)
        requires
            atr_periods <= MAX_PERIOD,
            cci_periods <= MAX_PERIOD,
        ensures
            (atr_periods == 0 || cci_periods == 0) <==> r is Err,
            r is Err ==> r == Err::<Self, TaError>(TaError::InvalidParameter),
            r matches Ok(t) ==> t.wf() && t@ == initial_view(
                atr_multiplier as nat,
                atr_periods as nat,
                cci_periods as nat,
            ),
    {
        let tr_sma = match SimpleMovingAverage::new(atr_periods) {
            Ok(s) => s,
            Err(e) => {
                return Err(e);
            },
        };
        let cci = match CommodityChannelIndex::new(cci_periods) {
            Ok(c) => c,
            Err(e) => {
                return Err(e);
            },
        };
        Ok(TrendMagic {
            atr_multiplier,
            previous_trend_magic: 0,
            previous_low: 0,
            previous_high: 0,
            previous_close: 0,
            tr: TrueRange::new(),
            tr_sma,
            cci,
        })
    }

    /// Takes the next bar and returns whether its close crossed the trend line
    /// either way, its low crossed over it, and its high crossed under it.
    pub fn next(&mut self, input: &Bar) -> (r: (bool, bool, bool))
        requires
            old(self).wf(),
            input.wf(),
        ensures
            final(self).wf(),
            (final(self)@, r) == step(old(self)@, *input),
    {
        let tr = self.tr.next(input);
        let atr = self.tr_sma.next(tr);
        let cci = self.cci.next(input);
        assert(atr as u128 * self.atr_multiplier as u128 <= 0x4_0000_0000 * 0xffff_ffff)
            by (nonlinear_arith)
            requires atr <= 0x4_0000_0000u64, self.atr_multiplier <= 0xffff_ffffu32;
        let offset: i128 = ((atr as u128 * self.atr_multiplier as u128) / 1000) as i128;
        let up: i128 = input.low as i128 - offset;
        let down: i128 = input.high as i128 + offset;
        let previous = self.previous_trend_magic;
        let current_trend_magic: i128 = if cci >= 0 {
            if up < previous {
                previous
            } else {
                up
            }
        } else {
            if down > previous {
                previous
            } else {
                down
            }
        };
        let cross1 = cross(
            self.previous_close as i128,
            previous,
            input.close as i128,
            current_trend_magic,
        );
        let cross2 = crossover(
            self.previous_low as i128,
            previous,
            input.low as i128,
            current_trend_magic,
        );
        let cross3 = crossunder(
            self.previous_high as i128,
            previous,
            input.high as i128,
            current_trend_magic,
        );
        self.previous_trend_magic = current_trend_magic;
        self.previous_close = input.close;
        self.previous_high = input.high;
        self.previous_low = input.low;
        (cross1, cross2, cross3)
    }

    /// Returns the indicator, and every indicator it owns, to its state right
    /// after construction.
    pub fn reset(&mut self)
        requires
            old(self).wf(),
        ensures
            final(self).wf(),
            final(self)@ == initial_view(
                old(self)@.atr_multiplier,
                old(self)@.atr_period,
                old(self)@.cci_period,
            ),
    {
        self.previous_close = 0;
        self.previous_high = 0;
        self.previous_low = 0;
        self.previous_trend_magic = 0;
        self.tr.reset();
        self.tr_sma.reset();
        self.cci.reset();
    }
}

impl Default for TrendMagic {
    /// Five true ranges for the ATR surrogate, a multiplier of one, twenty bars for
    /// the CCI.
    fn default() -> (r: Self)
        ensures
            r.wf(),
            r@ == initial_view(1000, 5, 20),
    {
        TrendMagic::new(5, 1000, 20).unwrap()
    }
}

} // verus!
