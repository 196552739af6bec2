use vstd::prelude::*;

use crate::arith::{floor_sqrt, isqrt};
use crate::bar::Bar;
use crate::errors::TaError;

verus! {

/// The most volume one session may accumulate: it keeps every running sum,
/// and the products formed from them, inside 128 bits.
pub const VOLUME_LIMIT: u64 = 0x4000_0000;

/// The largest value of `high + low + close` a bar can have.
pub open spec fn hlc_limit() -> int {
    3 * 0xffff_ffffint
}

/// Total volume of `bars`.
pub open spec fn sum_volume(bars: Seq<Bar>) -> int
    decreases bars.len(),
{
    if bars.len() == 0 {
        0
    } else {
        sum_volume(bars.drop_last()) + bars.last().volume
    }
}

/// Sum of `volume * (high + low + close)` over `bars`.
pub open spec fn sum_price_volume(bars: Seq<Bar>) -> int
    decreases bars.len(),
{
    if bars.len() == 0 {
        0
    } else {
        sum_price_volume(bars.drop_last()) + bars.last().volume * bars.last().hlc()
    }
}

/// Sum of `volume * (high + low + close)^2` over `bars`.
pub open spec fn sum_price_squared_volume(bars: Seq<Bar>) -> int
    decreases bars.len(),
{
    if bars.len() == 0 {
        0
    } else {
        sum_price_squared_volume(bars.drop_last()) + bars.last().volume * (bars.last().hlc()
            * bars.last().hlc())
    }
}

/// The volume-weighted mean of the typical price over `bars`, rounded down to a
/// tick; zero while no volume has been seen.
pub open spec fn vwap_of(bars: Seq<Bar>) -> int {
    if sum_volume(bars) == 0 {
        0
    } else {
        sum_price_volume(bars) / (3 * sum_volume(bars))
    }
}

/// The volume-weighted variance of the typical price over `bars` in square ticks,
/// `E[X^2] - E[X]^2` clamped at zero and rounded down.
pub open spec fn variance_of(bars: Seq<Bar>) -> int {
    let v = sum_volume(bars);
    let p = sum_price_volume(bars);
    let q = sum_price_squared_volume(bars);
    if v == 0 || v * q - p * p <= 0 {
        0
    } else {
        (v * q - p * p) / (9 * (v * v))
    }
}

/// The standard deviation that goes with `variance_of`, rounded down to a tick.
pub open spec fn std_dev_of(bars: Seq<Bar>) -> int {
    floor_sqrt(variance_of(bars) as nat) as int
}

/// The smallest `high + low + close` among `bars`.
pub open spec fn min_hlc(bars: Seq<Bar>) -> int
    decreases bars.len(),
{
    if bars.len() <= 1 {
        bars[0].hlc()
    } else {
        let m = min_hlc(bars.drop_last());
        if bars.last().hlc() < m {
            bars.last().hlc()
        } else {
            m
        }
    }
}

/// The largest `high + low + close` among `bars`.
pub open spec fn max_hlc(bars: Seq<Bar>) -> int
    decreases bars.len(),
{
    if bars.len() <= 1 {
        bars[0].hlc()
    } else {
        let m = max_hlc(bars.drop_last());
        if bars.last().hlc() > m {
            bars.last().hlc()
        } else {
            m
        }
    }
}

/// The weighted sum of prices lies between the smallest and the largest price,
/// each weighted by the whole volume.
pub proof fn lemma_price_volume_between(bars: Seq<Bar>)
    requires
        bars.len() > 0,
    ensures
        min_hlc(bars) * sum_volume(bars) <= sum_price_volume(bars) <= max_hlc(bars)
            * sum_volume(bars),
    decreases bars.len(),
{
    let rest = bars.drop_last();
    let b = bars.last();
    let v = b.volume as int;
    let h = b.hlc();
    if bars.len() == 1 {
        assert(rest =~= Seq::<Bar>::empty());
        assert(sum_volume(rest) == 0);
        assert(sum_price_volume(rest) == 0);
        assert(bars[0] == b);
        assert(h * v == v * h) by (nonlinear_arith);
    } else {
        lemma_price_volume_between(rest);
        lemma_sums_bounded(rest);
        let lo = min_hlc(rest);
        let hi = max_hlc(rest);
        let w = sum_volume(rest);
        let lo2 = min_hlc(bars);
        let hi2 = max_hlc(bars);
        assert(lo2 <= lo && lo2 <= h && hi <= hi2 && h <= hi2);
        assert(sum_volume(bars) == w + v);
        assert(sum_price_volume(bars) == sum_price_volume(rest) + v * h);
        assert(lo2 * (w + v) <= lo * w + v * h) by (nonlinear_arith)
            requires lo2 <= lo, lo2 <= h, 0 <= w, 0 <= v;
        assert(hi * w + v * h <= hi2 * (w + v)) by (nonlinear_arith)
            requires hi <= hi2, h <= hi2, 0 <= w, 0 <= v;
    }
}

/// With every volume positive, the mean after any number of bars lies between
/// the lowest and the highest typical price seen.
pub proof fn lemma_vwap_within_typical_range(bars: Seq<Bar>)
    requires
        bars.len() > 0,
        forall|i: int| 0 <= i < bars.len() ==> #[trigger] bars[i].volume > 0,
    ensures
        min_hlc(bars) / 3 <= vwap_of(bars) <= max_hlc(bars) / 3,
{
    let rest = bars.drop_last();
    lemma_sums_bounded(rest);
    assert(bars.last().volume > 0);
    let v = sum_volume(bars);
    assert(v > 0);
    lemma_price_volume_between(bars);
    lemma_sums_bounded(bars);
    let p = sum_price_volume(bars);
    let lo = min_hlc(bars);
    let hi = max_hlc(bars);
    assert(lo >= 0 && hi >= 0) by {
        lemma_hlc_range_nonnegative(bars);
    }
    vstd::arithmetic::div_mod::lemma_div_multiples_vanish_quotient(v, lo, 3);
    vstd::arithmetic::div_mod::lemma_div_multiples_vanish_quotient(v, hi, 3);
    assert(v * lo == lo * v && v * hi == hi * v && v * 3 == 3 * v) by (nonlinear_arith);
    vstd::arithmetic::div_mod::lemma_div_is_ordered(v * lo, p, 3 * v);
    vstd::arithmetic::div_mod::lemma_div_is_ordered(p, v * hi, 3 * v);
}

/// Prices are ticks, so the extremes of `high + low + close` are never negative.
proof fn lemma_hlc_range_nonnegative(bars: Seq<Bar>)
    requires
        bars.len() > 0,
    ensures
        min_hlc(bars) >= 0,
        max_hlc(bars) >= 0,
    decreases bars.len(),
{
    if bars.len() > 1 {
        lemma_hlc_range_nonnegative(bars.drop_last());
    }
}

/// The deviation is never negative, whatever the bars: the variance is clamped at
/// zero before its root is taken.
pub proof fn lemma_std_dev_nonnegative(bars: Seq<Bar>)
    ensures
        variance_of(bars) >= 0,
        std_dev_of(bars) >= 0,
        std_dev_of(bars) * std_dev_of(bars) <= variance_of(bars),
{
    lemma_sums_bounded(bars);
    let v = sum_volume(bars);
    let d = v * sum_price_squared_volume(bars) - sum_price_volume(bars) * sum_price_volume(bars);
    if v != 0 && d > 0 {
        assert(9 * (v * v) > 0) by (nonlinear_arith)
            requires v > 0;
        vstd::arithmetic::div_mod::lemma_div_pos_is_pos(d, 9 * (v * v));
    }
    crate::arith::lemma_floor_sqrt_bounds(variance_of(bars) as nat);
}

/// Sum of `volume * (high + low + close - c)^2` over `bars`.
pub open spec fn weighted_square_deviation(bars: Seq<Bar>, c: int) -> int
    decreases bars.len(),
{
    if bars.len() == 0 {
        0
    } else {
        weighted_square_deviation(bars.drop_last(), c) + bars.last().volume * ((bars.last().hlc()
            - c) * (bars.last().hlc() - c))
    }
}

/// The squared deviations from any centre `c` expand into the running sums, and are
/// never negative.
pub proof fn lemma_weighted_square_deviation(bars: Seq<Bar>, c: int)
    ensures
        weighted_square_deviation(bars, c) == sum_price_squared_volume(bars) - 2 * c
            * sum_price_volume(bars) + c * c * sum_volume(bars),
        weighted_square_deviation(bars, c) >= 0,
    decreases bars.len(),
{
    if bars.len() > 0 {
        let rest = bars.drop_last();
        lemma_weighted_square_deviation(rest, c);
        let v = bars.last().volume as int;
        let h = bars.last().hlc();
        assert(v * ((h - c) * (h - c)) == v * (h * h) - 2 * c * (v * h) + c * c * v
            && v * ((h - c) * (h - c)) >= 0) by (nonlinear_arith)
            requires v >= 0;
        assert(c * c * sum_volume(rest) + c * c * v == c * c * sum_volume(bars)) by (nonlinear_arith)
            requires sum_volume(bars) == sum_volume(rest) + v;
        assert(2 * c * sum_price_volume(rest) + 2 * c * (v * h) == 2 * c * sum_price_volume(bars))
            by (nonlinear_arith)
            requires sum_price_volume(bars) == sum_price_volume(rest) + v * h;
    }
}

/// How the variance numerator grows when a sample of weight `v` at `h` joins sums
/// `vv`, `pp`, `qq`.
proof fn lemma_add_sample_expansion(vv: int, pp: int, qq: int, v: int, h: int)
    ensures
        (vv + v) * (qq + v * (h * h)) - (pp + v * h) * (pp + v * h) == (vv * qq - pp * pp) + v * (
        qq - 2 * h * pp + h * h * vv),
{
    let hh = h * h;
    assert((vv + v) * (qq + v * hh) == vv * qq + vv * (v * hh) + v * qq + v * (v * hh))
        by (nonlinear_arith);
    assert((pp + v * h) * (pp + v * h) == pp * pp + 2 * (pp * (v * h)) + (v * h) * (v * h))
        by (nonlinear_arith);
    assert((v * h) * (v * h) == v * (v * hh)) by (nonlinear_arith)
        requires hh == h * h;
    assert(vv * (v * hh) == v * (hh * vv)) by (nonlinear_arith);
    assert(pp * (v * h) == v * (h * pp)) by (nonlinear_arith);
    assert(v * (qq - 2 * h * pp + hh * vv) == v * qq - 2 * (v * (h * pp)) + v * (hh * vv))
        by (nonlinear_arith);
}

/// In exact arithmetic the variance numerator `V * Q - P^2` is never negative
/// (volume `V`, price-volume sum `P`, squared price-volume sum `Q`), so the clamp
/// at zero only ever guards against rounding.
pub proof fn lemma_variance_numerator_nonnegative(bars: Seq<Bar>)
    ensures
        sum_volume(bars) * sum_price_squared_volume(bars) - sum_price_volume(bars)
            * sum_price_volume(bars) >= 0,
    decreases bars.len(),
{
    if bars.len() > 0 {
        let rest = bars.drop_last();
        lemma_variance_numerator_nonnegative(rest);
        let v = bars.last().volume as int;
        let h = bars.last().hlc();
        lemma_weighted_square_deviation(rest, h);
        let vv = sum_volume(rest);
        let pp = sum_price_volume(rest);
        let qq = sum_price_squared_volume(rest);
        lemma_add_sample_expansion(vv, pp, qq, v, h);
        assert(v * (qq - 2 * h * pp + h * h * vv) >= 0) by (nonlinear_arith)
            requires v >= 0, qq - 2 * h * pp + h * h * vv >= 0;
    }
}

/// The upper and lower bands lie the same distance from the mean, for any offset.
pub proof fn lemma_band_symmetry(bars: Seq<Bar>, offset: int)
    ensures
        band_of(bars, offset, VolumeWeightedAveragePriceBands::Up) - vwap_of(bars) == vwap_of(bars)
            - band_of(bars, offset, VolumeWeightedAveragePriceBands::Down),
{
}

/// A reset session and a freshly built one give the same mean and the same bands
/// on the same next bar.
pub proof fn lemma_reset_matches_fresh(
    reset: VolumeWeightedAveragePrice,
    fresh: VolumeWeightedAveragePrice,
    b: Bar,
    offset: int,
    direction: VolumeWeightedAveragePriceBands,
)
    requires
        reset@ == Seq::<Bar>::empty(),
        fresh@ == Seq::<Bar>::empty(),
    ensures
        vwap_of(reset@.push(b)) == vwap_of(fresh@.push(b)),
        band_of(reset@.push(b), offset, direction) == band_of(fresh@.push(b), offset, direction),
{
}

/// A session of one bar with volume has that bar's typical price as its mean and
/// no spread, so both bands sit on the mean.
pub proof fn lemma_single_bar_session(b: Bar, offset: int)
    requires
        b.volume > 0,
    ensures
        vwap_of(seq![b]) == b.typical(),
        std_dev_of(seq![b]) == 0,
        band_of(seq![b], offset, VolumeWeightedAveragePriceBands::Up) == b.typical(),
        band_of(seq![b], offset, VolumeWeightedAveragePriceBands::Down) == b.typical(),
{
    let bars = seq![b];
    assert(bars.drop_last() =~= Seq::<Bar>::empty());
    assert(sum_volume(bars.drop_last()) == 0);
    assert(sum_price_volume(bars.drop_last()) == 0);
    assert(sum_price_squared_volume(bars.drop_last()) == 0);
    assert(bars.last() == b);
    let v = b.volume as int;
    let h = b.hlc();
    assert(sum_volume(bars) == v);
    assert(sum_price_volume(bars) == v * h);
    assert(sum_price_squared_volume(bars) == v * (h * h));
    assert(v * (v * (h * h)) - (v * h) * (v * h) == 0) by (nonlinear_arith);
    assert(variance_of(bars) == 0);
    assert(floor_sqrt(0) == 0);
    vstd::arithmetic::div_mod::lemma_div_multiples_vanish_quotient(v, h, 3);
    assert(v * h == h * v && v * 3 == 3 * v) by (nonlinear_arith);
    assert(v * 0 == 0) by (nonlinear_arith);
    assert(offset * 0 == 0) by (nonlinear_arith);
}

/// Which side of the mean a band lies on.
#[derive(Clone, Copy, Debug, PartialEq, Eq, Structural)]
pub enum VolumeWeightedAveragePriceBands {
    Up,
    Down,
}

/// The price of a bar that the average is taken of.
#[derive(Clone, Copy, Debug, PartialEq, Eq, Structural)]
pub enum VolumeWeightedAveragePriceSource {
    /// `(high + low + close) / 3`.
    HLC3,
}

/// The band `offset` standard deviations above or below the mean of `bars`.
pub open spec fn band_of(bars: Seq<Bar>, offset: int, direction: VolumeWeightedAveragePriceBands) -> int {
    match direction {
        VolumeWeightedAveragePriceBands::Up => vwap_of(bars) + offset * std_dev_of(bars),
        VolumeWeightedAveragePriceBands::Down => vwap_of(bars) - offset * std_dev_of(bars),
    }
}

/// Session volume-weighted average price with running standard deviation.
///
/// The sums run from construction or the last `reset`; `period` labels the
/// instance and does not window the accumulation.
pub struct VolumeWeightedAveragePrice {
    cumulative_total: u128,
    cumulative_volume: u64,
    cumulative_v2: u128,
    vwap: u64,
    std_dev: u64,
    period: usize,
    source: VolumeWeightedAveragePriceSource,
    bars: Ghost<Seq<Bar>>,
}

impl View for VolumeWeightedAveragePrice {
    type V = Seq<Bar>;

    /// The bars consumed since construction or the last `reset`.
    closed spec fn view(&self) -> Seq<Bar> {
        self.bars@
    }
}

/// Every running sum stays within what the volume allows.
pub proof fn lemma_sums_bounded(bars: Seq<Bar>)
    ensures
        0 <= sum_volume(bars),
        0 <= sum_price_volume(bars) <= sum_volume(bars) * hlc_limit(),
        0 <= sum_price_squared_volume(bars) <= sum_volume(bars) * (hlc_limit() * hlc_limit()),
    decreases bars.len(),
{
    if bars.len() > 0 {
        let rest = bars.drop_last();
        lemma_sums_bounded(rest);
        let b = bars.last();
        let v = b.volume as int;
        let h = b.hlc();
        let m = hlc_limit();
        assert(0 <= v * h <= v * m) by (nonlinear_arith)
            requires 0 <= v, 0 <= h <= m;
        assert(0 <= v * (h * h) <= v * (m * m)) by (nonlinear_arith)
            requires 0 <= v, 0 <= h <= m;
        assert(sum_volume(rest) * m + v * m == sum_volume(bars) * m) by (nonlinear_arith)
            requires sum_volume(bars) == sum_volume(rest) + v;
        assert(sum_volume(rest) * (m * m) + v * (m * m) == sum_volume(bars) * (m * m))
            by (nonlinear_arith)
            requires sum_volume(bars) == sum_volume(rest) + v;
    }
}

impl VolumeWeightedAveragePrice {
    /// The running sums, mean and deviation agree with the bars consumed.
    pub closed spec fn wf(&self) -> bool {
        &&& self.cumulative_volume == sum_volume(self.bars@)
        &&& self.cumulative_total == sum_price_volume(self.bars@)
        &&& self.cumulative_v2 == sum_price_squared_volume(self.bars@)
        &&& self.cumulative_volume <= VOLUME_LIMIT
        &&& self.vwap == vwap_of(self.bars@)
        &&& self.std_dev == std_dev_of(self.bars@)
    }

    /// The period the instance was built with.
    pub closed spec fn spec_period(&self) -> usize {
        self.period
    }

    /// Total volume consumed since construction or the last `reset`.
    pub open spec fn spec_volume(&self) -> int {
        sum_volume(self@)
    }

    /// Builds an empty session labelled with `period`; a period of zero is refused.
    pub fn new(period: usize) -> (r: Result<Self, TaError>)
        ensures
            period == 0 <==> r is Err,
            r is Err ==> r == Err::<Self, TaError>(TaError::InvalidParameter),
            r matches Ok(v) ==> v.wf() && v@ == Seq::<Bar>::empty() && v.spec_period() == period,
    {
        if period == 0 {
            Err(TaError::InvalidParameter)
        } else {
            Ok(VolumeWeightedAveragePrice {
                cumulative_total: 0,
                cumulative_volume: 0,
                cumulative_v2: 0,
                vwap: 0,
                std_dev: 0,
                period,
                source: VolumeWeightedAveragePriceSource::HLC3,
                bars: Ghost(Seq::empty()),
            })
        }
    }

    /// The band `offset` standard deviations above (`Up`) or below (`Down`) the
    /// current mean. Reads the state only.
    pub fn std_dev(&self, offset: i32, band_direction: VolumeWeightedAveragePriceBands) -> (r: i128)
        requires
            self.wf(),
        ensures
            r == band_of(self@, offset as int, band_direction),
    {
        assert(-0x8000_0000_0000_0000_0000_0000int <= offset as i128 * self.std_dev as i128
            <= 0x8000_0000_0000_0000_0000_0000int) by (nonlinear_arith)
            requires
                -0x8000_0000int <= offset <= 0x8000_0000int,
                0 <= self.std_dev <= 0xffff_ffff_ffff_ffffint;
        let spread: i128 = offset as i128 * self.std_dev as i128;
        match band_direction {
            VolumeWeightedAveragePriceBands::Up => self.vwap as i128 + spread,
            VolumeWeightedAveragePriceBands::Down => self.vwap as i128 - spread,
        }
    }

    /// The price of `d` that the average is taken of.
    pub fn typical_price(&self, d: &Bar) -> (r: u64)
        ensures
            r == d.typical(),
    {
        match self.source {
            VolumeWeightedAveragePriceSource::HLC3 => (d.high as u64 + d.low as u64
                + d.close as u64) / 3,
        }
    }

    /// The period the instance was built with.
    pub fn period(&self) -> (r: usize)
        ensures
            r == self.spec_period(),
    {
        self.period
    }

    /// Total volume consumed since construction or the last `reset`; `next` takes
    /// a bar only while this plus its volume stays within `VOLUME_LIMIT`.
    pub fn cumulative_volume(&self) -> (r: u64)
        requires
            self.wf(),
        ensures
            r == self.spec_volume(),
    {
        self.cumulative_volume
    }

    /// Adds `d` to the session and returns the new volume-weighted mean.
    pub fn next(&mut self, d: Bar) -> (r: u64)
        requires
            old(self).wf(),
            old(self).spec_volume() + d.volume <= VOLUME_LIMIT,
        ensures
            final(self).wf(),
            final(self)@ == old(self)@.push(d),
            final(self).spec_period() == old(self).spec_period(),
            r == vwap_of(final(self)@),
    {
        let ghost bars = self.bars@.push(d);
        proof {
            assert(bars.drop_last() =~= self.bars@);
            lemma_sums_bounded(bars);
        }
        let hlc: u128 = d.high as u128 + d.low as u128 + d.close as u128;
        let v: u128 = d.volume as u128;
        proof {
            let m = hlc_limit();
            assert(bars.last() == d);
            assert(sum_volume(bars) == self.cumulative_volume + v);
            assert(sum_price_volume(bars) == self.cumulative_total + v * hlc);
            assert(sum_price_squared_volume(bars) == self.cumulative_v2 + v * (hlc * hlc));
            assert(0 <= v * hlc <= 0x1_0000_0000int * m) by (nonlinear_arith)
                requires 0 <= v <= 0xffff_ffffint, 0 <= hlc <= m;
            assert(m * m == 0x8ffffffee00000009int) by (nonlinear_arith)
                requires m == 3 * 0xffff_ffffint;
            assert(0 <= hlc * hlc <= m * m) by (nonlinear_arith)
                requires 0 <= hlc <= m;
            assert(0 <= v * (hlc * hlc) <= 0x1_0000_0000int * (m * m)) by (nonlinear_arith)
                requires 0 <= v <= 0xffff_ffffint, 0 <= hlc * hlc <= m * m;
            assert(sum_volume(bars) * m <= 0x4000_0000int * m) by (nonlinear_arith)
                requires sum_volume(bars) <= 0x4000_0000int, m > 0;
            assert(sum_volume(bars) * (m * m) <= 0x4000_0000int * (m * m)) by (nonlinear_arith)
                requires sum_volume(bars) <= 0x4000_0000int, m > 0;
        }
        let volume: u64 = self.cumulative_volume + d.volume as u64;
        let total: u128 = self.cumulative_total + v * hlc;
        let v2: u128 = self.cumulative_v2 + v * (hlc * hlc);
        let ghost m = hlc_limit();
        let mut vwap: u64 = 0;
        let mut std_dev: u64 = 0;
        if volume > 0 {
            let vol: u128 = volume as u128;
            assert(total <= vol * m);
            assert(vol * v2 <= (vol * vol) * (m * m)) by (nonlinear_arith)
                requires 0 <= v2 <= vol * (m * m), 0 <= vol;
            assert((vol * vol) * (m * m) < 0x1_0000_0000_0000_0000_0000_0000_0000_0000int)
                by (nonlinear_arith)
                requires 0 < vol <= 0x4000_0000, m == 3 * 0xffff_ffffint;
            assert(total * total <= (vol * m) * (vol * m)) by (nonlinear_arith)
                requires 0 <= total <= vol * m;
            assert((vol * m) * (vol * m) == (vol * vol) * (m * m)) by (nonlinear_arith);
            assert((total as int) / (3 * (vol as int)) <= total) by (nonlinear_arith)
                requires 0 <= total, 0 < vol;
            assert(total <= 0x4000_0000 * m) by (nonlinear_arith)
                requires total <= vol * m, 0 < vol <= 0x4000_0000, m > 0;
            vwap = (total / (3 * vol)) as u64;
            let vq: u128 = vol * v2;
            let pp: u128 = total * total;
            if vq > pp {
                let variance: u128 = (vq - pp) / (9 * (vol * vol));
                std_dev = isqrt(variance);
            }
        }
        self.cumulative_volume = volume;
        self.cumulative_total = total;
        self.cumulative_v2 = v2;
        self.vwap = vwap;
        self.std_dev = std_dev;
        self.bars = Ghost(bars);
        vwap
    }

    /// Returns the instance to its state right after construction.
    pub fn reset(&mut self)
        ensures
            final(self).wf(),
            final(self)@ == Seq::<Bar>::empty(),
            final(self).spec_period() == old(self).spec_period(),
    {
        self.cumulative_total = 0;
        self.cumulative_volume = 0;
        self.cumulative_v2 = 0;
        self.vwap = 0;
        self.std_dev = 0;
        self.bars = Ghost(Seq::empty());
    }
}

impl Default for VolumeWeightedAveragePrice {
    /// An empty session labelled with period 14.
    fn default() -> (r: Self)
        ensures
            r.wf(),
            r@ == Seq::<Bar>::empty(),
            r.spec_period() == 14,
    {
        VolumeWeightedAveragePrice::new(14).unwrap()
    }
}

} // verus!
