//! The Klinger Volume Oscillator: a streaming indicator that turns each
//! high/low/close/volume observation into a signed volume-force sample,
//! smooths it with a fast and a slow moving average, and exposes their
//! difference, itself smoothed once more into a signal line.
//!
//! All quantities are fixed-point `i64` magnitudes; every update is a total
//! function of the previous state and the bar (see `kvo_step`).

use vstd::prelude::*;

use crate::arith::{iabs, clip64, sat_add64, sat_mul64, sat_sub64, tdiv};
use crate::average::{
    MaView, MovingAverage, MovingAverageType, ma_init, ma_initialized, ma_step, ma_wf,
    lemma_ma_step_initialized_monotone, lemma_ma_step_wf,
};
use crate::indicator::IndicatorError;
use crate::text::dec_seq;

verus! {

/// One OHLCV observation: the four magnitudes the oscillator consumes, in
/// fixed-point ticks. Stands in for the richer bar type of the data-model
/// layer, which owns parsing and construction.
#[derive(Clone, Copy, Debug, PartialEq, Eq, Structural)]
pub struct Bar {
    /// Highest traded price of the interval.
    pub high: i64,
    /// Lowest traded price of the interval.
    pub low: i64,
    /// Last traded price of the interval.
    pub close: i64,
    /// Traded volume of the interval; conventionally non-negative.
    pub volume: i64,
}

/// The mathematical state of the oscillator.
#[verifier::ext_equal]
pub struct KvoView {
    /// Configured fast warm-up length; at least 1.
    pub fast_period: int,
    /// Configured slow warm-up length; at least 1.
    pub slow_period: int,
    /// Configured signal warm-up length; at least 1.
    pub signal_period: int,
    /// The smoothing variant shared by the three internal averages.
    pub ma_type: MovingAverageType,
    /// The fast average over volume-force samples.
    pub fast: MaView,
    /// The slow average over volume-force samples.
    pub slow: MaView,
    /// The average over the oscillator's own output.
    pub signal: MaView,
    /// The previous bar's high (meaningful once `has_inputs`).
    pub prev_high: i64,
    /// The previous bar's low (meaningful once `has_inputs`).
    pub prev_low: i64,
    /// The previous bar's close (meaningful once `has_inputs`).
    pub prev_close: i64,
    /// Direction inferred from consecutive high+low+close sums: +1 or -1.
    pub trend: i64,
    /// Sum of bar ranges since the last trend reversal.
    pub cm: i64,
    /// The oscillator output: fast minus slow once both are warm, else 0.
    pub value: i64,
    /// Whether any bar has been consumed.
    pub has_inputs: bool,
    /// Whether both the fast and the slow average are past warm-up.
    pub initialized: bool,
}

/// Structural soundness of an oscillator state.
pub open spec fn kvo_wf(v: KvoView) -> bool {
    &&& v.fast_period >= 1
    &&& v.slow_period >= 1
    &&& v.signal_period >= 1
    &&& v.fast.kind == v.ma_type
    &&& v.slow.kind == v.ma_type
    &&& v.signal.kind == v.ma_type
    &&& v.fast.period == v.fast_period
    &&& v.slow.period == v.slow_period
    &&& v.signal.period == v.signal_period
    &&& ma_wf(v.fast)
    &&& ma_wf(v.slow)
    &&& ma_wf(v.signal)
    &&& (v.trend == 1 || v.trend == -1)
    &&& v.initialized == (ma_initialized(v.fast) && ma_initialized(v.slow))
    &&& (!v.initialized ==> v.value == 0)
    &&& (!v.has_inputs ==> !v.initialized)
}

/// The construction-time state for a configuration: nothing consumed,
/// trend seeded to +1 by convention, value 0, both flags down.
pub open spec fn kvo_init(
    fast_period: int,
    slow_period: int,
    signal_period: int,
    kind: MovingAverageType,
) -> KvoView {
    KvoView {
        fast_period,
        slow_period,
        signal_period,
        ma_type: kind,
        fast: ma_init(kind, fast_period),
        slow: ma_init(kind, slow_period),
        signal: ma_init(kind, signal_period),
        prev_high: 0,
        prev_low: 0,
        prev_close: 0,
        trend: 1,
        cm: 0,
        value: 0,
        has_inputs: false,
        initialized: false,
    }
}

/// The range-ratio factor of the volume force:
/// `|200 * dm / cm - 100|` (that is, `|2 * (dm/cm) - 1| * 100` carried out in
/// fixed point), with the ratio taken as 0 when `cm` is 0 so that a flat
/// range never surfaces a division by zero.
pub open spec fn ratio_term(dm: int, cm: int) -> int {
    if cm == 0 {
        100
    } else {
        clip64(iabs(clip64(tdiv(200 * dm, cm)) - 100))
    }
}

/// The trend after a bar: +1 if the high+low+close sum rose, -1 if it fell,
/// and the previous trend unchanged on a tie.
pub open spec fn next_trend(v: KvoView, high: i64, low: i64, close: i64) -> int {
    let cur = high + low + close;
    let prev = v.prev_high + v.prev_low + v.prev_close;
    if cur > prev {
        1
    } else if cur < prev {
        -1
    } else {
        v.trend as int
    }
}

/// The state after one `update_raw` call.
///
/// The first bar only seeds the previous-bar snapshot. Every later bar
/// derives the range `dm = high - low`, infers the trend, extends the
/// cumulative measurement `cm` (or restarts it over the two bars spanning a
/// reversal), scales the volume into a signed volume force, feeds it to the
/// fast and the slow average, and, once both are warm, exposes their
/// difference and feeds it to the signal average.
pub open spec fn kvo_step(v: KvoView, high: i64, low: i64, close: i64, volume: i64) -> KvoView
    recommends
        kvo_wf(v),
{
    if !v.has_inputs {
        KvoView { prev_high: high, prev_low: low, prev_close: close, has_inputs: true, ..v }
    } else {
        let dm = sat_sub64(high as int, low as int);
        let prev_dm = sat_sub64(v.prev_high as int, v.prev_low as int);
        let trend = next_trend(v, high, low, close);
        let cm = if trend == v.trend as int {
            sat_add64(v.cm as int, dm)
        } else {
            sat_add64(dm, prev_dm)
        };
        let vf = sat_mul64(sat_mul64(volume as int, ratio_term(dm, cm)), trend);
        let fast = ma_step(v.fast, vf as i64);
        let slow = ma_step(v.slow, vf as i64);
        let init = ma_initialized(fast) && ma_initialized(slow);
        let value: i64 = if init {
            sat_sub64(fast.value as int, slow.value as int) as i64
        } else {
            0
        };
        let signal = if init {
            ma_step(v.signal, value)
        } else {
            v.signal
        };
        KvoView {
            fast,
            slow,
            signal,
            prev_high: high,
            prev_low: low,
            prev_close: close,
            trend: trend as i64,
            cm: cm as i64,
            value,
            has_inputs: true,
            initialized: init,
            ..v
        }
    }
}

/// The state after a whole sequence of `(high, low, close, volume)` bars.
pub open spec fn kvo_run(v: KvoView, bars: Seq<(i64, i64, i64, i64)>) -> KvoView
    decreases bars.len(),
{
    if bars.len() == 0 {
        v
    } else {
        kvo_run(kvo_step(v, bars[0].0, bars[0].1, bars[0].2, bars[0].3), bars.drop_first())
    }
}

/// One step preserves structural soundness.
pub proof fn lemma_kvo_step_wf(v: KvoView, high: i64, low: i64, close: i64, volume: i64)
    requires
        kvo_wf(v),
    ensures
        kvo_wf(kvo_step(v, high, low, close, volume)),
{
    if v.has_inputs {
        let s = kvo_step(v, high, low, close, volume);
        assert(ma_wf(s.fast) && ma_wf(s.slow) && ma_wf(s.signal)) by {
            let dm = sat_sub64(high as int, low as int);
            let prev_dm = sat_sub64(v.prev_high as int, v.prev_low as int);
            let trend = next_trend(v, high, low, close);
            let cm = if trend == v.trend as int {
                sat_add64(v.cm as int, dm)
            } else {
                sat_add64(dm, prev_dm)
            };
            let vf = sat_mul64(sat_mul64(volume as int, ratio_term(dm, cm)), trend);
            lemma_ma_step_wf(v.fast, vf as i64);
            lemma_ma_step_wf(v.slow, vf as i64);
            lemma_ma_step_wf(v.signal, s.value);
        }
    }
}

/// The oscillator outputs along a sequence of bars: the `value` after each
/// update, in order.
pub open spec fn kvo_values(v: KvoView, bars: Seq<(i64, i64, i64, i64)>) -> Seq<i64>
    decreases bars.len(),
{
    if bars.len() == 0 {
        Seq::empty()
    } else {
        let s = kvo_step(v, bars[0].0, bars[0].1, bars[0].2, bars[0].3);
        seq![s.value] + kvo_values(s, bars.drop_first())
    }
}

/// Determinism: the state and the whole value trajectory are functions of
/// the initial state and the bar sequence alone, so two identically
/// configured instances fed the same bars agree bit for bit at every step.
pub proof fn lemma_kvo_run_deterministic(a: KvoView, b: KvoView, bars: Seq<(i64, i64, i64, i64)>)
    requires
        a == b,
    ensures
        kvo_run(a, bars) == kvo_run(b, bars),
        kvo_values(a, bars) == kvo_values(b, bars),
{
}

/// The very first update only seeds state: afterwards `has_inputs` is up,
/// `initialized` is still down, and the value is still 0.
pub proof fn lemma_first_update(
    fast_period: int,
    slow_period: int,
    signal_period: int,
    kind: MovingAverageType,
    high: i64,
    low: i64,
    close: i64,
    volume: i64,
)
    requires
        fast_period >= 1,
        slow_period >= 1,
        signal_period >= 1,
    ensures
        ({
            let s = kvo_step(kvo_init(fast_period, slow_period, signal_period, kind),
                high, low, close, volume);
            s.has_inputs && !s.initialized && s.value == 0
        }),
{
}

/// Warm-up is monotone: once `initialized`, no further update clears it;
/// only `reset` does.
pub proof fn lemma_kvo_initialized_monotone(
    v: KvoView,
    high: i64,
    low: i64,
    close: i64,
    volume: i64,
)
    requires
        kvo_wf(v),
        v.initialized,
    ensures
        kvo_step(v, high, low, close, volume).initialized,
{
    if v.has_inputs {
        let s = kvo_step(v, high, low, close, volume);
        let dm = sat_sub64(high as int, low as int);
        let prev_dm = sat_sub64(v.prev_high as int, v.prev_low as int);
        let trend = next_trend(v, high, low, close);
        let cm = if trend == v.trend as int {
            sat_add64(v.cm as int, dm)
        } else {
            sat_add64(dm, prev_dm)
        };
        let vf = sat_mul64(sat_mul64(volume as int, ratio_term(dm, cm)), trend);
        lemma_ma_step_initialized_monotone(v.fast, vf as i64);
        lemma_ma_step_initialized_monotone(v.slow, vf as i64);
    }
}

/// Warm-up is monotone along whole runs: once `initialized`, it stays up
/// through any further sequence of bars, until `reset`.
pub proof fn lemma_kvo_run_initialized_monotone(v: KvoView, bars: Seq<(i64, i64, i64, i64)>)
    requires
        kvo_wf(v),
        v.initialized,
    ensures
        kvo_run(v, bars).initialized,
        kvo_wf(kvo_run(v, bars)),
    decreases bars.len(),
{
    if bars.len() > 0 {
        let s = kvo_step(v, bars[0].0, bars[0].1, bars[0].2, bars[0].3);
        lemma_kvo_step_wf(v, bars[0].0, bars[0].1, bars[0].2, bars[0].3);
        lemma_kvo_initialized_monotone(v, bars[0].0, bars[0].1, bars[0].2, bars[0].3);
        lemma_kvo_run_initialized_monotone(s, bars.drop_first());
    }
}

/// No update touches the configuration: the four construction-time fields
/// survive any run, so a later `reset` restores the construction-time state
/// for that same configuration.
pub proof fn lemma_kvo_run_preserves_config(v: KvoView, bars: Seq<(i64, i64, i64, i64)>)
    ensures
        ({
            let s = kvo_run(v, bars);
            &&& s.fast_period == v.fast_period
            &&& s.slow_period == v.slow_period
            &&& s.signal_period == v.signal_period
            &&& s.ma_type == v.ma_type
        }),
    decreases bars.len(),
{
    if bars.len() > 0 {
        let s = kvo_step(v, bars[0].0, bars[0].1, bars[0].2, bars[0].3);
        lemma_kvo_run_preserves_config(s, bars.drop_first());
    }
}

/// How many volume-force samples a run of `n` bars feeds to the fast and
/// slow averages: every bar but a leading seed bar produces one.
pub open spec fn fed_samples(v: KvoView, n: int) -> int {
    if v.has_inputs || n == 0 {
        n
    } else {
        n - 1
    }
}

/// Along any run the fast and slow sample counts grow by one per fed bar,
/// up to their periods.
pub proof fn lemma_kvo_run_counts(v: KvoView, bars: Seq<(i64, i64, i64, i64)>)
    requires
        kvo_wf(v),
    ensures
        ({
            let s = kvo_run(v, bars);
            &&& s.fast.count == vstd::math::min(
                v.fast.count + fed_samples(v, bars.len() as int),
                v.fast_period,
            )
            &&& s.slow.count == vstd::math::min(
                v.slow.count + fed_samples(v, bars.len() as int),
                v.slow_period,
            )
            &&& s.has_inputs == (v.has_inputs || bars.len() > 0)
            &&& kvo_wf(s)
        }),
    decreases bars.len(),
{
    if bars.len() > 0 {
        let s1 = kvo_step(v, bars[0].0, bars[0].1, bars[0].2, bars[0].3);
        lemma_kvo_step_wf(v, bars[0].0, bars[0].1, bars[0].2, bars[0].3);
        if v.has_inputs {
            let dm = sat_sub64(bars[0].0 as int, bars[0].1 as int);
            let prev_dm = sat_sub64(v.prev_high as int, v.prev_low as int);
            let trend = next_trend(v, bars[0].0, bars[0].1, bars[0].2);
            let cm = if trend == v.trend as int {
                sat_add64(v.cm as int, dm)
            } else {
                sat_add64(dm, prev_dm)
            };
            let vf = sat_mul64(sat_mul64(bars[0].3 as int, ratio_term(dm, cm)), trend);
            crate::average::lemma_ma_step_count(v.fast, vf as i64);
            crate::average::lemma_ma_step_count(v.slow, vf as i64);
        }
        lemma_kvo_run_counts(s1, bars.drop_first());
    }
}

/// From a freshly constructed state, warm-up completes exactly at the update
/// numbered one (for the seeding bar) plus the larger of the fast and slow
/// periods, and not before.
pub proof fn lemma_kvo_warmup_time(
    fast_period: int,
    slow_period: int,
    signal_period: int,
    kind: MovingAverageType,
    bars: Seq<(i64, i64, i64, i64)>,
)
    requires
        fast_period >= 1,
        slow_period >= 1,
        signal_period >= 1,
    ensures
        kvo_run(kvo_init(fast_period, slow_period, signal_period, kind), bars).initialized
            <==> bars.len() >= 1 + vstd::math::max(fast_period, slow_period),
{
    let v = kvo_init(fast_period, slow_period, signal_period, kind);
    lemma_kvo_run_counts(v, bars);
    lemma_kvo_run_preserves_config(v, bars);
    let s = kvo_run(v, bars);
    let fed = fed_samples(v, bars.len() as int);
    assert(ma_initialized(s.fast) <==> fed >= fast_period);
    assert(ma_initialized(s.slow) <==> fed >= slow_period);
}

/// `initialized` goes up exactly at the update where both the fast and the
/// slow average first report their warm-up complete.
pub proof fn lemma_kvo_initialized_exactly_when_warm(
    v: KvoView,
    high: i64,
    low: i64,
    close: i64,
    volume: i64,
)
    requires
        kvo_wf(v),
        v.has_inputs,
    ensures
        ({
            let s = kvo_step(v, high, low, close, volume);
            s.initialized == (ma_initialized(s.fast) && ma_initialized(s.slow))
        }),
{
}

/// Trend persistence on flat bars: a bar whose high+low+close sum equals the
/// previous bar's leaves the trend sign unchanged.
pub proof fn lemma_flat_bar_keeps_trend(v: KvoView, high: i64, low: i64, close: i64, volume: i64)
    requires
        v.has_inputs,
        high + low + close == v.prev_high + v.prev_low + v.prev_close,
    ensures
        kvo_step(v, high, low, close, volume).trend == v.trend,
{
}

/// After every update the value tracks the two averages: their (saturating)
/// difference once both are warm, and 0 before that.
pub proof fn lemma_value_tracks_averages(v: KvoView, high: i64, low: i64, close: i64, volume: i64)
    requires
        kvo_wf(v),
    ensures
        ({
            let s = kvo_step(v, high, low, close, volume);
            &&& s.initialized ==> s.value as int == sat_sub64(s.fast.value as int, s.slow.value as int)
            &&& !s.initialized ==> s.value == 0
        }),
{
    if v.has_inputs {
    } else {
        assert(kvo_step(v, high, low, close, volume).value == v.value);
    }
}

/// The moving-average variant named by an optional argument: the standard
/// exponential variant when omitted.
pub open spec fn resolved_ma_type(t: Option<MovingAverageType>) -> MovingAverageType {
    match t {
        Some(k) => k,
        None => MovingAverageType::Exponential,
    }
}

/// The display name of a smoothing variant.
pub open spec fn ma_type_name_seq(k: MovingAverageType) -> Seq<char> {
    match k {
        MovingAverageType::Simple => "SIMPLE"@,
        MovingAverageType::Exponential => "EXPONENTIAL"@,
        MovingAverageType::Wilder => "WILDER"@,
    }
}

/// The string form of an oscillator: its name and its four configuration
/// values in construction order.
pub open spec fn kvo_repr_seq(v: KvoView) -> Seq<char> {
    "KlingerVolumeOscillator("@ + dec_seq(v.fast_period) + ","@ + dec_seq(v.slow_period) + ","@
        + dec_seq(v.signal_period) + ","@ + ma_type_name_seq(v.ma_type) + ")"@
}

/// The streaming Klinger Volume Oscillator.
pub struct KlingerVolumeOscillator {
    /// Configured fast warm-up length; at least 1.
    pub fast_period: usize,
    /// Configured slow warm-up length; at least 1.
    pub slow_period: usize,
    /// Configured signal warm-up length; at least 1.
    pub signal_period: usize,
    /// The smoothing variant shared by the three internal averages.
    pub ma_type: MovingAverageType,
    /// The fast average over volume-force samples.
    pub fast_ma: MovingAverage,
    /// The slow average over volume-force samples.
    pub slow_ma: MovingAverage,
    /// The average over the oscillator's own output.
    pub signal_ma: MovingAverage,
    /// The previous bar's high (meaningful once `has_inputs`).
    pub previous_high: i64,
    /// The previous bar's low (meaningful once `has_inputs`).
    pub previous_low: i64,
    /// The previous bar's close (meaningful once `has_inputs`).
    pub previous_close: i64,
    /// Direction inferred from consecutive high+low+close sums: +1 or -1.
    pub trend: i64,
    /// Sum of bar ranges since the last trend reversal.
    pub cm: i64,
    /// The oscillator output: fast minus slow once both are warm, else 0.
    pub value: i64,
    /// Whether any bar has been consumed.
    pub has_inputs: bool,
    /// Whether both the fast and the slow average are past warm-up.
    pub initialized: bool,
}

impl View for KlingerVolumeOscillator {
    type V = KvoView;

    open spec fn view(&self) -> KvoView {
        KvoView {
            fast_period: self.fast_period as int,
            slow_period: self.slow_period as int,
            signal_period: self.signal_period as int,
            ma_type: self.ma_type,
            fast: self.fast_ma@,
            slow: self.slow_ma@,
            signal: self.signal_ma@,
            prev_high: self.previous_high,
            prev_low: self.previous_low,
            prev_close: self.previous_close,
            trend: self.trend,
            cm: self.cm,
            value: self.value,
            has_inputs: self.has_inputs,
            initialized: self.initialized,
        }
    }
}

impl KlingerVolumeOscillator {
    /// Structural soundness of this instance.
    pub open spec fn wf(&self) -> bool {
        kvo_wf(self@)
    }

    /// Creates an oscillator; `ma_type` defaults to the exponential variant
    /// when omitted. A zero period is an invalid configuration and is
    /// rejected here, never at update time.
    pub fn new(
        fast_period: usize,
        slow_period: usize,
        signal_period: usize,
        ma_type: Option<MovingAverageType>,
    ) -> (r: Result<Self, IndicatorError>)
        ensures
            r is Ok <==> (fast_period >= 1 && slow_period >= 1 && signal_period >= 1),
            r matches Ok(k) ==> k@ == kvo_init(
                fast_period as int,
                slow_period as int,
                signal_period as int,
                resolved_ma_type(ma_type),
            ) && k.wf() && !k.initialized && !k.has_inputs && k.value == 0,
            r is Err ==> r->Err_0 == IndicatorError::InvalidConfiguration,
    {
        if fast_period == 0 || slow_period == 0 || signal_period == 0 {
            return Err(IndicatorError::InvalidConfiguration);
        }
        let kind = match ma_type {
            Some(k) => k,
            None => MovingAverageType::Exponential,
        };
        let fast_ma = match MovingAverage::new(kind, fast_period) {
            Ok(m) => m,
            Err(e) => { return Err(e); },
        };
        let slow_ma = match MovingAverage::new(kind, slow_period) {
            Ok(m) => m,
            Err(e) => { return Err(e); },
        };
        let signal_ma = match MovingAverage::new(kind, signal_period) {
            Ok(m) => m,
            Err(e) => { return Err(e); },
        };
        let k = KlingerVolumeOscillator {
            fast_period,
            slow_period,
            signal_period,
            ma_type: kind,
            fast_ma,
            slow_ma,
            signal_ma,
            previous_high: 0,
            previous_low: 0,
            previous_close: 0,
            trend: 1,
            cm: 0,
            value: 0,
            has_inputs: false,
            initialized: false,
        };
        proof {
            assert(k@ =~= kvo_init(
                fast_period as int,
                slow_period as int,
                signal_period as int,
                resolved_ma_type(ma_type),
            ));
        }
        Ok(k)
    }

    /// Feeds one observation; see `kvo_step` for the exact effect.
    pub fn update_raw(&mut self, high: i64, low: i64, close: i64, volume: i64)
        requires
            old(self).wf(),
        ensures
            final(self)@ == kvo_step(old(self)@, high, low, close, volume),
            final(self).wf(),
            final(self).has_inputs,
    {
        proof {
            lemma_kvo_step_wf(old(self)@, high, low, close, volume);
        }
        if !self.has_inputs {
            self.previous_high = high;
            self.previous_low = low;
            self.previous_close = close;
            self.has_inputs = true;
            proof {
                assert(self@ =~= kvo_step(old(self)@, high, low, close, volume));
            }
            return;
        }
        let dm = crate::arith::sub_sat(high, low);
        let prev_dm = crate::arith::sub_sat(self.previous_high, self.previous_low);
        let cur_sum: i128 = high as i128 + low as i128 + close as i128;
        let prev_sum: i128 = self.previous_high as i128 + self.previous_low as i128
            + self.previous_close as i128;
        let trend: i64 = if cur_sum > prev_sum {
            1
        } else if cur_sum < prev_sum {
            -1
        } else {
            self.trend
        };
        let cm = if trend == self.trend {
            crate::arith::add_sat(self.cm, dm)
        } else {
            crate::arith::add_sat(dm, prev_dm)
        };
        let q = Self::ratio_term_exec(dm, cm);
        let vf = crate::arith::mul_sat(crate::arith::mul_sat(volume, q), trend);
        self.fast_ma.update(vf);
        self.slow_ma.update(vf);
        let init = self.fast_ma.initialized() && self.slow_ma.initialized();
        if init {
            self.value = crate::arith::sub_sat(self.fast_ma.value(), self.slow_ma.value());
            self.signal_ma.update(self.value);
        } else {
            self.value = 0;
        }
        self.previous_high = high;
        self.previous_low = low;
        self.previous_close = close;
        self.trend = trend;
        self.cm = cm;
        self.has_inputs = true;
        self.initialized = init;
        proof {
            assert(self@ =~= kvo_step(old(self)@, high, low, close, volume));
        }
    }

    /// The range-ratio factor of the volume force; see `ratio_term`.
    fn ratio_term_exec(dm: i64, cm: i64) -> (r: i64)
        ensures
            r as int == ratio_term(dm as int, cm as int),
    {
        if cm == 0 {
            return 100;
        }
        let q = crate::arith::div_trunc_sat(200 * (dm as i128), cm as i128);
        let d: i128 = q as i128 - 100;
        let a: i128 = if d < 0 {
            -d
        } else {
            d
        };
        if a > i64::MAX as i128 {
            i64::MAX
        } else {
            a as i64
        }
    }

    /// Feeds one bar: extracts the four magnitudes and forwards them to
    /// `update_raw`, with no further semantics.
    pub fn handle_bar(&mut self, bar: &Bar)
        requires
            old(self).wf(),
        ensures
            final(self)@ == kvo_step(old(self)@, bar.high, bar.low, bar.close, bar.volume),
            final(self).wf(),
            final(self).has_inputs,
    {
        self.update_raw(bar.high, bar.low, bar.close, bar.volume);
    }

    /// Clears all accumulated state back to the construction-time condition,
    /// preserving the four configuration fields: afterwards the instance is
    /// indistinguishable from a freshly constructed one.
    pub fn reset(&mut self)
        requires
            old(self).wf(),
        ensures
            final(self)@ == kvo_init(
                old(self)@.fast_period,
                old(self)@.slow_period,
                old(self)@.signal_period,
                old(self)@.ma_type,
            ),
            final(self).wf(),
    {
        self.fast_ma.reset();
        self.slow_ma.reset();
        self.signal_ma.reset();
        self.previous_high = 0;
        self.previous_low = 0;
        self.previous_close = 0;
        self.trend = 1;
        self.cm = 0;
        self.value = 0;
        self.has_inputs = false;
        self.initialized = false;
        proof {
            assert(self@ =~= kvo_init(
                old(self)@.fast_period,
                old(self)@.slow_period,
                old(self)@.signal_period,
                old(self)@.ma_type,
            ));
        }
    }

    /// The indicator's display name.
    pub fn name(&self) -> (r: String)
        ensures
            r@ == "KlingerVolumeOscillator"@,
    {
        String::from_str("KlingerVolumeOscillator")
    }

    /// The string form: the name and the four configuration values in
    /// construction order.
    pub fn repr(&self) -> (r: String)
        ensures
            r@ == kvo_repr_seq(self@),
    {
        let mut r = String::from_str("KlingerVolumeOscillator(");
        r.append(crate::text::dec_string(self.fast_period as u64).as_str());
        r.append(",");
        r.append(crate::text::dec_string(self.slow_period as u64).as_str());
        r.append(",");
        r.append(crate::text::dec_string(self.signal_period as u64).as_str());
        r.append(",");
        r.append(self.ma_type_name().as_str());
        r.append(")");
        proof {
            assert(r@ =~= kvo_repr_seq(self@));
        }
        r
    }

    /// The display name of the configured smoothing variant.
    pub fn ma_type_name(&self) -> (r: String)
        ensures
            r@ == ma_type_name_seq(self@.ma_type),
    {
        match self.ma_type {
            MovingAverageType::Simple => String::from_str("SIMPLE"),
            MovingAverageType::Exponential => String::from_str("EXPONENTIAL"),
            MovingAverageType::Wilder => String::from_str("WILDER"),
        }
    }

    /// Whether any bar has been consumed.
    pub fn has_inputs(&self) -> (r: bool)
        ensures
            r == self@.has_inputs,
    {
        self.has_inputs
    }

    /// Whether both the fast and the slow average are past warm-up.
    pub fn initialized(&self) -> (r: bool)
        ensures
            r == self@.initialized,
    {
        self.initialized
    }
}

} // verus!
