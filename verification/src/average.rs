//! Incremental moving averages over fixed-point samples.
//!
//! A `MovingAverage` absorbs one sample per `update` and keeps a smoothed
//! `value`. Three variants are provided: a simple (windowed) mean, the usual
//! exponential recurrence with `alpha = 2 / (period + 1)`, and Wilder's
//! recurrence with `alpha = 1 / period`. Each variant counts as warmed up
//! (`initialized`) after exactly `period` samples; the exponential variants
//! seed their value with the first sample so the recurrence starts from data
//! rather than from zero.

use vstd::prelude::*;

use crate::arith::{clip64, sat_add64, sat_div64, tdiv};
use crate::indicator::IndicatorError;

verus! {

/// The smoothing recurrence a `MovingAverage` applies.
#[derive(Clone, Copy, Debug, PartialEq, Eq, Structural)]
pub enum MovingAverageType {
    /// Arithmetic mean of the last `period` samples.
    Simple,
    /// Exponential smoothing with `alpha = 2 / (period + 1)`.
    Exponential,
    /// Wilder's exponential smoothing with `alpha = 1 / period`.
    Wilder,
}

/// The mathematical state of a moving average.
#[verifier::ext_equal]
pub struct MaView {
    /// Which recurrence is applied.
    pub kind: MovingAverageType,
    /// Warm-up length and smoothing horizon; at least 1.
    pub period: int,
    /// Number of samples absorbed, counted no further than `period`.
    pub count: int,
    /// The current smoothed output; 0 before any input.
    pub value: i64,
    /// The retained samples, oldest first (simple variant only).
    pub window: Seq<i64>,
}

/// Structural soundness of a moving-average state.
pub open spec fn ma_wf(v: MaView) -> bool {
    &&& v.period >= 1
    &&& 0 <= v.count <= v.period
    &&& (v.kind is Simple ==> v.window.len() == v.count)
    &&& (!(v.kind is Simple) ==> v.window.len() == 0)
}

/// Whether the warm-up condition is met: `period` samples absorbed.
pub open spec fn ma_initialized(v: MaView) -> bool {
    v.count >= v.period
}

/// The construction-time state: nothing absorbed, value 0.
pub open spec fn ma_init(kind: MovingAverageType, period: int) -> MaView {
    MaView { kind, period, count: 0, value: 0, window: Seq::empty() }
}

/// Saturating sum of a sequence of samples, folded left to right.
pub open spec fn sat_seq_sum(s: Seq<i64>) -> int
    decreases s.len(),
{
    if s.len() == 0 {
        0
    } else {
        sat_add64(sat_seq_sum(s.drop_last()), s.last() as int)
    }
}

/// The window after absorbing `x`: append, dropping the oldest sample once
/// `period` samples are held.
pub open spec fn ma_next_window(v: MaView, x: i64) -> Seq<i64> {
    if v.window.len() >= v.period {
        v.window.drop_first().push(x)
    } else {
        v.window.push(x)
    }
}

/// One smoothing step `value + (mul * (x - value)) / den`, with the quotient
/// truncated toward zero and every operation saturating.
pub open spec fn smooth_next(value: i64, x: i64, mul: int, den: int) -> i64
    recommends
        den >= 1,
{
    sat_add64(value as int, clip64(tdiv(mul * (x - value), den))) as i64
}

/// The state after absorbing one sample, per variant.
pub open spec fn ma_step(v: MaView, x: i64) -> MaView
    recommends
        ma_wf(v),
{
    match v.kind {
        MovingAverageType::Simple => {
            let w = ma_next_window(v, x);
            MaView {
                count: w.len() as int,
                value: sat_div64(sat_seq_sum(w), w.len() as int) as i64,
                window: w,
                ..v
            }
        },
        MovingAverageType::Exponential => MaView {
            count: if v.count >= v.period {
                v.period
            } else {
                v.count + 1
            },
            value: if v.count == 0 {
                x
            } else {
                smooth_next(v.value, x, 2, v.period + 1)
            },
            ..v
        },
        MovingAverageType::Wilder => MaView {
            count: if v.count >= v.period {
                v.period
            } else {
                v.count + 1
            },
            value: if v.count == 0 {
                x
            } else {
                smooth_next(v.value, x, 1, v.period)
            },
            ..v
        },
    }
}

/// One step preserves structural soundness.
pub proof fn lemma_ma_step_wf(v: MaView, x: i64)
    requires
        ma_wf(v),
    ensures
        ma_wf(ma_step(v, x)),
{
}

/// Warm-up is monotone: once `initialized`, a step never clears it.
pub proof fn lemma_ma_step_initialized_monotone(v: MaView, x: i64)
    requires
        ma_wf(v),
        ma_initialized(v),
    ensures
        ma_initialized(ma_step(v, x)),
{
}

/// Each step raises `count` by one until `period` is reached, so warm-up
/// completes exactly when the `period`-th sample arrives.
pub proof fn lemma_ma_step_count(v: MaView, x: i64)
    requires
        ma_wf(v),
    ensures
        ma_step(v, x).count == if v.count < v.period {
            v.count + 1
        } else {
            v.period
        },
        ma_initialized(ma_step(v, x)) <==> v.count >= v.period - 1,
{
}

/// An incremental smoothing primitive over fixed-point samples.
pub struct MovingAverage {
    /// Which recurrence is applied.
    pub ma_type: MovingAverageType,
    /// Warm-up length and smoothing horizon; at least 1.
    pub period: usize,
    /// Number of samples absorbed, counted no further than `period`.
    pub count: usize,
    /// The current smoothed output; 0 before any input.
    pub value: i64,
    /// The retained samples, oldest first (simple variant only).
    pub window: Vec<i64>,
}

impl View for MovingAverage {
    type V = MaView;

    open spec fn view(&self) -> MaView {
        MaView {
            kind: self.ma_type,
            period: self.period as int,
            count: self.count as int,
            value: self.value,
            window: self.window@,
        }
    }
}

impl MovingAverage {
    /// Structural soundness of this instance.
    pub open spec fn wf(&self) -> bool {
        ma_wf(self@)
    }

    /// Creates an average of the given variant; a zero `period` is an
    /// invalid configuration and is rejected here, never at update time.
    pub fn new(ma_type: MovingAverageType, period: usize) -> (r: Result<Self, IndicatorError>)
        ensures
            r is Ok <==> period >= 1,
            r matches Ok(m) ==> m@ == ma_init(ma_type, period as int) && m.wf(),
            r is Err ==> r->Err_0 == IndicatorError::InvalidConfiguration,
    {
        if period == 0 {
            Err(IndicatorError::InvalidConfiguration)
        } else {
            let m = MovingAverage { ma_type, period, count: 0, value: 0, window: Vec::new() };
            proof {
                assert(m@ =~= ma_init(ma_type, period as int));
            }
            Ok(m)
        }
    }

    /// Whether the variant's warm-up condition is met.
    pub fn initialized(&self) -> (r: bool)
        ensures
            r == ma_initialized(self@),
    {
        self.count >= self.period
    }

    /// The current smoothed output.
    pub fn value(&self) -> (r: i64)
        ensures
            r == self@.value,
    {
        self.value
    }

    /// Absorbs one sample and recomputes the smoothed value.
    pub fn update(&mut self, x: i64)
        requires
            old(self).wf(),
        ensures
            final(self)@ == ma_step(old(self)@, x),
            final(self).wf(),
    {
        match self.ma_type {
            MovingAverageType::Simple => {
                if self.window.len() >= self.period {
                    self.window.remove(0);
                    proof {
                        assert(self.window@ =~= old(self)@.window.drop_first());
                    }
                }
                self.window.push(x);
                proof {
                    assert(self.window@ =~= ma_next_window(old(self)@, x));
                }
                self.count = self.window.len();
                let ghost w = self.window@;
                let mut acc: i64 = 0;
                let mut i: usize = 0;
                while i < self.window.len()
                    invariant
                        self.window@ == w,
                        0 <= i <= w.len(),
                        acc as int == sat_seq_sum(w.take(i as int)),
                    decreases w.len() - i,
                {
                    proof {
                        assert(w.take(i as int + 1).drop_last() =~= w.take(i as int));
                        assert(w.take(i as int + 1).last() == w[i as int]);
                    }
                    acc = crate::arith::add_sat(acc, self.window[i]);
                    i = i + 1;
                }
                proof {
                    assert(w.take(w.len() as int) =~= w);
                }
                self.value = crate::arith::div_trunc_sat(acc as i128, self.window.len() as i128);
                proof {
                    assert(self@ =~= ma_step(old(self)@, x));
                }
            },
            MovingAverageType::Exponential => {
                if self.count == 0 {
                    self.value = x;
                } else {
                    let num: i128 = 2 * (x as i128 - self.value as i128);
                    let den: i128 = self.period as i128 + 1;
                    let delta = crate::arith::div_trunc_sat(num, den);
                    self.value = crate::arith::add_sat(self.value, delta);
                }
                if self.count < self.period {
                    self.count = self.count + 1;
                }
                proof {
                    assert(self@ =~= ma_step(old(self)@, x));
                }
            },
            MovingAverageType::Wilder => {
                if self.count == 0 {
                    self.value = x;
                } else {
                    let num: i128 = x as i128 - self.value as i128;
                    let den: i128 = self.period as i128;
                    let delta = crate::arith::div_trunc_sat(num, den);
                    self.value = crate::arith::add_sat(self.value, delta);
                }
                if self.count < self.period {
                    self.count = self.count + 1;
                }
                proof {
                    assert(self@ =~= ma_step(old(self)@, x));
                }
            },
        }
    }

    /// Clears all accumulated state back to the construction-time condition,
    /// preserving `period` and `ma_type`.
    pub fn reset(&mut self)
        ensures
            final(self)@ == ma_init(old(self)@.kind, old(self)@.period),
            old(self).wf() ==> final(self).wf(),
    {
        self.count = 0;
        self.value = 0;
        self.window = Vec::new();
        proof {
            assert(self@ =~= ma_init(old(self)@.kind, old(self)@.period));
        }
    }
}

} // verus!
