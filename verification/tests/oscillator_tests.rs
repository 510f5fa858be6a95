use kvo::average::MovingAverageType;
use kvo::indicator::Indicator;
use kvo::indicator::IndicatorError;
use kvo::oscillator::{Bar, KlingerVolumeOscillator};

const BARS: [(i64, i64, i64, i64); 6] = [
    (10, 8, 9, 100),
    (12, 9, 11, 150),
    (11, 9, 10, 120),
    (13, 10, 12, 200),
    (14, 11, 13, 180),
    (15, 12, 14, 220),
];

fn fresh() -> KlingerVolumeOscillator {
    KlingerVolumeOscillator::new(2, 5, 3, None).unwrap()
}

#[test]
fn new_starts_uninitialized_with_zero_value() {
    let k = fresh();
    assert!(!k.initialized());
    assert!(!k.has_inputs());
    assert_eq!(k.value, 0);
    assert_eq!(k.fast_period, 2);
    assert_eq!(k.slow_period, 5);
    assert_eq!(k.signal_period, 3);
    assert_eq!(k.ma_type, MovingAverageType::Exponential);
    assert_eq!(k.name(), "KlingerVolumeOscillator");
}

#[test]
fn new_rejects_any_zero_period() {
    for (f, s, g) in [(0, 5, 3), (2, 0, 3), (2, 5, 0), (0, 0, 0)] {
        match KlingerVolumeOscillator::new(f, s, g, None) {
            Err(e) => assert_eq!(e, IndicatorError::InvalidConfiguration),
            Ok(_) => panic!("a zero period must be rejected"),
        }
    }
}

#[test]
fn first_update_only_seeds() {
    let mut k = fresh();
    k.update_raw(10, 8, 9, 100);
    assert!(k.has_inputs());
    assert!(!k.initialized());
    assert_eq!(k.value, 0);
}

#[test]
fn early_updates_are_exact() {
    let mut k = fresh();
    k.update_raw(10, 8, 9, 100);
    k.update_raw(12, 9, 11, 150);
    // sums 27 then 32: trend stays +1; dm = 3, cm = 0 + 3 = 3;
    // ratio term |200 * 3 / 3 - 100| = 100; volume force 150 * 100 = 15000
    assert_eq!(k.trend, 1);
    assert_eq!(k.cm, 3);
    assert_eq!(k.fast_ma.value, 15000);
    assert_eq!(k.slow_ma.value, 15000);
    k.update_raw(11, 9, 10, 120);
    // sum falls to 30: trend flips to -1; cm restarts at dm + previous dm = 2 + 3
    assert_eq!(k.trend, -1);
    assert_eq!(k.cm, 5);
    // ratio term |200 * 2 / 5 - 100| = 20; volume force -(120 * 20) = -2400
    // fast: 15000 + (2 * (-2400 - 15000)) / 3 = 3400
    assert_eq!(k.fast_ma.value, 3400);
}

#[test]
fn flat_range_bar_is_guarded() {
    let mut k = KlingerVolumeOscillator::new(1, 1, 1, None).unwrap();
    k.update_raw(5, 5, 5, 10);
    k.update_raw(5, 5, 5, 7);
    // dm = 0 and cm = 0: the ratio is taken as 0, so the force is 7 * 100
    assert_eq!(k.fast_ma.value, 700);
    assert!(k.initialized());
}

#[test]
fn reset_restores_fresh_state() {
    let mut k = fresh();
    for (h, l, c, v) in BARS {
        k.update_raw(h, l, c, v);
    }
    assert!(k.initialized());
    k.reset();
    assert_eq!(k.value, 0);
    assert!(!k.initialized());
    assert!(!k.has_inputs());
    assert_eq!(k.fast_period, 2);
    assert_eq!(k.slow_period, 5);
    assert_eq!(k.signal_period, 3);
    assert_eq!(k.ma_type, MovingAverageType::Exponential);
    // a reset instance is indistinguishable from a fresh one
    let mut f = fresh();
    for (h, l, c, v) in BARS {
        k.update_raw(h, l, c, v);
        f.update_raw(h, l, c, v);
        assert_eq!(k.value, f.value);
        assert_eq!(k.trend, f.trend);
        assert_eq!(k.cm, f.cm);
        assert_eq!(k.initialized(), f.initialized());
    }
}

#[test]
fn identical_streams_give_identical_values() {
    let mut a = fresh();
    let mut b = fresh();
    for (h, l, c, v) in BARS {
        a.update_raw(h, l, c, v);
        b.update_raw(h, l, c, v);
        assert_eq!(a.value, b.value);
        assert_eq!(a.trend, b.trend);
        assert_eq!(a.cm, b.cm);
        assert_eq!(a.fast_ma.value, b.fast_ma.value);
        assert_eq!(a.slow_ma.value, b.slow_ma.value);
        assert_eq!(a.signal_ma.value, b.signal_ma.value);
    }
}

#[test]
fn warmup_flips_exactly_once() {
    let mut k = fresh();
    let mut flips = 0;
    let mut was = k.initialized();
    let mut flip_at = 0;
    for i in 0..12 {
        let base = 10 + i as i64;
        k.update_raw(base + 2, base, base + 1, 100 + i as i64);
        let now = k.initialized();
        if now != was {
            assert!(now, "initialized may never fall back outside reset");
            flips += 1;
            flip_at = i + 1;
        }
        was = now;
    }
    assert_eq!(flips, 1);
    // one seeding bar, then the slow average needs its five samples
    assert_eq!(flip_at, 6);
}

#[test]
fn flat_sum_bar_keeps_trend() {
    let mut k = fresh();
    k.update_raw(10, 8, 9, 100);
    k.update_raw(12, 9, 11, 150);
    assert_eq!(k.trend, 1);
    // same high+low+close sum as the previous bar: 32
    k.update_raw(13, 9, 10, 80);
    assert_eq!(k.trend, 1);
    k.update_raw(9, 8, 9, 50);
    assert_eq!(k.trend, -1);
    // flat again at sum 26
    k.update_raw(10, 8, 8, 60);
    assert_eq!(k.trend, -1);
}

#[test]
fn example_run_warms_up_with_nonzero_value() {
    let mut k = fresh();
    let mut values = Vec::new();
    for (h, l, c, v) in BARS {
        k.update_raw(h, l, c, v);
        values.push(k.value);
    }
    assert!(k.initialized());
    assert_ne!(k.value, 0);
    // feeding the same fields through bars gives the identical trajectory
    let mut kb = fresh();
    let mut bar_values = Vec::new();
    for (h, l, c, v) in BARS {
        let bar = Bar { high: h, low: l, close: c, volume: v };
        kb.handle_bar(&bar);
        bar_values.push(kb.value);
    }
    assert_eq!(values, bar_values);
}

#[test]
fn value_tracks_the_two_averages() {
    let mut k = fresh();
    for (h, l, c, v) in BARS {
        k.update_raw(h, l, c, v);
        if k.initialized() {
            assert_eq!(k.value, k.fast_ma.value - k.slow_ma.value);
        } else {
            assert_eq!(k.value, 0);
        }
    }
}

#[test]
fn repr_lists_the_configuration_in_order() {
    let k = fresh();
    let r = k.repr();
    assert_eq!(r, "KlingerVolumeOscillator(2,5,3,EXPONENTIAL)");
    let s = KlingerVolumeOscillator::new(14, 34, 13, Some(MovingAverageType::Simple)).unwrap();
    assert_eq!(s.repr(), "KlingerVolumeOscillator(14,34,13,SIMPLE)");
    let w = KlingerVolumeOscillator::new(1, 2, 3, Some(MovingAverageType::Wilder)).unwrap();
    assert_eq!(w.repr(), "KlingerVolumeOscillator(1,2,3,WILDER)");
}

#[test]
fn simple_variant_runs_the_same_machine() {
    let mut k = KlingerVolumeOscillator::new(2, 3, 2, Some(MovingAverageType::Simple)).unwrap();
    let mut flips = 0;
    let mut was = false;
    for (h, l, c, v) in BARS {
        k.update_raw(h, l, c, v);
        let now = k.initialized();
        if now != was {
            flips += 1;
        }
        was = now;
        if now {
            assert_eq!(k.value, k.fast_ma.value - k.slow_ma.value);
        } else {
            assert_eq!(k.value, 0);
        }
    }
    assert_eq!(flips, 1);
    assert!(k.initialized());
}

#[test]
fn extreme_inputs_saturate_without_failing() {
    let mut k = KlingerVolumeOscillator::new(1, 1, 1, None).unwrap();
    k.update_raw(i64::MAX, i64::MIN, i64::MAX, i64::MAX);
    k.update_raw(i64::MAX, i64::MIN, i64::MIN, i64::MAX);
    assert!(k.initialized());
    assert_eq!(k.value, k.fast_ma.value.saturating_sub(k.slow_ma.value));
    k.update_raw(0, 0, 0, 0);
    assert!(k.initialized());
}

fn feed<I: Indicator>(ind: &mut I, bars: &[(i64, i64, i64, i64)]) {
    for &(h, l, c, v) in bars {
        ind.update_raw(h, l, c, v);
    }
}

#[test]
fn indicator_capability_drives_the_oscillator() {
    let mut k = fresh();
    feed(&mut k, &BARS);
    assert!(Indicator::has_inputs(&k));
    assert!(Indicator::initialized(&k));
    assert_eq!(Indicator::name(&k), "KlingerVolumeOscillator");
    Indicator::reset(&mut k);
    assert!(!k.has_inputs());
    assert_eq!(k.value, 0);
    let bar = Bar { high: 10, low: 8, close: 9, volume: 100 };
    Indicator::handle_bar(&mut k, &bar);
    assert!(k.has_inputs());
}

#[test]
fn decimal_rendering_is_exact() {
    assert_eq!(kvo::text::dec_string(0), "0");
    assert_eq!(kvo::text::dec_string(9), "9");
    assert_eq!(kvo::text::dec_string(905), "905");
    assert_eq!(kvo::text::dec_string(u64::MAX), "18446744073709551615");
}
