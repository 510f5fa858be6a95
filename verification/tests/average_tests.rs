use kvo::average::{MovingAverage, MovingAverageType};

#[test]
fn simple_mean_is_exact() {
    let mut ma = MovingAverage::new(MovingAverageType::Simple, 3).unwrap();
    assert_eq!(ma.value(), 0);
    assert!(!ma.initialized());
    ma.update(2);
    assert_eq!(ma.value(), 2);
    assert!(!ma.initialized());
    ma.update(4);
    assert_eq!(ma.value(), 3);
    assert!(!ma.initialized());
    ma.update(6);
    assert_eq!(ma.value(), 4);
    assert!(ma.initialized());
    ma.update(8);
    // the window now holds 4, 6, 8
    assert_eq!(ma.value(), 6);
    assert!(ma.initialized());
}

#[test]
fn exponential_recurrence_is_exact() {
    let mut ma = MovingAverage::new(MovingAverageType::Exponential, 2).unwrap();
    ma.update(10);
    // the first sample seeds the value
    assert_eq!(ma.value(), 10);
    assert!(!ma.initialized());
    ma.update(16);
    // 10 + (2 * (16 - 10)) / (2 + 1) = 14
    assert_eq!(ma.value(), 14);
    assert!(ma.initialized());
}

#[test]
fn wilder_recurrence_is_exact() {
    let mut ma = MovingAverage::new(MovingAverageType::Wilder, 4).unwrap();
    ma.update(8);
    assert_eq!(ma.value(), 8);
    ma.update(16);
    // 8 + (16 - 8) / 4 = 10
    assert_eq!(ma.value(), 10);
    assert!(!ma.initialized());
}

#[test]
fn quotients_truncate_toward_zero() {
    let mut ma = MovingAverage::new(MovingAverageType::Wilder, 2).unwrap();
    ma.update(0);
    ma.update(-5);
    // 0 + (-5) / 2 truncates to -2, not -3
    assert_eq!(ma.value(), -2);
}

#[test]
fn average_rejects_zero_period() {
    assert!(MovingAverage::new(MovingAverageType::Simple, 0).is_err());
    assert!(MovingAverage::new(MovingAverageType::Exponential, 0).is_err());
    assert!(MovingAverage::new(MovingAverageType::Wilder, 0).is_err());
}

#[test]
fn average_reset_restores_construction_state() {
    let mut ma = MovingAverage::new(MovingAverageType::Simple, 2).unwrap();
    ma.update(5);
    ma.update(7);
    assert!(ma.initialized());
    ma.reset();
    assert_eq!(ma.value(), 0);
    assert_eq!(ma.count, 0);
    assert!(!ma.initialized());
    assert_eq!(ma.period, 2);
    assert_eq!(ma.ma_type, MovingAverageType::Simple);
    ma.update(9);
    assert_eq!(ma.value(), 9);
}

#[test]
fn average_saturates_instead_of_overflowing() {
    let mut ma = MovingAverage::new(MovingAverageType::Simple, 2).unwrap();
    ma.update(i64::MAX);
    ma.update(i64::MAX);
    // the window sum saturates; the mean divides it back down
    assert_eq!(ma.value(), i64::MAX / 2);
    let mut ema = MovingAverage::new(MovingAverageType::Exponential, 1).unwrap();
    ema.update(i64::MIN);
    ema.update(i64::MAX);
    assert!(ema.initialized());
}
