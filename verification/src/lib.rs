//! A streaming Klinger Volume Oscillator (KVO) over fixed-point bar data.
//!
//! The engine works on plain `i64` fixed-point magnitudes (prices and volumes
//! in integer ticks) so that every update is exact and total: all arithmetic
//! saturates at the `i64` range instead of overflowing, and every division is
//! guarded. Each update folds one bar's high/low/close/volume into a signed
//! volume-force sample, feeds it through a fast and a slow moving average,
//! and exposes their difference as the oscillator value, smoothed once more
//! by a signal-line moving average.

pub mod arith;
pub mod average;
pub mod indicator;
pub mod oscillator;
pub mod text;
