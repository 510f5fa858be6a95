//! The capability every streaming indicator offers: feed raw values, feed a
//! bar, report readiness, reset. Each conforming type names its own
//! well-formedness predicate, which every feeding operation preserves; its
//! inherent methods state the exact per-type effect.

use vstd::prelude::*;

use crate::oscillator::{Bar, KlingerVolumeOscillator};

verus! {

/// The configuration errors an indicator can raise, all at construction and
/// never at update time.
#[derive(Clone, Copy, Debug, PartialEq, Eq, Structural)]
pub enum IndicatorError {
    /// A period was zero.
    InvalidConfiguration,
}

/// The shared contract of a streaming indicator.
pub trait Indicator {
    /// Structural soundness of the indicator's state; established at
    /// construction and preserved by every operation below.
    spec fn ind_wf(&self) -> bool;

    /// Whether any observation has been consumed.
    fn has_inputs(&self) -> bool;

    /// Whether the warm-up condition is met and the output is meaningful.
    fn initialized(&self) -> bool;

    /// The indicator's display name.
    fn name(&self) -> String;

    /// Feeds one raw observation.
    fn update_raw(&mut self, high: i64, low: i64, close: i64, volume: i64)
        requires
            old(self).ind_wf(),
        ensures
            final(self).ind_wf(),
    ;

    /// Feeds one bar.
    fn handle_bar(&mut self, bar: &Bar)
        requires
            old(self).ind_wf(),
        ensures
            final(self).ind_wf(),
    ;

    /// Clears all accumulated state, preserving the configuration.
    fn reset(&mut self)
        requires
            old(self).ind_wf(),
        ensures
            final(self).ind_wf(),
    ;
}

impl Indicator for KlingerVolumeOscillator {
    open spec fn ind_wf(&self) -> bool {
        self.wf()
    }

    fn has_inputs(&self) -> bool {
        KlingerVolumeOscillator::has_inputs(self)
    }

    fn initialized(&self) -> bool {
        KlingerVolumeOscillator::initialized(self)
    }

    fn name(&self) -> String {
        KlingerVolumeOscillator::name(self)
    }

    fn update_raw(&mut self, high: i64, low: i64, close: i64, volume: i64) {
        KlingerVolumeOscillator::update_raw(self, high, low, close, volume);
    }

    fn handle_bar(&mut self, bar: &Bar) {
        KlingerVolumeOscillator::handle_bar(self, bar);
    }

    fn reset(&mut self) {
        KlingerVolumeOscillator::reset(self);
    }
}

} // verus!
