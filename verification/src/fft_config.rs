//! Tracking of the sample rate that the spectrum analysis is configured
//! for, and the decision of how a changed configuration reaches the
//! analyser.

use vstd::prelude::*;

verus! {

/// Size of the fixed analysis window, in samples.
pub const FIXED_FFT_SIZE: usize = 2048;

/// Keeps the sample rate the analysis is configured for.
pub struct FFTConfigManager {
    current_sample_rate: u32,
}

impl View for FFTConfigManager {
    type V = u32;

    closed spec fn view(&self) -> u32 {
        self.current_sample_rate
    }
}

/// The rate after an update to `new_rate` and whether the update changed
/// it (and so the analyser must be rebuilt).
pub open spec fn rate_update(current: u32, new_rate: u32) -> (u32, bool) {
    (new_rate, new_rate != current)
}

impl FFTConfigManager {
    /// A manager configured for the given sample rate.
    pub fn new(sample_rate: u32) -> (m: Self)
        ensures
            m@ == sample_rate,
    {
        FFTConfigManager { current_sample_rate: sample_rate }
    }

    /// Switches to a new sample rate; returns whether it differs from the
    /// current one, that is whether the analyser must be rebuilt.
    pub fn update_sample_rate(&mut self, new_sample_rate: u32) -> (changed: bool)
        ensures
            (final(self)@, changed) == rate_update(old(self)@, new_sample_rate),
    {
        if new_sample_rate == self.current_sample_rate {
            return false;
        }
        self.current_sample_rate = new_sample_rate;
        true
    }

    /// The sample rate the analysis is configured for.
    pub fn get_sample_rate(&self) -> (r: u32)
        ensures
            r == self@,
    {
        self.current_sample_rate
    }
}

/// Updating twice to the same rate changes nothing the second time, and
/// an update to the current rate is no change.
pub proof fn lemma_rate_update_settles(current: u32, new_rate: u32)
    ensures
        rate_update(current, new_rate).0 == new_rate,
        !rate_update(rate_update(current, new_rate).0, new_rate).1,
        !rate_update(current, current).1,
        rate_update(current, current).0 == current,
{
}

/// How a configuration change reaches the analyser.
#[derive(Clone, Copy, Debug, PartialEq, Eq, Structural)]
pub enum ConfigUpdate {
    /// Nothing to do.
    Keep,
    /// Build a new analyser (the number of bars changed).
    Recreate,
    /// Hand the new parameters to the running analyser.
    Reconfigure,
}

/// The action for a configuration change, after a frame was analysed.
/// A change is pending when the configured bar count differs from the
/// number of bars just shown, or when another parameter differs from the
/// analyser's; a pending change recreates the analyser when its bar count
/// differs from the analyser's, and reconfigures it otherwise.
pub open spec fn config_update(
    configured_bars: usize,
    shown_bars: usize,
    analyser_bars: usize,
    params_differ: bool,
) -> ConfigUpdate {
    if configured_bars != shown_bars || params_differ {
        if configured_bars != analyser_bars {
            ConfigUpdate::Recreate
        } else {
            ConfigUpdate::Reconfigure
        }
    } else {
        ConfigUpdate::Keep
    }
}

/// Decides how the current configuration reaches the analyser.
/// `params_differ` says whether any parameter other than the bar count
/// differs from the analyser's.
pub fn plan_config_update(
    configured_bars: usize,
    shown_bars: usize,
    analyser_bars: usize,
    params_differ: bool,
) -> (u: ConfigUpdate)
    ensures
        u == config_update(configured_bars, shown_bars, analyser_bars, params_differ),
{
    if configured_bars != shown_bars || params_differ {
        if configured_bars != analyser_bars {
            ConfigUpdate::Recreate
        } else {
            ConfigUpdate::Reconfigure
        }
    } else {
        ConfigUpdate::Keep
    }
}

} // verus!
