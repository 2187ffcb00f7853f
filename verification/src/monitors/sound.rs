//! Sound output: the machine stays awake while something is playing.
use vstd::prelude::*;
use crate::config::Config;
use crate::monitors::{InhibitFactor, MonitorState};

verus! {

/// Watches the output level of the default audio device.
#[derive(Debug, Clone, Copy, PartialEq, Eq)]
pub struct SoundMonitor;

impl SoundMonitor {
    pub fn new() -> (r: Self) {
        SoundMonitor
    }

    pub fn default_factor(&self) -> (r: InhibitFactor)
        ensures
            r == InhibitFactor::Sound,
    {
        InhibitFactor::Sound
    }

    pub fn is_enabled(&self, config: &Config) -> (r: bool)
        ensures
            r == config.sound.enabled,
    {
        config.sound.enabled
    }

    /// `audible` tells whether the output level is at or above the level
    /// that counts as sound.
    pub fn sample(&self, audible: bool) -> (r: MonitorState)
        ensures
            r == (MonitorState { inhibit: audible, factor: InhibitFactor::Sound }),
    {
        MonitorState { inhibit: audible, factor: InhibitFactor::Sound }
    }
}

} // verus!
