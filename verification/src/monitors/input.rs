//! User input: the machine stays awake while the user was active recently.
use vstd::prelude::*;
use crate::config::Config;
use crate::monitors::{InhibitFactor, MonitorState};

verus! {

/// Watches the time since the last keyboard or mouse input.
#[derive(Debug, Clone, Copy, PartialEq, Eq)]
pub struct InputMonitor;

impl InputMonitor {
    pub fn new() -> (r: Self) {
        InputMonitor
    }

    pub fn default_factor(&self) -> (r: InhibitFactor)
        ensures
            r == InhibitFactor::Input,
    {
        InhibitFactor::Input
    }

    /// Input is always watched.
    pub fn is_enabled(&self, config: &Config) -> (r: bool)
        ensures
            r,
    {
        true
    }

    /// `idle_seconds` is the time since the last input. The user counts as
    /// active while it is below the sleep delay.
    pub fn sample(&self, config: &Config, idle_seconds: u64) -> (r: MonitorState)
        ensures
            r == (MonitorState {
                inhibit: idle_seconds < config.sleep.delay_seconds,
                factor: InhibitFactor::Input,
            }),
    {
        MonitorState {
            inhibit: idle_seconds < config.sleep.delay_seconds,
            factor: InhibitFactor::Input,
        }
    }
}

} // verus!
