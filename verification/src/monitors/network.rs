//! Network traffic: the machine stays awake while it is at or above its threshold.
use vstd::prelude::*;
use crate::config::Config;
use crate::monitors::threshold::{holds, next_last_active, ThresholdMonitor};
use crate::monitors::{InhibitFactor, MonitorState};

verus! {

/// Watches the network traffic.
#[derive(Debug, Clone, Copy, PartialEq, Eq)]
pub struct NetworkMonitor(ThresholdMonitor);

impl View for NetworkMonitor {
    type V = Option<u64>;

    /// When the network traffic was last at or above its threshold.
    closed spec fn view(&self) -> Option<u64> {
        self.0@
    }
}

impl NetworkMonitor {
    #[verifier::type_invariant]
    spec fn well_formed(&self) -> bool {
        self.0.factor_spec() == InhibitFactor::Network
    }

    pub fn new() -> (r: Self)
        ensures
            r@ is None,
    {
        NetworkMonitor(ThresholdMonitor::new(InhibitFactor::Network))
    }

    pub fn default_factor(&self) -> (r: InhibitFactor)
        ensures
            r == InhibitFactor::Network,
    {
        proof {
            use_type_invariant(self);
        }
        self.0.factor()
    }

    pub fn is_enabled(&self, config: &Config) -> (r: bool)
        ensures
            r == config.network.enabled,
    {
        proof {
            use_type_invariant(self);
        }
        self.0.is_enabled(config)
    }

    /// Takes one sample at `now_ms`; `active` tells whether the network traffic is at or
    /// above its threshold.
    pub fn sample(&mut self, config: &Config, active: bool, now_ms: u64) -> (r: MonitorState)
        ensures
            final(self)@ == next_last_active(old(self)@, active, now_ms),
            r == (MonitorState {
                inhibit: active || holds(final(self)@, now_ms, config.network.delay_seconds),
                factor: InhibitFactor::Network,
            }),
    {
        proof {
            use_type_invariant(&*self);
        }
        self.0.sample(config, active, now_ms)
    }
}

} // verus!
