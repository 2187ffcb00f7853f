//! CPU load: the machine stays awake while it is at or above its threshold.
use vstd::prelude::*;
use crate::config::Config;
use crate::monitors::threshold::{holds, next_last_active, ThresholdMonitor};
use crate::monitors::{InhibitFactor, MonitorState};

verus! {

/// Watches the CPU load.
#[derive(Debug, Clone, Copy, PartialEq, Eq)]
pub struct CpuMonitor(ThresholdMonitor);

impl View for CpuMonitor {
    type V = Option<u64>;

    /// When the CPU load was last at or above its threshold.
    closed spec fn view(&self) -> Option<u64> {
        self.0@
    }
}

impl CpuMonitor {
    #[verifier::type_invariant]
    spec fn well_formed(&self) -> bool {
        self.0.factor_spec() == InhibitFactor::Cpu
    }

    pub fn new() -> (r: Self)
        ensures
            r@ is None,
    {
        CpuMonitor(ThresholdMonitor::new(InhibitFactor::Cpu))
    }

    pub fn default_factor(&self) -> (r: InhibitFactor)
        ensures
            r == InhibitFactor::Cpu,
    {
        proof {
            use_type_invariant(self);
        }
        self.0.factor()
    }

    pub fn is_enabled(&self, config: &Config) -> (r: bool)
        ensures
            r == config.cpu.enabled,
    {
        proof {
            use_type_invariant(self);
        }
        self.0.is_enabled(config)
    }

    /// Takes one sample at `now_ms`; `active` tells whether the CPU load is at or
    /// above its threshold.
    pub fn sample(&mut self, config: &Config, active: bool, now_ms: u64) -> (r: MonitorState)
        ensures
            final(self)@ == next_last_active(old(self)@, active, now_ms),
            r == (MonitorState {
                inhibit: active || holds(final(self)@, now_ms, config.cpu.delay_seconds),
                factor: InhibitFactor::Cpu,
            }),
    {
        proof {
            use_type_invariant(&*self);
        }
        self.0.sample(config, active, now_ms)
    }
}

} // verus!
