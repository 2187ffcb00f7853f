//! Disk traffic: the machine stays awake while it is at or above its threshold.
use vstd::prelude::*;
use crate::config::Config;
use crate::monitors::threshold::{holds, next_last_active, ThresholdMonitor};
use crate::monitors::{InhibitFactor, MonitorState};

verus! {

/// Watches the disk write traffic.
#[derive(Debug, Clone, Copy, PartialEq, Eq)]
pub struct DiskWriteMonitor(ThresholdMonitor);

impl View for DiskWriteMonitor {
    type V = Option<u64>;

    /// When the disk write traffic was last at or above its threshold.
    closed spec fn view(&self) -> Option<u64> {
        self.0@
    }
}

impl DiskWriteMonitor {
    #[verifier::type_invariant]
    spec fn well_formed(&self) -> bool {
        self.0.factor_spec() == InhibitFactor::DiskWrite
    }

    pub fn new() -> (r: Self)
        ensures
            r@ is None,
    {
        DiskWriteMonitor(ThresholdMonitor::new(InhibitFactor::DiskWrite))
    }

    pub fn default_factor(&self) -> (r: InhibitFactor)
        ensures
            r == InhibitFactor::DiskWrite,
    {
        proof {
            use_type_invariant(self);
        }
        self.0.factor()
    }

    pub fn is_enabled(&self, config: &Config) -> (r: bool)
        ensures
            r == config.disk.write_enabled,
    {
        proof {
            use_type_invariant(self);
        }
        self.0.is_enabled(config)
    }

    /// Takes one sample at `now_ms`; `active` tells whether the disk write traffic is at or
    /// above its threshold.
    pub fn sample(&mut self, config: &Config, active: bool, now_ms: u64) -> (r: MonitorState)
        ensures
            final(self)@ == next_last_active(old(self)@, active, now_ms),
            r == (MonitorState {
                inhibit: active || holds(final(self)@, now_ms, config.disk.write_delay_seconds),
                factor: InhibitFactor::DiskWrite,
            }),
    {
        proof {
            use_type_invariant(&*self);
        }
        self.0.sample(config, active, now_ms)
    }
}

/// Watches the disk read traffic.
#[derive(Debug, Clone, Copy, PartialEq, Eq)]
pub struct DiskReadMonitor(ThresholdMonitor);

impl View for DiskReadMonitor {
    type V = Option<u64>;

    /// When the disk read traffic was last at or above its threshold.
    closed spec fn view(&self) -> Option<u64> {
        self.0@
    }
}

impl DiskReadMonitor {
    #[verifier::type_invariant]
    spec fn well_formed(&self) -> bool {
        self.0.factor_spec() == InhibitFactor::DiskRead
    }

    pub fn new() -> (r: Self)
        ensures
            r@ is None,
    {
        DiskReadMonitor(ThresholdMonitor::new(InhibitFactor::DiskRead))
    }

    pub fn default_factor(&self) -> (r: InhibitFactor)
        ensures
            r == InhibitFactor::DiskRead,
    {
        proof {
            use_type_invariant(self);
        }
        self.0.factor()
    }

    pub fn is_enabled(&self, config: &Config) -> (r: bool)
        ensures
            r == config.disk.read_enabled,
    {
        proof {
            use_type_invariant(self);
        }
        self.0.is_enabled(config)
    }

    /// Takes one sample at `now_ms`; `active` tells whether the disk read traffic is at or
    /// above its threshold.
    pub fn sample(&mut self, config: &Config, active: bool, now_ms: u64) -> (r: MonitorState)
        ensures
            final(self)@ == next_last_active(old(self)@, active, now_ms),
            r == (MonitorState {
                inhibit: active || holds(final(self)@, now_ms, config.disk.read_delay_seconds),
                factor: InhibitFactor::DiskRead,
            }),
    {
        proof {
            use_type_invariant(&*self);
        }
        self.0.sample(config, active, now_ms)
    }
}

} // verus!
