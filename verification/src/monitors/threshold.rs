//! A reading compared with a threshold, held for a while after it was last
//! reached.
//!
//! The CPU, network and disk monitors all work the same way: the activity
//! is present when the reading is at or above the threshold, and it stays
//! present for `delay_seconds` whole seconds after the reading was last at
//! or above it. Times are milliseconds on a monotonic clock.
use vstd::prelude::*;
use crate::config::Config;
use crate::monitors::{InhibitFactor, MonitorState};

verus! {

/// When the reading was last at or above its threshold.
#[derive(Debug, Clone, Copy, PartialEq, Eq)]
pub struct ThresholdState {
    last_active: Option<u64>,
}

impl View for ThresholdState {
    type V = Option<u64>;

    closed spec fn view(&self) -> Option<u64> {
        self.last_active
    }
}

impl Default for ThresholdState {
    fn default() -> (r: Self)
        ensures
            r@ is None,
    {
        ThresholdState { last_active: None }
    }
}

impl ThresholdState {
    /// When the reading was last at or above its threshold (milliseconds).
    pub fn last_active(&self) -> (r: Option<u64>)
        ensures
            r == self@,
    {
        self.last_active
    }
}

/// Whole seconds from `since` to `now` (zero when `now` is earlier).
pub open spec fn elapsed_secs(since: u64, now: u64) -> int {
    if now >= since {
        (now - since) / 1000
    } else {
        0
    }
}

/// The hold-off is still running at `now`.
pub open spec fn holds(last_active: Option<u64>, now: u64, delay_seconds: u64) -> bool {
    match last_active {
        Some(t) => elapsed_secs(t, now) < delay_seconds,
        None => false,
    }
}

/// When the reading was last active after a sample at `now`.
pub open spec fn next_last_active(last_active: Option<u64>, active: bool, now: u64) -> Option<u64> {
    if active {
        Some(now)
    } else {
        last_active
    }
}

/// Whole seconds from `since` to `now_ms`, saturating at zero.
pub fn elapsed_seconds(since: u64, now_ms: u64) -> (r: u64)
    ensures
        r == elapsed_secs(since, now_ms),
    no_unwind
{
    if now_ms >= since {
        (now_ms - since) / 1000
    } else {
        0
    }
}

/// Takes one sample: `active` tells whether the reading is at or above its
/// threshold at `now_ms`. Returns whether the activity is present: the
/// reading is active now, or it was active less than `delay_seconds` whole
/// seconds ago.
pub fn evaluate(state: &mut ThresholdState, active: bool, now_ms: u64, delay_seconds: u64) -> (r:
    bool)
    ensures
        final(state)@ == next_last_active(old(state)@, active, now_ms),
        r == (active || holds(final(state)@, now_ms, delay_seconds)),
    no_unwind
{
    if active {
        state.last_active = Some(now_ms);
    }
    let held = match state.last_active {
        Some(t) => elapsed_seconds(t, now_ms) < delay_seconds,
        None => false,
    };
    active || held
}

/// Switch and hold-off time of the threshold monitor for `factor`; factors
/// that have no threshold are off.
pub open spec fn threshold_settings(config: Config, factor: InhibitFactor) -> (bool, u64) {
    match factor {
        InhibitFactor::Cpu => (config.cpu.enabled, config.cpu.delay_seconds),
        InhibitFactor::Network => (config.network.enabled, config.network.delay_seconds),
        InhibitFactor::DiskWrite => (config.disk.write_enabled, config.disk.write_delay_seconds),
        InhibitFactor::DiskRead => (config.disk.read_enabled, config.disk.read_delay_seconds),
        _ => (false, 0),
    }
}

fn settings_of(config: &Config, factor: InhibitFactor) -> (r: (bool, u64))
    ensures
        r == threshold_settings(*config, factor),
    no_unwind
{
    match factor {
        InhibitFactor::Cpu => (config.cpu.enabled, config.cpu.delay_seconds),
        InhibitFactor::Network => (config.network.enabled, config.network.delay_seconds),
        InhibitFactor::DiskWrite => (config.disk.write_enabled, config.disk.write_delay_seconds),
        InhibitFactor::DiskRead => (config.disk.read_enabled, config.disk.read_delay_seconds),
        _ => (false, 0),
    }
}

/// A monitor that compares one reading with a threshold and holds the
/// activity for the configured delay. Which reading and which settings it
/// uses follows from its factor.
#[derive(Debug, Clone, Copy, PartialEq, Eq)]
pub struct ThresholdMonitor {
    state: ThresholdState,
    factor: InhibitFactor,
}

impl View for ThresholdMonitor {
    type V = Option<u64>;

    /// When the monitored reading was last at or above its threshold.
    closed spec fn view(&self) -> Option<u64> {
        self.state@
    }
}

impl ThresholdMonitor {
    /// The factor the monitor reports.
    pub closed spec fn factor_spec(&self) -> InhibitFactor {
        self.factor
    }

    /// A monitor for `factor` with no activity seen yet.
    pub fn new(factor: InhibitFactor) -> (r: Self)
        ensures
            r.factor_spec() == factor,
            r@ is None,
    {
        ThresholdMonitor { state: ThresholdState::default(), factor }
    }

    /// The factor the monitor reports.
    pub fn factor(&self) -> (r: InhibitFactor)
        ensures
            r == self.factor_spec(),
    {
        self.factor
    }

    pub fn default_factor(&self) -> (r: InhibitFactor)
        ensures
            r == self.factor_spec(),
    {
        self.factor
    }

    pub fn is_enabled(&self, config: &Config) -> (r: bool)
        ensures
            r == threshold_settings(*config, self.factor_spec()).0,
    {
        settings_of(config, self.factor).0
    }

    /// Takes one sample at `now_ms`; `active` tells whether the reading is
    /// at or above its threshold.
    pub fn sample(&mut self, config: &Config, active: bool, now_ms: u64) -> (r: MonitorState)
        ensures
            final(self).factor_spec() == old(self).factor_spec(),
            final(self)@ == next_last_active(old(self)@, active, now_ms),
            r == (MonitorState {
                inhibit: active || holds(
                    final(self)@,
                    now_ms,
                    threshold_settings(*config, old(self).factor_spec()).1,
                ),
                factor: old(self).factor_spec(),
            }),
        no_unwind
    {
        let delay = settings_of(config, self.factor).1;
        let inhibit = evaluate(&mut self.state, active, now_ms, delay);
        MonitorState { inhibit, factor: self.factor }
    }
}

/// A sample where the reading is active always reports the activity, and
/// the activity is then held for every later sample less than
/// `delay_seconds` whole seconds after it.
pub proof fn law_hold_after_active(last: Option<u64>, t1: u64, t2: u64, delay_seconds: u64)
    requires
        t1 <= t2,
        (t2 - t1) / 1000 < delay_seconds,
    ensures
        holds(next_last_active(last, true, t1), t2, delay_seconds),
        holds(next_last_active(next_last_active(last, true, t1), false, t2), t2, delay_seconds),
{
}

/// Without any active sample, nothing is ever held.
pub proof fn law_no_history_no_hold(now: u64, delay_seconds: u64)
    ensures
        !holds(next_last_active(None, false, now), now, delay_seconds),
{
}

/// With a hold-off of zero seconds, an inactive sample never reports the
/// activity.
pub proof fn law_zero_delay_no_hold(last: Option<u64>, now: u64)
    ensures
        !holds(next_last_active(last, false, now), now, 0),
{
}

} // verus!
