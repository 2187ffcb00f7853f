//! Plain values exchanged with the platform.
use vstd::prelude::*;

verus! {

/// Which power transition the machine is put into.
#[derive(Debug, Clone, Copy, PartialEq, Eq, Structural)]
pub enum SleepType {
    Sleep,
    Hibernate,
}

/// The time since the last user input.
#[derive(Debug, Clone, Copy, PartialEq, Eq, Structural)]
pub struct InputIdleInfo {
    pub idle_seconds: u64,
}

/// Which performance readings are at or above their thresholds at the
/// moment of a sample. The readings themselves (CPU percent, bytes per
/// second) are fractional and are compared where they are measured.
#[derive(Debug, Clone, Copy, PartialEq, Eq, Structural)]
pub struct PerformanceActivity {
    pub cpu_active: bool,
    pub network_active: bool,
    pub disk_write_active: bool,
    pub disk_read_active: bool,
}

} // verus!
