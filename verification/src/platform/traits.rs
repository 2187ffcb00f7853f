//! The probes and controls a platform provides.
use vstd::prelude::*;
use crate::error::SleepToolError;
use super::types::SleepType;

verus! {

/// The time since the last user input.
pub trait InputProbe {
    /// `r` is an answer that the probe may give when asked in mode
    /// `legacy_input`. What the answer is depends on the machine; the name
    /// ties each answer to the mode it was asked in. Unless an
    /// implementation says more, every answer is possible.
    open spec fn idle_reading(&self, legacy_input: bool, r: Result<u64, SleepToolError>) -> bool {
        true
    }

    /// Seconds since the last keyboard or mouse input. With `legacy_input`
    /// the platform detects input by polling instead of asking the system.
    fn last_input_idle_seconds(&self, legacy_input: bool) -> (r: Result<u64, SleepToolError>)
        ensures
            self.idle_reading(legacy_input, r),
    ;
}

/// The running processes.
pub trait ProcessProbe {
    /// `r` is an answer that the probe may give. What the answer is depends
    /// on the machine; unless an implementation says more, every answer is
    /// possible.
    open spec fn process_reading(&self, r: Result<Vec<String>, SleepToolError>) -> bool {
        true
    }

    /// The lower-case image names of the running processes.
    fn list_running_processes(&self) -> (r: Result<Vec<String>, SleepToolError>)
        ensures
            self.process_reading(r),
    ;
}

/// Power transitions.
pub trait PowerControl {
    /// Puts the machine to sleep or into hibernation.
    fn suspend(&self, sleep_type: SleepType, force: bool) -> Result<(), SleepToolError>;

    /// Turns the display off.
    fn turn_display_off(&self) -> Result<(), SleepToolError>;
}

/// Notices to the user.
pub trait Notifier {
    /// Shows the warning that the machine is about to sleep, waits up to
    /// `seconds` for the user to react and returns whether the user
    /// cancelled.
    fn show_sleep_warning(&self, seconds: u64, play_sound: bool) -> Result<bool, SleepToolError>;
}

/// Starting the program at login.
pub trait StartupControl {
    fn set_auto_start(&self, enable: bool) -> Result<(), SleepToolError>;

    fn is_auto_start_enabled(&self) -> Result<bool, SleepToolError>;
}

} // verus!
