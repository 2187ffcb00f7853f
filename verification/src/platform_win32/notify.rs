//! Waiting for the user during the sleep warning.
//!
//! While the warning is shown the idle time is polled every 100 ms; the
//! user cancels by giving any input.
use vstd::prelude::*;

verus! {

/// Number of 100 ms polls during a warning of `seconds`.
pub fn warning_polls(seconds: u64) -> (r: u64)
    requires
        seconds <= u64::MAX / 10,
    ensures
        r == seconds * 10,
{
    seconds * 10
}

/// The user gave input since the warning started: the idle time went
/// down, or is zero.
pub open spec fn input_detected_spec(start_idle: u64, current_idle: u64) -> bool {
    current_idle < start_idle || current_idle == 0
}

/// Whether the user gave input since the warning started, judged from the
/// idle time at the start and now.
pub fn input_detected(start_idle: u64, current_idle: u64) -> (r: bool)
    ensures
        r == input_detected_spec(start_idle, current_idle),
{
    current_idle < start_idle || current_idle == 0
}

} // verus!
