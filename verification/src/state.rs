//! What the monitoring loop does with each decision of the engine.
//!
//! The loop evaluates the engine once a second. It publishes the reporting
//! factor for the tray icon, writes a log line when the picture changes,
//! and starts the sleep sequence when the engine says the machine may
//! sleep.
use vstd::prelude::*;
use crate::engine::EngineDecision;
use crate::monitors::{InhibitFactor, MonitorState};

verus! {

/// The log line a decision calls for.
#[derive(Debug, Clone, Copy, PartialEq, Eq, Structural)]
pub enum LoopLog {
    /// Nothing new to say.
    Quiet,
    /// The machine is about to sleep.
    SleepStarting,
    /// Sleep is now held back by this monitor.
    InhibitedBy(MonitorState),
    /// Monitoring was just paused.
    PauseStarted,
    /// The quiet time after a resume is running.
    CooldownActive { remaining_secs: u64 },
}

/// What the loop does after one decision.
#[derive(Debug, Clone, Copy, PartialEq, Eq, Structural)]
pub struct LoopAction {
    /// The factor shown in the tray (none unless sleep is held back).
    pub current_factor: Option<InhibitFactor>,
    /// The log line to write.
    pub log: LoopLog,
    /// Run the sleep sequence, then tell the engine the machine resumed.
    pub execute_sleep: bool,
}

/// Remembers what was last reported, so that a log line is written only
/// when the picture changes.
#[derive(Debug, Clone, Copy, PartialEq, Eq, Structural)]
pub struct MonitorLoop {
    pub prev_factor: Option<InhibitFactor>,
    pub was_paused: bool,
}

/// The state after `d`.
pub open spec fn next_loop_state(s: MonitorLoop, d: EngineDecision) -> MonitorLoop {
    match d {
        EngineDecision::Sleep => MonitorLoop { prev_factor: None, was_paused: false },
        EngineDecision::Inhibit(ms) => MonitorLoop { prev_factor: Some(ms.factor), was_paused: false },
        EngineDecision::Paused => MonitorLoop { prev_factor: None, was_paused: true },
        EngineDecision::Cooldown { .. } => MonitorLoop { was_paused: false, ..s },
    }
}

/// The action for `d` in state `s`.
pub open spec fn loop_action(s: MonitorLoop, d: EngineDecision) -> LoopAction {
    match d {
        EngineDecision::Sleep => LoopAction {
            current_factor: None,
            log: LoopLog::SleepStarting,
            execute_sleep: true,
        },
        EngineDecision::Inhibit(ms) => LoopAction {
            current_factor: Some(ms.factor),
            log: if s.prev_factor == Some(ms.factor) {
                LoopLog::Quiet
            } else {
                LoopLog::InhibitedBy(ms)
            },
            execute_sleep: false,
        },
        EngineDecision::Paused => LoopAction {
            current_factor: None,
            log: if s.was_paused {
                LoopLog::Quiet
            } else {
                LoopLog::PauseStarted
            },
            execute_sleep: false,
        },
        EngineDecision::Cooldown { remaining_secs } => LoopAction {
            current_factor: None,
            log: LoopLog::CooldownActive { remaining_secs },
            execute_sleep: false,
        },
    }
}

impl MonitorLoop {
    /// Nothing reported yet.
    pub fn new() -> (r: Self)
        ensures
            r == (MonitorLoop { prev_factor: None, was_paused: false }),
    {
        MonitorLoop { prev_factor: None, was_paused: false }
    }

    /// Handles one decision of the engine.
    pub fn observe(&mut self, d: EngineDecision) -> (r: LoopAction)
        ensures
            r == loop_action(*old(self), d),
            *final(self) == next_loop_state(*old(self), d),
    {
        match d {
            EngineDecision::Sleep => {
                self.prev_factor = None;
                self.was_paused = false;
                LoopAction { current_factor: None, log: LoopLog::SleepStarting, execute_sleep: true }
            },
            EngineDecision::Inhibit(ms) => {
                let same = match self.prev_factor {
                    Some(f) => f == ms.factor,
                    None => false,
                };
                self.prev_factor = Some(ms.factor);
                self.was_paused = false;
                LoopAction {
                    current_factor: Some(ms.factor),
                    log: if same {
                        LoopLog::Quiet
                    } else {
                        LoopLog::InhibitedBy(ms)
                    },
                    execute_sleep: false,
                }
            },
            EngineDecision::Paused => {
                let first = !self.was_paused;
                self.was_paused = true;
                self.prev_factor = None;
                LoopAction {
                    current_factor: None,
                    log: if first {
                        LoopLog::PauseStarted
                    } else {
                        LoopLog::Quiet
                    },
                    execute_sleep: false,
                }
            },
            EngineDecision::Cooldown { remaining_secs } => {
                self.was_paused = false;
                LoopAction {
                    current_factor: None,
                    log: LoopLog::CooldownActive { remaining_secs },
                    execute_sleep: false,
                }
            },
        }
    }
}

/// The decision shown before the first evaluation: held back by input.
pub fn initial_decision() -> (d: EngineDecision)
    ensures
        d == EngineDecision::Inhibit(MonitorState { inhibit: true, factor: InhibitFactor::Input }),
{
    EngineDecision::Inhibit(MonitorState { inhibit: true, factor: InhibitFactor::Input })
}

/// A factor is logged once when it starts holding sleep back: the same
/// decision twice in a row logs only the first time, and so does a pause.
/// Only a `Sleep` decision starts the sleep sequence.
pub proof fn law_log_only_on_change(s: MonitorLoop, d: EngineDecision)
    ensures
        d is Inhibit || d is Paused ==> loop_action(next_loop_state(s, d), d).log == LoopLog::Quiet,
        loop_action(s, d).execute_sleep <==> d == EngineDecision::Sleep,
        loop_action(s, d).current_factor == (match d {
            EngineDecision::Inhibit(ms) => Some(ms.factor),
            _ => None,
        }),
{
}

/// A change of the factor that holds sleep back is always logged: after a
/// decision held back by one factor, a decision held back by another logs
/// that monitor; and a decision held back by a factor is quiet exactly
/// when the same factor was reported last.
pub proof fn law_factor_change_is_logged(s: MonitorLoop, a: MonitorState, b: MonitorState)
    ensures
        a.factor != b.factor ==> loop_action(
            next_loop_state(s, EngineDecision::Inhibit(a)),
            EngineDecision::Inhibit(b),
        ).log == LoopLog::InhibitedBy(b),
        (loop_action(s, EngineDecision::Inhibit(b)).log == LoopLog::Quiet) <==> s.prev_factor
            == Some(b.factor),
        loop_action(s, EngineDecision::Inhibit(b)).log != LoopLog::Quiet ==> loop_action(
            s,
            EngineDecision::Inhibit(b),
        ).log == LoopLog::InhibitedBy(b),
        loop_action(MonitorLoop { prev_factor: None, was_paused: false }, EngineDecision::Inhibit(b)).log
            == LoopLog::InhibitedBy(b),
{
}

} // verus!
