//! The steps of putting the machine to sleep.
//!
//! Optionally the user is warned first and may cancel; then the display is
//! optionally turned off; then the machine is suspended. The program
//! performs each action and reports back what happened; this module decides
//! what comes next.
use vstd::prelude::*;
use crate::config::Config;
use crate::platform::SleepType;

verus! {

/// How long the user is warned before the machine sleeps, in seconds.
pub const SLEEP_WARNING_SECONDS: u64 = 10;

/// The next thing to do.
#[derive(Debug, Clone, Copy, PartialEq, Eq, Structural)]
pub enum SleepAction {
    /// Show the warning for `seconds` and report whether the user cancelled.
    Warn { seconds: u64, play_sound: bool },
    /// Turn the display off (a failure is ignored).
    TurnDisplayOff,
    /// Suspend the machine; its result is the result of the whole sequence.
    Suspend { sleep_type: SleepType, force: bool },
    /// Stop without sleeping.
    Finish,
}

/// What has happened so far.
#[derive(Debug, Clone, Copy, PartialEq, Eq, Structural)]
pub enum SleepStep {
    /// Nothing yet.
    Start,
    /// The warning was shown; `cancelled` tells whether the user cancelled.
    Warned { cancelled: bool },
    /// The display was turned off.
    DisplayOffDone,
}

/// The transition the settings ask for.
pub open spec fn sleep_type_spec(hibernate: bool) -> SleepType {
    if hibernate {
        SleepType::Hibernate
    } else {
        SleepType::Sleep
    }
}

/// The transition the settings ask for.
pub fn sleep_type_for(hibernate: bool) -> (t: SleepType)
    ensures
        t == sleep_type_spec(hibernate),
{
    if hibernate {
        SleepType::Hibernate
    } else {
        SleepType::Sleep
    }
}

/// What follows once no warning is pending: display off if configured,
/// else suspend.
pub open spec fn after_warning(config: Config) -> SleepAction {
    if config.general.display_off_on_sleep {
        SleepAction::TurnDisplayOff
    } else {
        SleepAction::Suspend { sleep_type: sleep_type_spec(config.sleep.hibernate), force: true }
    }
}

/// The action that follows `step`.
pub open spec fn next_sleep_action_spec(config: Config, step: SleepStep) -> SleepAction {
    match step {
        SleepStep::Start => if config.sleep.warn_before_sleep {
            SleepAction::Warn {
                seconds: SLEEP_WARNING_SECONDS,
                play_sound: config.sleep.warn_sound_enabled,
            }
        } else {
            after_warning(config)
        },
        SleepStep::Warned { cancelled } => if cancelled {
            SleepAction::Finish
        } else {
            after_warning(config)
        },
        SleepStep::DisplayOffDone => SleepAction::Suspend {
            sleep_type: sleep_type_spec(config.sleep.hibernate),
            force: true,
        },
    }
}

/// The action that follows `step`.
pub fn next_sleep_action(config: &Config, step: SleepStep) -> (a: SleepAction)
    ensures
        a == next_sleep_action_spec(*config, step),
{
    let after = if config.general.display_off_on_sleep {
        SleepAction::TurnDisplayOff
    } else {
        SleepAction::Suspend { sleep_type: sleep_type_for(config.sleep.hibernate), force: true }
    };
    match step {
        SleepStep::Start => {
            if config.sleep.warn_before_sleep {
                SleepAction::Warn {
                    seconds: SLEEP_WARNING_SECONDS,
                    play_sound: config.sleep.warn_sound_enabled,
                }
            } else {
                after
            }
        },
        SleepStep::Warned { cancelled } => {
            if cancelled {
                SleepAction::Finish
            } else {
                after
            }
        },
        SleepStep::DisplayOffDone => SleepAction::Suspend {
            sleep_type: sleep_type_for(config.sleep.hibernate),
            force: true,
        },
    }
}

/// The event that performing `action` produces, when the warning is
/// answered with `cancelled`.
pub open spec fn step_after(action: SleepAction, cancelled: bool) -> SleepStep {
    match action {
        SleepAction::Warn { .. } => SleepStep::Warned { cancelled },
        _ => SleepStep::DisplayOffDone,
    }
}

/// The actions of a whole run, when the warning (if shown) is answered
/// with `cancelled`: at most three actions.
pub open spec fn sleep_run(config: Config, cancelled: bool) -> Seq<SleepAction> {
    let a1 = next_sleep_action_spec(config, SleepStep::Start);
    if a1 is Suspend {
        seq![a1]
    } else {
        let a2 = next_sleep_action_spec(config, step_after(a1, cancelled));
        if a2 is Suspend || a2 is Finish {
            seq![a1, a2]
        } else {
            let a3 = next_sleep_action_spec(config, step_after(a2, cancelled));
            seq![a1, a2, a3]
        }
    }
}

/// A run warns first exactly when warnings are on; a cancelled warning
/// ends the run without suspending; otherwise the run ends by suspending
/// with the configured transition, forced, and turns the display off
/// before exactly when that is configured.
pub proof fn law_sleep_run(config: Config, cancelled: bool)
    ensures
        ({
            let run = sleep_run(config, cancelled);
            &&& (run[0] is Warn <==> config.sleep.warn_before_sleep)
            &&& (config.sleep.warn_before_sleep && cancelled) ==> run == seq![
                run[0],
                SleepAction::Finish,
            ]
            &&& !(config.sleep.warn_before_sleep && cancelled) ==> {
                &&& run.last() == SleepAction::Suspend {
                    sleep_type: sleep_type_spec(config.sleep.hibernate),
                    force: true,
                }
                &&& (exists|i: int| 0 <= i < run.len() && run[i] == SleepAction::TurnDisplayOff)
                    <==> config.general.display_off_on_sleep
            }
        }),
{
    let run = sleep_run(config, cancelled);
    if config.general.display_off_on_sleep && !(config.sleep.warn_before_sleep && cancelled) {
        if config.sleep.warn_before_sleep {
            assert(run[1] == SleepAction::TurnDisplayOff);
        } else {
            assert(run[0] == SleepAction::TurnDisplayOff);
        }
    }
}

/// A warning is shown only at the start of a run and only when warnings
/// are on; it lasts ten seconds and sounds exactly when the warning sound
/// is switched on.
pub proof fn law_warning_follows_settings(config: Config, step: SleepStep)
    ensures
        next_sleep_action_spec(config, step) is Warn <==> (step == SleepStep::Start
            && config.sleep.warn_before_sleep),
        next_sleep_action_spec(config, step) matches SleepAction::Warn { seconds, play_sound } ==> {
            &&& seconds == 10
            &&& play_sound == config.sleep.warn_sound_enabled
        },
{
}

} // verus!
