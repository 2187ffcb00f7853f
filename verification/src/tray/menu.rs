//! The option switches of the tray menu.
use vstd::prelude::*;
use crate::config::Config;

verus! {

/// Command id of the pause entry.
pub const ID_PAUSE: usize = 2007;

/// Command id of the settings entry.
pub const ID_SETTINGS: usize = 2008;

/// Command id of the quit entry.
pub const ID_QUIT: usize = 2009;

/// A switch of the options submenu.
#[derive(Debug, Clone, Copy, PartialEq, Eq, Structural)]
pub enum Toggle {
    Hibernate,
    WarnBeforeSleep,
    DisplayOffOnSleep,
    SoundMonitor,
}

/// The command id of a switch's menu entry.
pub open spec fn toggle_id_spec(t: Toggle) -> usize {
    match t {
        Toggle::Hibernate => 2401,
        Toggle::WarnBeforeSleep => 2402,
        Toggle::DisplayOffOnSleep => 2405,
        Toggle::SoundMonitor => 2406,
    }
}

/// The command id of a switch's menu entry.
pub fn toggle_id(t: Toggle) -> (r: usize)
    ensures
        r == toggle_id_spec(t),
{
    match t {
        Toggle::Hibernate => 2401,
        Toggle::WarnBeforeSleep => 2402,
        Toggle::DisplayOffOnSleep => 2405,
        Toggle::SoundMonitor => 2406,
    }
}

/// The switch whose menu entry has command id `id`, if any.
pub fn toggle_for_id(id: usize) -> (r: Option<Toggle>)
    ensures
        r matches Some(t) ==> toggle_id_spec(t) == id,
        r is None ==> forall|t: Toggle| toggle_id_spec(t) != id,
{
    if id == 2401 {
        Some(Toggle::Hibernate)
    } else if id == 2402 {
        Some(Toggle::WarnBeforeSleep)
    } else if id == 2405 {
        Some(Toggle::DisplayOffOnSleep)
    } else if id == 2406 {
        Some(Toggle::SoundMonitor)
    } else {
        assert forall|t: Toggle| toggle_id_spec(t) != id by {
            match t {
                Toggle::Hibernate => {},
                Toggle::WarnBeforeSleep => {},
                Toggle::DisplayOffOnSleep => {},
                Toggle::SoundMonitor => {},
            }
        }
        None
    }
}

/// The current value of a switch.
pub open spec fn toggle_value(config: Config, t: Toggle) -> bool {
    match t {
        Toggle::Hibernate => config.sleep.hibernate,
        Toggle::WarnBeforeSleep => config.sleep.warn_before_sleep,
        Toggle::DisplayOffOnSleep => config.general.display_off_on_sleep,
        Toggle::SoundMonitor => config.sound.enabled,
    }
}

/// Whether each switch is on, in menu order (hibernate, warn before
/// sleep, display off on sleep, sound monitor).
pub fn opts_checked(config: &Config) -> (r: [bool; 4])
    ensures
        r@ == seq![
            toggle_value(*config, Toggle::Hibernate),
            toggle_value(*config, Toggle::WarnBeforeSleep),
            toggle_value(*config, Toggle::DisplayOffOnSleep),
            toggle_value(*config, Toggle::SoundMonitor),
        ],
{
    let r = [
        config.sleep.hibernate,
        config.sleep.warn_before_sleep,
        config.general.display_off_on_sleep,
        config.sound.enabled,
    ];
    assert(r@ =~= seq![
        toggle_value(*config, Toggle::Hibernate),
        toggle_value(*config, Toggle::WarnBeforeSleep),
        toggle_value(*config, Toggle::DisplayOffOnSleep),
        toggle_value(*config, Toggle::SoundMonitor),
    ]);
    r
}

/// Flips one switch.
pub fn apply_toggle(config: &mut Config, t: Toggle)
    ensures
        toggle_value(*final(config), t) == !toggle_value(*old(config), t),
        forall|u: Toggle| u != t ==> toggle_value(*final(config), u) == toggle_value(*old(config), u),
        final(config).cpu == old(config).cpu,
        final(config).network == old(config).network,
        final(config).disk == old(config).disk,
        final(config).process == old(config).process,
        final(config).sleep.delay_seconds == old(config).sleep.delay_seconds,
        final(config).sleep.warn_sound_enabled == old(config).sleep.warn_sound_enabled,
        final(config).sleep.resume_cooldown_seconds == old(config).sleep.resume_cooldown_seconds,
        final(config).general.legacy_input == old(config).general.legacy_input,
        final(config).general.auto_start == old(config).general.auto_start,
        final(config).general.display_state_by_icon == old(config).general.display_state_by_icon,
        final(config).general.log_level == old(config).general.log_level,
{
    match t {
        Toggle::Hibernate => config.sleep.hibernate = !config.sleep.hibernate,
        Toggle::WarnBeforeSleep => config.sleep.warn_before_sleep = !config.sleep.warn_before_sleep,
        Toggle::DisplayOffOnSleep => config.general.display_off_on_sleep =
            !config.general.display_off_on_sleep,
        Toggle::SoundMonitor => config.sound.enabled = !config.sound.enabled,
    }
}

/// Flipping the same switch twice restores its value.
pub proof fn law_toggle_twice(c0: Config, c1: Config, c2: Config, t: Toggle)
    requires
        toggle_value(c1, t) == !toggle_value(c0, t),
        toggle_value(c2, t) == !toggle_value(c1, t),
    ensures
        toggle_value(c2, t) == toggle_value(c0, t),
{
}

} // verus!
