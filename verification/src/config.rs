//! Settings that decide when the machine may sleep.
//!
//! The thresholds of the CPU, network and disk monitors are fractional
//! values; the comparison of a reading with its threshold happens where the
//! readings are taken, so these structures hold every setting but those.
use vstd::prelude::*;
use crate::text::{spec_to_lowercase, to_lowercase};

verus! {

/// How much is written to the log.
#[derive(Debug, Clone, Copy, PartialEq, Eq, Structural)]
pub enum LogLevel {
    Off,
    Error,
    Warn,
    Info,
    Debug,
}

/// Position of a level in the order `Off < Error < Warn < Info < Debug`.
pub open spec fn log_level_rank(l: LogLevel) -> nat {
    match l {
        LogLevel::Off => 0,
        LogLevel::Error => 1,
        LogLevel::Warn => 2,
        LogLevel::Info => 3,
        LogLevel::Debug => 4,
    }
}

impl LogLevel {
    /// Position of the level in the order `Off < Error < Warn < Info < Debug`.
    pub fn rank(self) -> (r: u8)
        ensures
            r == log_level_rank(self),
    {
        match self {
            LogLevel::Off => 0,
            LogLevel::Error => 1,
            LogLevel::Warn => 2,
            LogLevel::Info => 3,
            LogLevel::Debug => 4,
        }
    }
}

/// Switch and hold-off time of a monitor that compares a reading with a
/// threshold.
#[derive(Debug, Clone, Copy, PartialEq, Eq, Structural)]
pub struct ThresholdConfig {
    pub enabled: bool,
    pub delay_seconds: u64,
}

impl Default for ThresholdConfig {
    fn default() -> (r: Self)
        ensures
            r.enabled,
            r.delay_seconds == 600,
    {
        ThresholdConfig { enabled: true, delay_seconds: 600 }
    }
}

/// When and how the machine goes to sleep.
#[derive(Debug, Clone, Copy, PartialEq, Eq, Structural)]
pub struct SleepConfig {
    pub delay_seconds: u64,
    pub hibernate: bool,
    pub warn_before_sleep: bool,
    pub warn_sound_enabled: bool,
    pub resume_cooldown_seconds: u64,
}

/// The default idle time before sleep, in seconds.
pub fn default_sleep_delay_seconds() -> (r: u64)
    ensures
        r == 600,
{
    600
}

/// The default quiet time after a resume, in seconds.
pub fn default_resume_cooldown_seconds() -> (r: u64)
    ensures
        r == 60,
{
    60
}

/// The default hold-off of the CPU monitor, in seconds.
pub fn default_cpu_delay_seconds() -> (r: u64)
    ensures
        r == 10,
{
    10
}

/// The default hold-off of the network monitor, in seconds.
pub fn default_network_delay_seconds() -> (r: u64)
    ensures
        r == 10,
{
    10
}

/// `true`, the default of the switches that start on.
pub fn default_true() -> (r: bool)
    ensures
        r,
{
    true
}

/// The default log level: nothing is logged.
pub fn default_log_level() -> (r: LogLevel)
    ensures
        r == LogLevel::Off,
{
    LogLevel::Off
}

impl Default for SleepConfig {
    fn default() -> (r: Self)
        ensures
            r == (SleepConfig {
                delay_seconds: 600,
                hibernate: false,
                warn_before_sleep: true,
                warn_sound_enabled: true,
                resume_cooldown_seconds: 60,
            }),
    {
        SleepConfig {
            delay_seconds: 600,
            hibernate: false,
            warn_before_sleep: true,
            warn_sound_enabled: true,
            resume_cooldown_seconds: 60,
        }
    }
}

/// Whether sound output keeps the machine awake.
#[derive(Debug, Clone, Copy, PartialEq, Eq, Structural)]
pub struct SoundConfig {
    pub enabled: bool,
}

impl Default for SoundConfig {
    fn default() -> (r: Self)
        ensures
            r.enabled,
    {
        SoundConfig { enabled: true }
    }
}

/// Process names (lower case) that keep the machine awake while running,
/// and names that are never considered.
#[derive(Debug, Clone, PartialEq, Eq)]
pub struct ProcessConfig {
    pub watched: Vec<String>,
    pub excluded: Vec<String>,
}

impl Default for ProcessConfig {
    fn default() -> (r: Self)
        ensures
            r.watched@.len() == 0,
            r.excluded@.len() == 0,
    {
        ProcessConfig { watched: Vec::new(), excluded: Vec::new() }
    }
}

/// Switches and hold-off times of the disk write and disk read monitors.
#[derive(Debug, Clone, Copy, PartialEq, Eq, Structural)]
pub struct DiskConfig {
    pub write_enabled: bool,
    pub write_delay_seconds: u64,
    pub read_enabled: bool,
    pub read_delay_seconds: u64,
}

impl Default for DiskConfig {
    fn default() -> (r: Self)
        ensures
            r == (DiskConfig {
                write_enabled: true,
                write_delay_seconds: 10,
                read_enabled: false,
                read_delay_seconds: 10,
            }),
    {
        DiskConfig {
            write_enabled: true,
            write_delay_seconds: 10,
            read_enabled: false,
            read_delay_seconds: 10,
        }
    }
}

/// Settings that concern the whole program.
#[derive(Debug, Clone, Copy, PartialEq, Eq, Structural)]
pub struct GeneralConfig {
    pub legacy_input: bool,
    pub auto_start: bool,
    pub display_off_on_sleep: bool,
    pub display_state_by_icon: bool,
    pub log_level: LogLevel,
}

impl Default for GeneralConfig {
    fn default() -> (r: Self)
        ensures
            r == (GeneralConfig {
                legacy_input: false,
                auto_start: false,
                display_off_on_sleep: true,
                display_state_by_icon: true,
                log_level: LogLevel::Off,
            }),
    {
        GeneralConfig {
            legacy_input: false,
            auto_start: false,
            display_off_on_sleep: true,
            display_state_by_icon: true,
            log_level: LogLevel::Off,
        }
    }
}

/// All settings.
#[derive(Debug, Clone, PartialEq, Eq)]
pub struct Config {
    pub sleep: SleepConfig,
    pub cpu: ThresholdConfig,
    pub network: ThresholdConfig,
    pub disk: DiskConfig,
    pub sound: SoundConfig,
    pub process: ProcessConfig,
    pub general: GeneralConfig,
}

impl Default for Config {
    fn default() -> (r: Self)
        ensures
            r.sleep == (SleepConfig {
                delay_seconds: 600,
                hibernate: false,
                warn_before_sleep: true,
                warn_sound_enabled: true,
                resume_cooldown_seconds: 60,
            }),
            r.cpu == (ThresholdConfig { enabled: true, delay_seconds: 10 }),
            r.network == (ThresholdConfig { enabled: true, delay_seconds: 10 }),
            r.disk == (DiskConfig {
                write_enabled: true,
                write_delay_seconds: 10,
                read_enabled: false,
                read_delay_seconds: 10,
            }),
            r.sound.enabled,
            r.process.watched@.len() == 0,
            r.process.excluded@.len() == 0,
            r.general == (GeneralConfig {
                legacy_input: false,
                auto_start: false,
                display_off_on_sleep: true,
                display_state_by_icon: true,
                log_level: LogLevel::Off,
            }),
    {
        Config {
            sleep: SleepConfig::default(),
            cpu: ThresholdConfig { enabled: true, delay_seconds: 10 },
            network: ThresholdConfig { enabled: true, delay_seconds: 10 },
            disk: DiskConfig::default(),
            sound: SoundConfig::default(),
            process: ProcessConfig::default(),
            general: GeneralConfig::default(),
        }
    }
}

/// Each name mapped to its lower-case form.
pub open spec fn lowercase_names(names: Seq<Seq<char>>) -> Seq<Seq<char>> {
    names.map_values(|n: Seq<char>| spec_to_lowercase(n))
}

fn lowercase_all(names: &Vec<String>) -> (r: Vec<String>)
    ensures
        r.deep_view() == lowercase_names(names.deep_view()),
{
    let mut r: Vec<String> = Vec::new();
    let n = names.len();
    let mut i: usize = 0;
    while i < n
        invariant
            n == names@.len(),
            i <= n,
            r.deep_view() =~= lowercase_names(names.deep_view().take(i as int)),
        decreases n - i,
    {
        let l = to_lowercase(names[i].as_str());
        let ghost before = r.deep_view();
        r.push(l);
        proof {
            assert(r.deep_view() =~= before.push(spec_to_lowercase(names@[i as int]@)));
            assert(names.deep_view().take(i + 1) =~= names.deep_view().take(i as int).push(
                names@[i as int]@,
            ));
        }
        i = i + 1;
    }
    assert(names.deep_view().take(n as int) =~= names.deep_view());
    r
}

impl Config {
    /// Brings the process lists of freshly read settings to lower case, so
    /// that they compare with the lower-case names of running processes.
    pub fn normalize_process_lists(&mut self)
        ensures
            final(self).process.watched.deep_view() == lowercase_names(
                old(self).process.watched.deep_view(),
            ),
            final(self).process.excluded.deep_view() == lowercase_names(
                old(self).process.excluded.deep_view(),
            ),
            final(self).sleep == old(self).sleep,
            final(self).cpu == old(self).cpu,
            final(self).network == old(self).network,
            final(self).disk == old(self).disk,
            final(self).sound == old(self).sound,
            final(self).general == old(self).general,
    {
        let watched = lowercase_all(&self.process.watched);
        let excluded = lowercase_all(&self.process.excluded);
        self.process.watched = watched;
        self.process.excluded = excluded;
    }
}

} // verus!
