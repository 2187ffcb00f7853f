use sleeptool_rs::config::{
    default_cpu_delay_seconds, default_log_level, default_network_delay_seconds,
    default_resume_cooldown_seconds, default_sleep_delay_seconds, default_true, Config, LogLevel,
    ProcessConfig, ThresholdConfig,
};

#[test]
fn test_default_config() {
    let config = Config::default();
    assert_eq!(config.sleep.delay_seconds, 600);
    assert!(config.sound.enabled);
}

#[test]
fn default_disk_config_has_read_disabled() {
    let cfg = Config::default();
    assert!(!cfg.disk.read_enabled);
    assert!(cfg.disk.write_enabled);
}

#[test]
fn general_defaults() {
    let cfg = Config::default();
    assert!(!cfg.general.legacy_input);
    assert!(!cfg.general.auto_start);
    assert!(cfg.general.display_off_on_sleep);
    assert!(cfg.general.display_state_by_icon);
    assert_eq!(cfg.general.log_level, LogLevel::Off);
}

#[test]
fn sleep_defaults() {
    let cfg = Config::default();
    assert!(!cfg.sleep.hibernate);
    assert!(cfg.sleep.warn_before_sleep);
    assert!(cfg.sleep.warn_sound_enabled);
    assert_eq!(cfg.sleep.resume_cooldown_seconds, 60);
}

#[test]
fn field_defaults_match_struct_defaults() {
    assert_eq!(default_sleep_delay_seconds(), 600);
    assert_eq!(default_resume_cooldown_seconds(), 60);
    assert_eq!(default_cpu_delay_seconds(), 10);
    assert_eq!(default_network_delay_seconds(), 10);
    assert!(default_true());
    assert_eq!(default_log_level(), LogLevel::Off);
    let t = ThresholdConfig::default();
    assert!(t.enabled);
    assert_eq!(t.delay_seconds, 600);
    let c = Config::default();
    assert_eq!(c.cpu.delay_seconds, 10);
    assert_eq!(c.network.delay_seconds, 10);
}

#[test]
fn normalize_lowercases_process_lists() {
    let mut cfg = Config::default();
    cfg.process = ProcessConfig {
        watched: vec!["Target.EXE".to_string(), "OTHER.exe".to_string()],
        excluded: vec!["Banned.EXE".to_string()],
    };
    cfg.normalize_process_lists();
    assert_eq!(cfg.process.watched, vec!["target.exe", "other.exe"]);
    assert_eq!(cfg.process.excluded, vec!["banned.exe"]);
}

#[test]
fn normalize_keeps_empty_lists_empty() {
    let mut cfg = Config::default();
    cfg.normalize_process_lists();
    assert!(cfg.process.watched.is_empty());
    assert!(cfg.process.excluded.is_empty());
}

#[test]
fn log_level_rank_order() {
    assert!(LogLevel::Off.rank() < LogLevel::Error.rank());
    assert!(LogLevel::Error.rank() < LogLevel::Warn.rank());
    assert!(LogLevel::Warn.rank() < LogLevel::Info.rank());
    assert!(LogLevel::Info.rank() < LogLevel::Debug.rank());
}
