use sleeptool_rs::config::{Config, LogLevel};
use sleeptool_rs::engine::EngineDecision;
use sleeptool_rs::error::SleepToolError;
use sleeptool_rs::logging::{format_timestamp, level_str, log_message, should_log};
use sleeptool_rs::monitors::{InhibitFactor, MonitorState};
use sleeptool_rs::platform::SleepType;
use sleeptool_rs::platform_win32::notify::{input_detected, warning_polls};
use sleeptool_rs::platform_win32::util::{check_pdh, check_success, check_win32_status};
use sleeptool_rs::platform_win32::{
    idle_from_ticks, is_fresh, process_name_from_image_path, LegacyInputState,
};
use sleeptool_rs::sleep::{next_sleep_action, sleep_type_for, SleepAction, SleepStep};
use sleeptool_rs::state::{initial_decision, LoopLog, MonitorLoop};
use sleeptool_rs::tray::icon::{
    decompact, icon_kind, icon_name, is_expandable, quantize_rgba, rgba_to_bgra, try_decompact, IconKind,
};
use sleeptool_rs::tray::menu::{apply_toggle, opts_checked, toggle_for_id, toggle_id, Toggle};
use sleeptool_rs::tray::{factor_icon_name, tooltip_status};

#[test]
fn log_lines_and_levels() {
    assert_eq!(level_str(LogLevel::Warn), "WARN");
    assert!(should_log(LogLevel::Error, LogLevel::Info));
    assert!(!should_log(LogLevel::Debug, LogLevel::Info));
    assert!(!should_log(LogLevel::Error, LogLevel::Off));
    assert_eq!(
        log_message(LogLevel::Info, LogLevel::Debug, "2024-01-02 03:04:05.006", "hello"),
        Some("[2024-01-02 03:04:05.006] INFO - hello".to_string())
    );
    assert_eq!(log_message(LogLevel::Debug, LogLevel::Warn, "t", "m"), None);
}

#[test]
fn timestamp_is_zero_padded() {
    assert_eq!(format_timestamp(2024, 1, 2, 3, 4, 5, 6), "2024-01-02 03:04:05.006");
    assert_eq!(format_timestamp(12345, 12, 31, 23, 59, 59, 999), "12345-12-31 23:59:59.999");
}

#[test]
fn error_messages() {
    assert_eq!(SleepToolError::Config("bad".to_string()).message(), "config error: bad");
    assert_eq!(SleepToolError::Io("x".to_string()).message(), "io error: x");
}

#[test]
fn pdh_and_win32_status_codes() {
    assert!(check_pdh(0).is_ok());
    assert_eq!(
        check_pdh(0xC0000BB8),
        Err(SleepToolError::Platform("PDH error: 0xC0000BB8".to_string()))
    );
    assert_eq!(
        check_win32_status(2),
        Err(SleepToolError::Platform("Windows error: 0x00000002".to_string()))
    );
    assert!(check_success(true).is_ok());
    assert_eq!(
        check_success(false),
        Err(SleepToolError::Platform("Windows API returned false".to_string()))
    );
}

#[test]
fn idle_time_from_wrapping_ticks() {
    assert_eq!(idle_from_ticks(10_500, 500), 10);
    assert_eq!(idle_from_ticks(999, 0), 0);
    assert_eq!(idle_from_ticks(1_000, u32::MAX - 999), 2);
}

#[test]
fn legacy_input_polling() {
    let mut s = LegacyInputState::new((10, 10), 0);
    assert_eq!(s.poll((10, 10), false, 5_500), 5);
    assert_eq!(s.poll((11, 10), false, 6_000), 0);
    assert_eq!(s.poll((11, 10), false, 8_999), 2);
    assert_eq!(s.poll((11, 10), true, 9_000), 0);
    assert_eq!(s.last_input_ms, 9_000);
}

#[test]
fn process_names_from_image_paths() {
    assert_eq!(
        process_name_from_image_path("\\Device\\HarddiskVolume3\\Windows\\Explorer.EXE"),
        "explorer.exe"
    );
    assert_eq!(process_name_from_image_path("Plain.Exe"), "plain.exe");
    assert_eq!(process_name_from_image_path("dir\\"), "");
}

#[test]
fn cache_freshness() {
    assert!(!is_fresh(None, 100, 500));
    assert!(is_fresh(Some(100), 599, 500));
    assert!(!is_fresh(Some(100), 600, 500));
}

#[test]
fn warning_input_detection() {
    assert_eq!(warning_polls(10), 100);
    assert!(input_detected(30, 0));
    assert!(input_detected(30, 2));
    assert!(!input_detected(30, 31));
}

#[test]
fn sleep_sequence_steps() {
    let mut c = Config::default();
    assert_eq!(
        next_sleep_action(&c, SleepStep::Start),
        SleepAction::Warn { seconds: 10, play_sound: true }
    );
    assert_eq!(next_sleep_action(&c, SleepStep::Warned { cancelled: true }), SleepAction::Finish);
    assert_eq!(
        next_sleep_action(&c, SleepStep::Warned { cancelled: false }),
        SleepAction::TurnDisplayOff
    );
    c.sleep.hibernate = true;
    assert_eq!(
        next_sleep_action(&c, SleepStep::DisplayOffDone),
        SleepAction::Suspend { sleep_type: SleepType::Hibernate, force: true }
    );
    c.sleep.warn_before_sleep = false;
    c.general.display_off_on_sleep = false;
    assert_eq!(
        next_sleep_action(&c, SleepStep::Start),
        SleepAction::Suspend { sleep_type: SleepType::Hibernate, force: true }
    );
    assert_eq!(sleep_type_for(false), SleepType::Sleep);
}

#[test]
fn monitor_loop_logs_changes_only() {
    let mut l = MonitorLoop::new();
    let cpu = EngineDecision::Inhibit(MonitorState { inhibit: true, factor: InhibitFactor::Cpu });
    let a = l.observe(cpu);
    assert!(matches!(a.log, LoopLog::InhibitedBy(_)));
    assert_eq!(a.current_factor, Some(InhibitFactor::Cpu));
    assert_eq!(l.observe(cpu).log, LoopLog::Quiet);
    assert_eq!(l.observe(EngineDecision::Paused).log, LoopLog::PauseStarted);
    assert_eq!(l.observe(EngineDecision::Paused).log, LoopLog::Quiet);
    let s = l.observe(EngineDecision::Sleep);
    assert!(s.execute_sleep);
    assert_eq!(s.current_factor, None);
    assert_eq!(
        initial_decision(),
        EngineDecision::Inhibit(MonitorState { inhibit: true, factor: InhibitFactor::Input })
    );
}

#[test]
fn tray_icon_and_tooltip() {
    assert_eq!(icon_kind(Some(InhibitFactor::DiskRead), false), IconKind::Disk);
    assert_eq!(icon_kind(Some(InhibitFactor::Cpu), true), IconKind::Paused);
    assert_eq!(icon_kind(None, false), IconKind::Default);
    assert_eq!(icon_name(IconKind::Input), "input");
    assert_eq!(factor_icon_name(Some(InhibitFactor::Input), false), "default");
    assert_eq!(tooltip_status(None, false), "SleepTool Rust");
    assert_eq!(tooltip_status(Some(InhibitFactor::Cpu), true), "SleepTool Rust (一時停止中)");
}

#[test]
fn decompact_both_forms() {
    assert_eq!(decompact(&[0, 1, 2, 3, 4]), vec![1, 2, 3, 4]);
    let data = [1u8, 1, 10, 11, 12, 13, 20, 21, 22, 23, 1, 0, 1];
    assert_eq!(
        decompact(&data),
        vec![20, 21, 22, 23, 10, 11, 12, 13, 20, 21, 22, 23]
    );
}

#[test]
fn checked_expansion() {
    assert_eq!(try_decompact(&[0, 9, 8]), Some(vec![9, 8]));
    let data = [1u8, 0, 5, 6, 7, 8, 0, 0];
    assert_eq!(try_decompact(&data), Some(vec![5, 6, 7, 8, 5, 6, 7, 8]));
    // empty input, a missing palette length, a short palette, an index
    // past the palette
    assert_eq!(try_decompact(&[]), None);
    assert_eq!(try_decompact(&[1]), None);
    assert_eq!(try_decompact(&[1, 0, 5, 6]), None);
    assert_eq!(try_decompact(&[1, 0, 5, 6, 7, 8, 1]), None);
    assert!(is_expandable(&[0]));
    assert!(!is_expandable(&[1, 1, 5, 6, 7, 8]));
}

#[test]
fn menu_toggles() {
    let mut c = Config::default();
    assert_eq!(opts_checked(&c), [false, true, true, true]);
    apply_toggle(&mut c, Toggle::Hibernate);
    apply_toggle(&mut c, Toggle::SoundMonitor);
    assert_eq!(opts_checked(&c), [true, true, true, false]);
    assert_eq!(toggle_for_id(toggle_id(Toggle::DisplayOffOnSleep)), Some(Toggle::DisplayOffOnSleep));
    assert_eq!(toggle_for_id(2403), None);
}

#[test]
fn pixels_to_device_order() {
    assert_eq!(rgba_to_bgra(&[1, 2, 3, 4, 5, 6, 7, 8, 9]), vec![3, 2, 1, 4, 7, 6, 5, 8]);
    assert_eq!(rgba_to_bgra(&[1, 2]), Vec::<u8>::new());
}

#[test]
fn quantize_then_expand() {
    let rgba = [10u8, 11, 12, 13, 20, 21, 22, 23, 10, 11, 12, 13];
    let compact = quantize_rgba(&rgba);
    assert_eq!(compact, vec![1, 1, 10, 11, 12, 13, 20, 21, 22, 23, 0, 1, 0]);
    assert_eq!(decompact(&compact), rgba.to_vec());
    // more than 256 colours are stored raw
    let mut many = Vec::new();
    for i in 0..300u32 {
        many.extend_from_slice(&[(i % 256) as u8, (i / 256) as u8, 0, 255]);
    }
    let compact = quantize_rgba(&many);
    assert_eq!(compact[0], 0);
    assert_eq!(compact.len(), many.len() + 1);
    assert_eq!(decompact(&compact), many);
}
