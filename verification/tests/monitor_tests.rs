use sleeptool_rs::config::Config;
use sleeptool_rs::monitors::{
    cpu::CpuMonitor,
    disk::{DiskReadMonitor, DiskWriteMonitor},
    input::InputMonitor,
    network::NetworkMonitor,
    process::ProcessMonitor,
    sound::SoundMonitor,
    InhibitFactor,
};

// The settings' fractional thresholds, as the program's settings file
// holds them by default, and the level at which sound counts as audible.
const CPU_THRESHOLD: f64 = 5.0;
const SOUND_THRESHOLD: f64 = 0.01;

fn names(v: &[&str]) -> Vec<String> {
    v.iter().map(|s| s.to_string()).collect()
}

#[test]
fn cpu_above_threshold_inhibits() {
    let mut m = CpuMonitor::new();
    let cfg = Config::default();
    let s = m.sample(&cfg, 80.0 >= CPU_THRESHOLD, 0);
    assert!(s.inhibit);
    assert_eq!(s.factor, InhibitFactor::Cpu);
}

#[test]
fn cpu_below_threshold_no_inhibit() {
    let mut m = CpuMonitor::new();
    let cfg = Config::default();
    let s = m.sample(&cfg, 0.0 >= CPU_THRESHOLD, 0);
    assert!(!s.inhibit);
}

#[test]
fn cpu_at_threshold_inhibits() {
    let mut m = CpuMonitor::new();
    let cfg = Config::default();
    let threshold = 5.0;
    let s = m.sample(&cfg, 5.0 >= threshold, 0);
    assert!(s.inhibit);
}

#[test]
fn cpu_disabled_skips_sampling_via_is_enabled() {
    let m = CpuMonitor::new();
    let mut cfg = Config::default();
    cfg.cpu.enabled = false;
    assert!(!m.is_enabled(&cfg));
}

#[test]
fn cpu_holds_inhibit_after_active_pulse() {
    let mut m = CpuMonitor::new();
    let mut cfg = Config::default();
    let threshold = 50.0;
    cfg.cpu.delay_seconds = 60;
    let _ = m.sample(&cfg, 80.0 >= threshold, 1_000);
    let s = m.sample(&cfg, 0.0 >= threshold, 1_010);
    assert!(s.inhibit);
}

#[test]
fn network_above_threshold_inhibits() {
    let mut m = NetworkMonitor::new();
    let cfg = Config::default();
    let threshold = 1000.0;
    let s = m.sample(&cfg, 2000.0 >= threshold, 0);
    assert!(s.inhibit);
    assert_eq!(s.factor, InhibitFactor::Network);
}

#[test]
fn network_below_threshold_no_inhibit() {
    let mut m = NetworkMonitor::new();
    let cfg = Config::default();
    let threshold = 10000.0;
    let s = m.sample(&cfg, 100.0 >= threshold, 0);
    assert!(!s.inhibit);
}

#[test]
fn network_disabled() {
    let m = NetworkMonitor::new();
    let mut cfg = Config::default();
    cfg.network.enabled = false;
    assert!(!m.is_enabled(&cfg));
}

#[test]
fn network_holds_during_delay() {
    let mut m = NetworkMonitor::new();
    let mut cfg = Config::default();
    let threshold = 1000.0;
    cfg.network.delay_seconds = 60;
    let _ = m.sample(&cfg, 5000.0 >= threshold, 1_000);
    let s = m.sample(&cfg, 0.0 >= threshold, 1_010);
    assert!(s.inhibit);
}

#[test]
fn disk_write_above_threshold_inhibits() {
    let mut m = DiskWriteMonitor::new();
    let cfg = Config::default();
    let threshold = 1000.0;
    let s = m.sample(&cfg, 2000.0 >= threshold, 0);
    assert!(s.inhibit);
    assert_eq!(s.factor, InhibitFactor::DiskWrite);
}

#[test]
fn disk_write_disabled() {
    let m = DiskWriteMonitor::new();
    let mut cfg = Config::default();
    cfg.disk.write_enabled = false;
    assert!(!m.is_enabled(&cfg));
}

#[test]
fn disk_read_above_threshold_inhibits() {
    let mut m = DiskReadMonitor::new();
    let mut cfg = Config::default();
    cfg.disk.read_enabled = true;
    let threshold = 1000.0;
    let s = m.sample(&cfg, 2000.0 >= threshold, 0);
    assert!(s.inhibit);
    assert_eq!(s.factor, InhibitFactor::DiskRead);
}

#[test]
fn disk_read_disabled_by_default() {
    let m = DiskReadMonitor::new();
    let cfg = Config::default();
    assert!(!m.is_enabled(&cfg));
}

#[test]
fn input_inhibits_when_idle_below_threshold() {
    let m = InputMonitor::new();
    let cfg = Config::default();
    let s = m.sample(&cfg, 0);
    assert!(s.inhibit);
    assert_eq!(s.factor, InhibitFactor::Input);
}

#[test]
fn input_sleeps_when_idle_above_threshold() {
    let m = InputMonitor::new();
    let cfg = Config::default();
    let s = m.sample(&cfg, 601);
    assert!(!s.inhibit);
}

#[test]
fn process_inhibits_when_watched_running() {
    let m = ProcessMonitor::new();
    let mut cfg = Config::default();
    cfg.process.watched = vec!["target.exe".to_string()];
    let s = m.sample(&cfg, &names(&["target.exe"]));
    assert!(s.inhibit);
    assert_eq!(s.factor, InhibitFactor::Process);
}

#[test]
fn process_no_inhibit_when_unwatched() {
    let m = ProcessMonitor::new();
    let mut cfg = Config::default();
    cfg.process.watched = vec!["target.exe".to_string()];
    let s = m.sample(&cfg, &names(&["other.exe"]));
    assert!(!s.inhibit);
}

#[test]
fn process_disabled_when_watched_empty() {
    let m = ProcessMonitor::new();
    let cfg = Config::default();
    assert!(!m.is_enabled(&cfg));
}

#[test]
fn sound_inhibits_when_above_threshold() {
    let m = SoundMonitor::new();
    let s = m.sample(0.1 >= SOUND_THRESHOLD);
    assert!(s.inhibit);
    assert_eq!(s.factor, InhibitFactor::Sound);
}

#[test]
fn sound_silent_no_inhibit() {
    let m = SoundMonitor::new();
    let s = m.sample(0.0 >= SOUND_THRESHOLD);
    assert!(!s.inhibit);
}

#[test]
fn sound_disabled() {
    let m = SoundMonitor::new();
    let mut cfg = Config::default();
    cfg.sound.enabled = false;
    assert!(!m.is_enabled(&cfg));
}

#[test]
fn sound_at_threshold_inhibits() {
    let m = SoundMonitor::new();
    let s = m.sample(0.01 >= SOUND_THRESHOLD);
    assert!(s.inhibit);
}

#[test]
fn inihibit_factor_priority_order_is_stable() {
    assert!(InhibitFactor::Process.priority() < InhibitFactor::Sound.priority());
    assert!(InhibitFactor::Sound.priority() < InhibitFactor::Cpu.priority());
    assert!(InhibitFactor::Cpu.priority() < InhibitFactor::Network.priority());
    assert!(InhibitFactor::Network.priority() < InhibitFactor::DiskRead.priority());
    assert!(InhibitFactor::DiskRead.priority() < InhibitFactor::DiskWrite.priority());
    assert!(InhibitFactor::DiskWrite.priority() < InhibitFactor::Input.priority());
}

#[test]
fn inhibit_factor_labels_are_nonempty() {
    for f in [
        InhibitFactor::Process,
        InhibitFactor::Sound,
        InhibitFactor::Cpu,
        InhibitFactor::Network,
        InhibitFactor::DiskRead,
        InhibitFactor::DiskWrite,
        InhibitFactor::Input,
    ] {
        assert!(f.priority() >= 2 && f.priority() <= 8);
    }
}

#[test]
fn inhibit_factor_label_texts() {
    assert_eq!(InhibitFactor::Process.label(), "Process");
    assert_eq!(InhibitFactor::Cpu.label(), "CPU");
    assert_eq!(InhibitFactor::DiskRead.label(), "Disk Read");
    assert_eq!(InhibitFactor::DiskWrite.label(), "Disk Write");
    assert_eq!(InhibitFactor::Input.label(), "Input");
}

#[test]
fn process_match_is_exact() {
    let m = ProcessMonitor::new();
    let mut cfg = Config::default();
    cfg.process.watched = vec!["a.exe".to_string(), "b.exe".to_string()];
    assert!(m.is_enabled(&cfg));
    assert!(m.sample(&cfg, &names(&["x.exe", "b.exe"])).inhibit);
    assert!(!m.sample(&cfg, &names(&["B.EXE", "a.exe2"])).inhibit);
    assert!(!m.sample(&cfg, &names(&[])).inhibit);
}
