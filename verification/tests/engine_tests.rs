use sleeptool_rs::config::Config;
use sleeptool_rs::engine::{Engine, EngineDecision, Readings};
use sleeptool_rs::error::SleepToolError;
use sleeptool_rs::monitors::{InhibitFactor, MonitorState};
use sleeptool_rs::platform::{InputProbe, PerformanceActivity, ProcessProbe};

/// The fractional thresholds of the settings (their defaults), which the
/// program compares the measured readings with.
struct Thresholds {
    cpu: f64,
    network: f64,
    disk_write: f64,
    disk_read: f64,
}

impl Default for Thresholds {
    fn default() -> Self {
        Thresholds { cpu: 5.0, network: 50_000.0, disk_write: 300_000.0, disk_read: 300_000.0 }
    }
}

const SOUND_THRESHOLD: f64 = 0.01;

#[derive(Clone, Default)]
struct MockPlatform {
    idle_seconds: u64,
    cpu_percent: f64,
    network_bytes_per_sec: f64,
    disk_write_bytes_per_sec: f64,
    disk_read_bytes_per_sec: f64,
    sound_rms: f64,
    processes: Vec<String>,
}

impl MockPlatform {
    fn new() -> Self {
        Self::default()
    }
    fn idle(mut self, sec: u64) -> Self {
        self.idle_seconds = sec;
        self
    }
    fn cpu(mut self, percent: f64) -> Self {
        self.cpu_percent = percent;
        self
    }
    fn network_kb(mut self, kb_per_sec: f64) -> Self {
        self.network_bytes_per_sec = kb_per_sec * 1024.0;
        self
    }
    fn sound_rms(mut self, rms: f64) -> Self {
        self.sound_rms = rms;
        self
    }
    fn processes(mut self, names: &[&str]) -> Self {
        self.processes = names.iter().map(|s| s.to_string()).collect();
        self
    }
}

impl InputProbe for MockPlatform {
    fn last_input_idle_seconds(&self, _legacy_input: bool) -> Result<u64, SleepToolError> {
        Ok(self.idle_seconds)
    }
}

impl ProcessProbe for MockPlatform {
    fn list_running_processes(&self) -> Result<Vec<String>, SleepToolError> {
        Ok(self.processes.clone())
    }
}

fn idle_only(sec: u64) -> MockPlatform {
    MockPlatform::new().idle(sec)
}

fn idle_and_cpu(idle: u64, cpu: f64) -> MockPlatform {
    MockPlatform::new().idle(idle).cpu(cpu)
}

/// One evaluation at `now_ms`, with the readings of `p` compared with `t`
/// as the program does.
fn evaluate_at(
    engine: &mut Engine,
    config: &Config,
    t: &Thresholds,
    p: &MockPlatform,
    now_ms: u64,
) -> Result<EngineDecision, SleepToolError> {
    let act = PerformanceActivity {
        cpu_active: p.cpu_percent >= t.cpu,
        network_active: p.network_bytes_per_sec >= t.network,
        disk_write_active: p.disk_write_bytes_per_sec >= t.disk_write,
        disk_read_active: p.disk_read_bytes_per_sec >= t.disk_read,
    };
    engine.evaluate(config, now_ms, Ok(act), Ok(p.sound_rms >= SOUND_THRESHOLD), p)
}

fn extract_inhibit(d: EngineDecision) -> Option<InhibitFactor> {
    match d {
        EngineDecision::Inhibit(s) => Some(s.factor),
        _ => None,
    }
}

#[test]
fn sleep_when_no_activity() {
    let config = Config::default();
    let platform = idle_only(601);
    let mut engine = Engine::new();
    assert_eq!(
        evaluate_at(&mut engine, &config, &Thresholds::default(), &platform, 0).unwrap(),
        EngineDecision::Sleep
    );
}

#[test]
fn inhibit_by_input_when_user_active() {
    let config = Config::default();
    let platform = idle_only(0);
    let mut engine = Engine::new();
    let decision = evaluate_at(&mut engine, &config, &Thresholds::default(), &platform, 0).unwrap();
    assert_eq!(extract_inhibit(decision), Some(InhibitFactor::Input));
}

#[test]
fn inhibit_by_cpu_when_cpu_high() {
    let config = Config::default();
    let t = Thresholds { cpu: 5.0, ..Thresholds::default() };
    let platform = MockPlatform::new().idle(601).cpu(50.0);
    let mut engine = Engine::new();
    let decision = evaluate_at(&mut engine, &config, &t, &platform, 0).unwrap();
    assert_eq!(extract_inhibit(decision), Some(InhibitFactor::Cpu));
}

#[test]
fn cpu_disabled_ignores_cpu_value() {
    let mut config = Config::default();
    config.cpu.enabled = false;
    let t = Thresholds { cpu: 0.0, ..Thresholds::default() };
    let platform = MockPlatform::new().idle(601).cpu(99.0);
    let mut engine = Engine::new();
    assert_eq!(evaluate_at(&mut engine, &config, &t, &platform, 0).unwrap(), EngineDecision::Sleep);
}

#[test]
fn input_dominates_when_user_active_and_cpu_low() {
    let config = Config::default();
    let t = Thresholds { cpu: 5.0, ..Thresholds::default() };
    let platform = MockPlatform::new().idle(0).cpu(0.0);
    let mut engine = Engine::new();
    let decision = evaluate_at(&mut engine, &config, &t, &platform, 0).unwrap();
    assert_eq!(extract_inhibit(decision), Some(InhibitFactor::Input));
}

#[test]
fn network_high_triggers_inhibit() {
    let config = Config::default();
    let t = Thresholds { network: 1000.0, ..Thresholds::default() };
    let platform = MockPlatform::new().idle(601).network_kb(100.0);
    let mut engine = Engine::new();
    let decision = evaluate_at(&mut engine, &config, &t, &platform, 0).unwrap();
    assert_eq!(extract_inhibit(decision), Some(InhibitFactor::Network));
}

#[test]
fn sound_loud_triggers_inhibit() {
    let mut config = Config::default();
    config.sound.enabled = true;
    let platform = MockPlatform::new().idle(601).sound_rms(0.5);
    let mut engine = Engine::new();
    let decision = evaluate_at(&mut engine, &config, &Thresholds::default(), &platform, 0).unwrap();
    assert_eq!(extract_inhibit(decision), Some(InhibitFactor::Sound));
}

#[test]
fn process_running_triggers_inhibit() {
    let mut config = Config::default();
    config.process.watched = vec!["target.exe".to_string()];
    let platform = MockPlatform::new().idle(601).processes(&["target.exe"]);
    let mut engine = Engine::new();
    let decision = evaluate_at(&mut engine, &config, &Thresholds::default(), &platform, 0).unwrap();
    assert_eq!(extract_inhibit(decision), Some(InhibitFactor::Process));
}

#[test]
fn process_not_running_does_not_inhibit() {
    let mut config = Config::default();
    config.process.watched = vec!["target.exe".to_string()];
    let platform = MockPlatform::new().idle(601).processes(&["other.exe"]);
    let mut engine = Engine::new();
    assert_eq!(
        evaluate_at(&mut engine, &config, &Thresholds::default(), &platform, 0).unwrap(),
        EngineDecision::Sleep
    );
}

#[test]
fn priority_picks_lowest_priority_value() {
    let mut config = Config::default();
    let t = Thresholds { cpu: 0.0, ..Thresholds::default() };
    config.process.watched = vec!["a.exe".to_string()];
    let platform = MockPlatform::new().idle(601).cpu(50.0).processes(&["a.exe"]);
    let mut engine = Engine::new();
    let decision = evaluate_at(&mut engine, &config, &t, &platform, 0).unwrap();
    assert_eq!(extract_inhibit(decision), Some(InhibitFactor::Process));
}

#[test]
fn priority_overrides_input_for_specific_factor() {
    let config = Config::default();
    let t = Thresholds { cpu: 0.0, ..Thresholds::default() };
    let platform = MockPlatform::new().idle(0).cpu(50.0);
    let mut engine = Engine::new();
    let decision = evaluate_at(&mut engine, &config, &t, &platform, 0).unwrap();
    assert_eq!(extract_inhibit(decision), Some(InhibitFactor::Cpu));
}

#[test]
fn paused_state_yields_paused_decision() {
    let config = Config::default();
    let platform = idle_only(601);
    let mut engine = Engine::new();
    engine.set_paused(true);
    assert_eq!(
        evaluate_at(&mut engine, &config, &Thresholds::default(), &platform, 0).unwrap(),
        EngineDecision::Paused
    );
}

#[test]
fn paused_continues_even_when_activity_present() {
    let config = Config::default();
    let platform = MockPlatform::new().idle(0).cpu(99.0);
    let mut engine = Engine::new();
    engine.set_paused(true);
    assert_eq!(
        evaluate_at(&mut engine, &config, &Thresholds::default(), &platform, 0).unwrap(),
        EngineDecision::Paused
    );
}

#[test]
fn resume_cooldown_returns_cooldown_decision() {
    let mut config = Config::default();
    config.sleep.resume_cooldown_seconds = 60;
    let platform = idle_only(601);
    let mut engine = Engine::new();
    engine.notify_resumed(5_000);
    let decision = evaluate_at(&mut engine, &config, &Thresholds::default(), &platform, 5_000).unwrap();
    assert!(matches!(decision, EngineDecision::Cooldown { .. }));
}

#[test]
fn cooldown_carries_remaining_seconds() {
    let mut config = Config::default();
    config.sleep.resume_cooldown_seconds = 60;
    let platform = idle_only(601);
    let mut engine = Engine::new();
    engine.notify_resumed(5_000);
    let decision = evaluate_at(&mut engine, &config, &Thresholds::default(), &platform, 5_000).unwrap();
    if let EngineDecision::Cooldown { remaining_secs } = decision {
        assert!(remaining_secs <= 60);
    } else {
        panic!("Expected Cooldown decision");
    }
}

#[test]
fn cooldown_decision_does_not_pretend_to_be_input() {
    let mut config = Config::default();
    config.sleep.resume_cooldown_seconds = 60;
    let platform = idle_only(601);
    let mut engine = Engine::new();
    engine.notify_resumed(5_000);
    let decision = evaluate_at(&mut engine, &config, &Thresholds::default(), &platform, 5_000).unwrap();
    assert!(!matches!(decision, EngineDecision::Inhibit(_)));
}

#[test]
fn resume_cooldown_lifts_after_period() {
    let config = Config::default();
    let platform = idle_only(601);
    let mut engine = Engine::new();
    engine.notify_resumed(5_000);
    let now = 5_000 + 1_100;
    if config.sleep.resume_cooldown_seconds == 0 {
        assert_eq!(
            evaluate_at(&mut engine, &config, &Thresholds::default(), &platform, now).unwrap(),
            EngineDecision::Sleep
        );
    }
}

#[test]
fn cpu_uses_configured_threshold() {
    let config = Config::default();
    let t = Thresholds { cpu: 30.0, ..Thresholds::default() };
    let platform = MockPlatform::new().idle(601).cpu(20.0);
    let mut engine = Engine::new();
    assert_eq!(evaluate_at(&mut engine, &config, &t, &platform, 0).unwrap(), EngineDecision::Sleep);
}

#[test]
fn legacy_input_flag_passed_through() {
    let config = Config::default();
    let platform = idle_only(601);
    let mut engine = Engine::new();
    let _ = evaluate_at(&mut engine, &config, &Thresholds::default(), &platform, 0).unwrap();
}

#[test]
fn empty_engine_when_all_disabled_yields_sleep() {
    let mut config = Config::default();
    config.cpu.enabled = false;
    config.network.enabled = false;
    config.disk.write_enabled = false;
    config.disk.read_enabled = false;
    config.sound.enabled = false;
    config.process.watched.clear();
    let platform = idle_and_cpu(601, 0.0);
    let mut engine = Engine::new();
    assert_eq!(
        evaluate_at(&mut engine, &config, &Thresholds::default(), &platform, 0).unwrap(),
        EngineDecision::Sleep
    );
}

#[test]
fn threshold_config_holds_short_pulses() {
    let mut config = Config::default();
    let t = Thresholds { cpu: 50.0, ..Thresholds::default() };
    config.cpu.delay_seconds = 60;
    let platform = MockPlatform::new().idle(601).cpu(80.0);
    let mut engine = Engine::new();
    let first = evaluate_at(&mut engine, &config, &t, &platform, 0).unwrap();
    assert_eq!(extract_inhibit(first), Some(InhibitFactor::Cpu));
}

#[test]
fn threshold_after_active_pulse_still_inhibits_during_delay() {
    let mut config = Config::default();
    let t = Thresholds { cpu: 50.0, ..Thresholds::default() };
    config.cpu.delay_seconds = 60;
    let mut platform = MockPlatform::new().idle(601).cpu(80.0);
    let mut engine = Engine::new();
    let first = evaluate_at(&mut engine, &config, &t, &platform, 1_000).unwrap();
    assert_eq!(extract_inhibit(first), Some(InhibitFactor::Cpu));
    platform.cpu_percent = 0.0;
    let second = evaluate_at(&mut engine, &config, &t, &platform, 1_010).unwrap();
    assert_eq!(extract_inhibit(second), Some(InhibitFactor::Cpu));
}

#[test]
fn threshold_config_default_behavior() {
    let config = Config::default();
    assert!(config.cpu.enabled);
    assert_eq!(Thresholds::default().cpu, 5.0);
    assert_eq!(config.cpu.delay_seconds, 10);
}

#[test]
fn test_sleep_when_completely_idle() {
    let config = Config::default();
    let platform = idle_and_cpu(601, 0.0);
    let mut engine = Engine::new();
    assert_eq!(
        evaluate_at(&mut engine, &config, &Thresholds::default(), &platform, 0).unwrap(),
        EngineDecision::Sleep
    );
}

#[test]
fn test_inhibit_when_cpu_high() {
    let config = Config::default();
    let t = Thresholds { cpu: 1.0, ..Thresholds::default() };
    let platform = idle_and_cpu(601, 5.0);
    let mut engine = Engine::new();
    let decision = evaluate_at(&mut engine, &config, &t, &platform, 0).unwrap();
    assert!(matches!(decision, EngineDecision::Inhibit(_)));
}

#[test]
fn hold_ends_after_delay_and_machine_may_sleep() {
    let config = Config::default();
    let t = Thresholds::default();
    let mut platform = MockPlatform::new().idle(601).cpu(80.0);
    let mut engine = Engine::new();
    assert_eq!(extract_inhibit(evaluate_at(&mut engine, &config, &t, &platform, 0).unwrap()), Some(InhibitFactor::Cpu));
    platform.cpu_percent = 0.0;
    assert_eq!(extract_inhibit(evaluate_at(&mut engine, &config, &t, &platform, 9_999).unwrap()), Some(InhibitFactor::Cpu));
    assert_eq!(evaluate_at(&mut engine, &config, &t, &platform, 10_000).unwrap(), EngineDecision::Sleep);
}

#[test]
fn cooldown_remaining_counts_down_then_ends() {
    let config = Config::default();
    let platform = idle_only(601);
    let mut engine = Engine::new();
    engine.notify_resumed(1_000);
    assert_eq!(
        evaluate_at(&mut engine, &config, &Thresholds::default(), &platform, 11_500).unwrap(),
        EngineDecision::Cooldown { remaining_secs: 50 }
    );
    assert_eq!(
        evaluate_at(&mut engine, &config, &Thresholds::default(), &platform, 61_000).unwrap(),
        EngineDecision::Sleep
    );
}

#[test]
fn probe_errors_are_reported_in_sampling_order() {
    let mut config = Config::default();
    config.process.watched = vec!["a.exe".to_string()];
    let mut engine = Engine::new();
    let act = PerformanceActivity { cpu_active: true, network_active: false, disk_write_active: false, disk_read_active: false };
    let r = engine.evaluate_readings(&config, 0, act, Readings {
        idle_seconds: Ok(601),
        audible: Err(SleepToolError::Platform("audio".to_string())),
        running_processes: Err(SleepToolError::Platform("procs".to_string())),
    });
    assert_eq!(r, Err(SleepToolError::Platform("audio".to_string())));
    let r = engine.evaluate_readings(&config, 1, PerformanceActivity { cpu_active: false, ..act }, Readings {
        idle_seconds: Ok(601),
        audible: Ok(false),
        running_processes: Err(SleepToolError::Platform("procs".to_string())),
    });
    assert_eq!(r, Err(SleepToolError::Platform("procs".to_string())));
    let r = engine.evaluate_readings(&config, 2, PerformanceActivity { cpu_active: false, ..act }, Readings {
        idle_seconds: Ok(601),
        audible: Ok(false),
        running_processes: Ok(vec![]),
    });
    assert_eq!(r, Ok(EngineDecision::Inhibit(MonitorState { inhibit: true, factor: InhibitFactor::Cpu })));
}

#[test]
fn performance_error_is_returned() {
    let config = Config::default();
    let mut engine = Engine::new();
    let r = engine.evaluate(&config, 0, Err(SleepToolError::Platform("pdh".to_string())), Ok(false), &idle_only(0));
    assert_eq!(r, Err(SleepToolError::Platform("pdh".to_string())));
}

/// A platform whose idle time depends on the input detection mode it is
/// asked in.
struct ModeProbe;

impl InputProbe for ModeProbe {
    fn last_input_idle_seconds(&self, legacy_input: bool) -> Result<u64, SleepToolError> {
        if legacy_input {
            Ok(0)
        } else {
            Ok(100_000)
        }
    }
}

impl ProcessProbe for ModeProbe {
    fn list_running_processes(&self) -> Result<Vec<String>, SleepToolError> {
        Ok(Vec::new())
    }
}

#[test]
fn idle_probe_is_asked_in_the_configured_mode() {
    let mut config = Config::default();
    config.sound.enabled = false;
    let act = PerformanceActivity {
        cpu_active: false,
        network_active: false,
        disk_write_active: false,
        disk_read_active: false,
    };
    let mut engine = Engine::new();
    let d = engine.evaluate(&config, 1_000_000, Ok(act), Ok(false), &ModeProbe).unwrap();
    assert_eq!(d, EngineDecision::Sleep);
    config.general.legacy_input = true;
    let mut engine = Engine::new();
    let d = engine.evaluate(&config, 1_000_000, Ok(act), Ok(false), &ModeProbe).unwrap();
    assert_eq!(extract_inhibit(d), Some(InhibitFactor::Input));
}
