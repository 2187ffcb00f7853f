use sleeptool_rs::error::SleepToolError;
use sleeptool_rs::platform::{
    InputProbe, Notifier, PowerControl, ProcessProbe, SleepType, StartupControl,
};

type Result<T> = std::result::Result<T, SleepToolError>;

struct OnlyInput(u64);
impl InputProbe for OnlyInput {
    fn last_input_idle_seconds(&self, _legacy: bool) -> Result<u64> {
        Ok(self.0)
    }
}

struct OnlyProcess(Vec<String>);
impl ProcessProbe for OnlyProcess {
    fn list_running_processes(&self) -> Result<Vec<String>> {
        Ok(self.0.clone())
    }
}

struct OnlyPower;
impl PowerControl for OnlyPower {
    fn suspend(&self, _t: SleepType, _force: bool) -> Result<()> {
        Ok(())
    }
    fn turn_display_off(&self) -> Result<()> {
        Ok(())
    }
}

struct OnlyNotifier;
impl Notifier for OnlyNotifier {
    fn show_sleep_warning(&self, _seconds: u64, _play_sound: bool) -> Result<bool> {
        Ok(false)
    }
}

struct OnlyStartup(bool);
impl StartupControl for OnlyStartup {
    fn set_auto_start(&self, _enable: bool) -> Result<()> {
        Ok(())
    }
    fn is_auto_start_enabled(&self) -> Result<bool> {
        Ok(self.0)
    }
}

#[test]
fn input_probe_alone_is_usable() {
    let p = OnlyInput(120);
    assert_eq!(p.last_input_idle_seconds(false).unwrap(), 120);
}

#[test]
fn process_probe_alone_is_usable() {
    let p = OnlyProcess(vec!["a.exe".into(), "b.exe".into()]);
    let procs = p.list_running_processes().unwrap();
    assert_eq!(procs, vec!["a.exe", "b.exe"]);
}

#[test]
fn power_control_alone_is_usable() {
    let p = OnlyPower;
    assert!(p.suspend(SleepType::Sleep, true).is_ok());
    assert!(p.turn_display_off().is_ok());
}

#[test]
fn notifier_alone_is_usable() {
    let p = OnlyNotifier;
    assert!(!p.show_sleep_warning(5, false).unwrap());
}

#[test]
fn startup_control_alone_is_usable() {
    let p = OnlyStartup(true);
    assert!(p.is_auto_start_enabled().unwrap());
    assert!(p.set_auto_start(false).is_ok());
}
