//! The decision whether the machine may sleep now.
//!
//! Monitors are sampled in the order input, CPU, network, disk write,
//! sound, disk read, process; disabled monitors are skipped. When some
//! monitors report activity, the one whose factor has the smallest priority
//! number is reported; when none does, the machine may sleep. While paused,
//! and for a while after the machine resumed, no monitor is sampled.
//! Times are milliseconds on a monotonic clock.
use vstd::prelude::*;
use crate::config::Config;
use crate::error::SleepToolError;
use crate::monitors::cpu::CpuMonitor;
use crate::monitors::disk::{DiskReadMonitor, DiskWriteMonitor};
use crate::monitors::input::InputMonitor;
use crate::monitors::network::NetworkMonitor;
use crate::monitors::process::{any_watched_running, ProcessMonitor};
use crate::monitors::sound::SoundMonitor;
use crate::monitors::threshold::{elapsed_seconds, elapsed_secs, holds, next_last_active};
use crate::monitors::{priority_spec, InhibitFactor, MonitorState};
use crate::platform::{InputProbe, PerformanceActivity, ProcessProbe};

verus! {

/// What the engine decided.
#[derive(Debug, Clone, Copy, PartialEq, Eq, Structural)]
pub enum EngineDecision {
    /// Nothing keeps the machine awake.
    Sleep,
    /// The monitor with the highest precedence among those that report
    /// activity.
    Inhibit(MonitorState),
    /// Monitoring is paused.
    Paused,
    /// The machine resumed recently; this many seconds of the quiet time
    /// are left.
    Cooldown { remaining_secs: u64 },
}

/// What the platform reported for one evaluation: the time since the last
/// input, whether sound is audible, and the running processes.
#[derive(Debug)]
pub struct Readings {
    pub idle_seconds: Result<u64, SleepToolError>,
    pub audible: Result<bool, SleepToolError>,
    pub running_processes: Result<Vec<String>, SleepToolError>,
}

/// The state of the engine as the contracts see it.
pub struct EngineView {
    pub paused: bool,
    pub last_resume: Option<u64>,
    pub cpu: Option<u64>,
    pub network: Option<u64>,
    pub disk_write: Option<u64>,
    pub disk_read: Option<u64>,
}

/// Samples the monitors and decides.
pub struct Engine {
    input: InputMonitor,
    cpu: CpuMonitor,
    network: NetworkMonitor,
    disk_write: DiskWriteMonitor,
    sound: SoundMonitor,
    disk_read: DiskReadMonitor,
    process: ProcessMonitor,
    paused: bool,
    last_resume: Option<u64>,
}

impl View for Engine {
    type V = EngineView;

    closed spec fn view(&self) -> EngineView {
        EngineView {
            paused: self.paused,
            last_resume: self.last_resume,
            cpu: self.cpu@,
            network: self.network@,
            disk_write: self.disk_write@,
            disk_read: self.disk_read@,
        }
    }
}

/// The decision taken before any monitor is sampled: paused, or within
/// the quiet time after a resume.
pub open spec fn gate_spec(v: EngineView, config: Config, now: u64) -> Option<EngineDecision> {
    if v.paused {
        Some(EngineDecision::Paused)
    } else {
        match v.last_resume {
            Some(t) => if elapsed_secs(t, now) < config.sleep.resume_cooldown_seconds {
                Some(
                    EngineDecision::Cooldown {
                        remaining_secs: (config.sleep.resume_cooldown_seconds - elapsed_secs(
                            t,
                            now,
                        )) as u64,
                    },
                )
            } else {
                None
            },
            None => None,
        }
    }
}

/// A threshold monitor's last activity after a sample, or unchanged when
/// the monitor is disabled.
pub open spec fn updated(last: Option<u64>, enabled: bool, active: bool, now: u64) -> Option<u64> {
    if enabled {
        next_last_active(last, active, now)
    } else {
        last
    }
}

/// Whether a threshold monitor reports activity: it is enabled, and its
/// reading is active now or was active less than the delay ago.
pub open spec fn threshold_inhibits(
    last: Option<u64>,
    enabled: bool,
    active: bool,
    now: u64,
    delay_seconds: u64,
) -> bool {
    enabled && (active || holds(next_last_active(last, active, now), now, delay_seconds))
}

/// Whether the monitor of factor `f` reports activity when sampled at
/// `now` from the state `v`.
pub open spec fn factor_inhibits(
    f: InhibitFactor,
    v: EngineView,
    config: Config,
    act: PerformanceActivity,
    idle: u64,
    audible: bool,
    running: Seq<Seq<char>>,
    now: u64,
) -> bool {
    match f {
        InhibitFactor::Input => idle < config.sleep.delay_seconds,
        InhibitFactor::Cpu => threshold_inhibits(
            v.cpu,
            config.cpu.enabled,
            act.cpu_active,
            now,
            config.cpu.delay_seconds,
        ),
        InhibitFactor::Network => threshold_inhibits(
            v.network,
            config.network.enabled,
            act.network_active,
            now,
            config.network.delay_seconds,
        ),
        InhibitFactor::DiskWrite => threshold_inhibits(
            v.disk_write,
            config.disk.write_enabled,
            act.disk_write_active,
            now,
            config.disk.write_delay_seconds,
        ),
        InhibitFactor::DiskRead => threshold_inhibits(
            v.disk_read,
            config.disk.read_enabled,
            act.disk_read_active,
            now,
            config.disk.read_delay_seconds,
        ),
        InhibitFactor::Sound => config.sound.enabled && audible,
        InhibitFactor::Process => config.process.watched@.len() > 0 && any_watched_running(
            config.process.watched.deep_view(),
            running,
        ),
    }
}

/// The reporting factor: the first in the order process, sound, CPU,
/// network, disk read, disk write, input (increasing priority number)
/// whose monitor reports activity.
pub open spec fn top_factor(
    v: EngineView,
    config: Config,
    act: PerformanceActivity,
    idle: u64,
    audible: bool,
    running: Seq<Seq<char>>,
    now: u64,
) -> Option<InhibitFactor> {
    let inh = |f: InhibitFactor| factor_inhibits(f, v, config, act, idle, audible, running, now);
    if inh(InhibitFactor::Process) {
        Some(InhibitFactor::Process)
    } else if inh(InhibitFactor::Sound) {
        Some(InhibitFactor::Sound)
    } else if inh(InhibitFactor::Cpu) {
        Some(InhibitFactor::Cpu)
    } else if inh(InhibitFactor::Network) {
        Some(InhibitFactor::Network)
    } else if inh(InhibitFactor::DiskRead) {
        Some(InhibitFactor::DiskRead)
    } else if inh(InhibitFactor::DiskWrite) {
        Some(InhibitFactor::DiskWrite)
    } else if inh(InhibitFactor::Input) {
        Some(InhibitFactor::Input)
    } else {
        None
    }
}

/// The decision for a reporting factor, if any.
pub open spec fn decision_for(top: Option<InhibitFactor>) -> EngineDecision {
    match top {
        Some(f) => EngineDecision::Inhibit(MonitorState { inhibit: true, factor: f }),
        None => EngineDecision::Sleep,
    }
}

/// The readings of a `Readings` value as the contracts see them.
pub open spec fn running_view(r: Result<Vec<String>, SleepToolError>) -> Result<
    Seq<Seq<char>>,
    SleepToolError,
> {
    match r {
        Ok(v) => Ok(v.deep_view()),
        Err(e) => Err(e),
    }
}

/// Whether an evaluation asks the platform for the running processes:
/// the idle time was read, sound (when watched) was read, and at least one
/// process is watched.
pub open spec fn lists_processes(
    config: Config,
    idle: Result<u64, SleepToolError>,
    audible: Result<bool, SleepToolError>,
) -> bool {
    &&& idle is Ok
    &&& !(audible is Err && config.sound.enabled)
    &&& config.process.watched@.len() > 0
}

/// The new state and the result of sampling the monitors from the state
/// `v` at `now`. An error of a probe ends the evaluation: the monitors
/// sampled before it keep their new state.
pub open spec fn outcome(
    v: EngineView,
    config: Config,
    now: u64,
    act: PerformanceActivity,
    idle: Result<u64, SleepToolError>,
    audible: Result<bool, SleepToolError>,
    running: Result<Seq<Seq<char>>, SleepToolError>,
) -> (EngineView, Result<EngineDecision, SleepToolError>) {
    match idle {
        Err(e) => (v, Err(e)),
        Ok(idle) => {
            let v1 = EngineView {
                cpu: updated(v.cpu, config.cpu.enabled, act.cpu_active, now),
                network: updated(v.network, config.network.enabled, act.network_active, now),
                disk_write: updated(
                    v.disk_write,
                    config.disk.write_enabled,
                    act.disk_write_active,
                    now,
                ),
                ..v
            };
            if config.sound.enabled && audible is Err {
                (v1, Err(audible->Err_0))
            } else {
                let v2 = EngineView {
                    disk_read: updated(
                        v.disk_read,
                        config.disk.read_enabled,
                        act.disk_read_active,
                        now,
                    ),
                    ..v1
                };
                if config.process.watched@.len() > 0 && running is Err {
                    (v2, Err(running->Err_0))
                } else {
                    let a = match audible {
                        Ok(b) => b,
                        Err(_) => false,
                    };
                    let r = match running {
                        Ok(r) => r,
                        Err(_) => Seq::<Seq<char>>::empty(),
                    };
                    (v2, Ok(decision_for(top_factor(v, config, act, idle, a, r, now))))
                }
            }
        },
    }
}

/// Keeps the reporting factor with the smaller priority number.
pub open spec fn pick(top: Option<InhibitFactor>, inhibit: bool, f: InhibitFactor) -> Option<
    InhibitFactor,
> {
    if inhibit && (top is None || priority_spec(f) < priority_spec(top->Some_0)) {
        Some(f)
    } else {
        top
    }
}

fn consider(top: Option<InhibitFactor>, s: MonitorState) -> (r: Option<InhibitFactor>)
    ensures
        r == pick(top, s.inhibit, s.factor),
{
    let better = match top {
        None => true,
        Some(t) => s.factor.priority() < t.priority(),
    };
    if s.inhibit && better {
        Some(s.factor)
    } else {
        top
    }
}

/// Picking in sampling order with smaller priority numbers preferred gives
/// the first reporting factor in priority order.
proof fn lemma_pick_order(
    bi: bool,
    bc: bool,
    bn: bool,
    bw: bool,
    bs: bool,
    br: bool,
    bp: bool,
)
    ensures
        ({
            let t = pick(
                pick(
                    pick(
                        pick(
                            pick(
                                pick(pick(None, bi, InhibitFactor::Input), bc, InhibitFactor::Cpu),
                                bn,
                                InhibitFactor::Network,
                            ),
                            bw,
                            InhibitFactor::DiskWrite,
                        ),
                        bs,
                        InhibitFactor::Sound,
                    ),
                    br,
                    InhibitFactor::DiskRead,
                ),
                bp,
                InhibitFactor::Process,
            );
            t == if bp {
                Some(InhibitFactor::Process)
            } else if bs {
                Some(InhibitFactor::Sound)
            } else if bc {
                Some(InhibitFactor::Cpu)
            } else if bn {
                Some(InhibitFactor::Network)
            } else if br {
                Some(InhibitFactor::DiskRead)
            } else if bw {
                Some(InhibitFactor::DiskWrite)
            } else if bi {
                Some(InhibitFactor::Input)
            } else {
                None
            }
        }),
{
}

impl Engine {
    /// An engine that is running and has not seen a resume or any activity.
    pub fn new() -> (r: Self)
        ensures
            r@ == (EngineView {
                paused: false,
                last_resume: None,
                cpu: None,
                network: None,
                disk_write: None,
                disk_read: None,
            }),
    {
        Engine {
            input: InputMonitor::new(),
            cpu: CpuMonitor::new(),
            network: NetworkMonitor::new(),
            disk_write: DiskWriteMonitor::new(),
            sound: SoundMonitor::new(),
            disk_read: DiskReadMonitor::new(),
            process: ProcessMonitor::new(),
            paused: false,
            last_resume: None,
        }
    }

    pub fn set_paused(&mut self, paused: bool)
        ensures
            final(self)@ == (EngineView { paused, ..old(self)@ }),
    {
        self.paused = paused;
    }

    pub fn is_paused(&self) -> (r: bool)
        ensures
            r == self@.paused,
    {
        self.paused
    }

    /// Records that the machine resumed at `now_ms`; the quiet time starts.
    pub fn notify_resumed(&mut self, now_ms: u64)
        ensures
            final(self)@ == (EngineView { last_resume: Some(now_ms), ..old(self)@ }),
    {
        self.last_resume = Some(now_ms);
    }

    /// The decision taken without sampling: `Paused` while paused,
    /// `Cooldown` within the quiet time after a resume, otherwise `None`.
    pub fn gate(&self, config: &Config, now_ms: u64) -> (r: Option<EngineDecision>)
        ensures
            r == gate_spec(self@, *config, now_ms),
    {
        if self.paused {
            return Some(EngineDecision::Paused);
        }
        match self.last_resume {
            Some(t) => {
                let elapsed = elapsed_seconds(t, now_ms);
                if elapsed < config.sleep.resume_cooldown_seconds {
                    Some(
                        EngineDecision::Cooldown {
                            remaining_secs: config.sleep.resume_cooldown_seconds - elapsed,
                        },
                    )
                } else {
                    None
                }
            },
            None => None,
        }
    }

    /// Samples input, CPU, network and disk write, in this order.
    fn sample_first(
        &mut self,
        config: &Config,
        now_ms: u64,
        act: PerformanceActivity,
        idle: u64,
    ) -> (r: Option<InhibitFactor>)
        ensures
            final(self)@ == (EngineView {
                cpu: updated(old(self)@.cpu, config.cpu.enabled, act.cpu_active, now_ms),
                network: updated(
                    old(self)@.network,
                    config.network.enabled,
                    act.network_active,
                    now_ms,
                ),
                disk_write: updated(
                    old(self)@.disk_write,
                    config.disk.write_enabled,
                    act.disk_write_active,
                    now_ms,
                ),
                ..old(self)@
            }),
            r == pick(
                pick(
                    pick(
                        pick(None, idle < config.sleep.delay_seconds, InhibitFactor::Input),
                        threshold_inhibits(
                            old(self)@.cpu,
                            config.cpu.enabled,
                            act.cpu_active,
                            now_ms,
                            config.cpu.delay_seconds,
                        ),
                        InhibitFactor::Cpu,
                    ),
                    threshold_inhibits(
                        old(self)@.network,
                        config.network.enabled,
                        act.network_active,
                        now_ms,
                        config.network.delay_seconds,
                    ),
                    InhibitFactor::Network,
                ),
                threshold_inhibits(
                    old(self)@.disk_write,
                    config.disk.write_enabled,
                    act.disk_write_active,
                    now_ms,
                    config.disk.write_delay_seconds,
                ),
                InhibitFactor::DiskWrite,
            ),
    {
        let mut top: Option<InhibitFactor> = None;
        let s = self.input.sample(config, idle);
        top = consider(top, s);
        if self.cpu.is_enabled(config) {
            let s = self.cpu.sample(config, act.cpu_active, now_ms);
            top = consider(top, s);
        }
        if self.network.is_enabled(config) {
            let s = self.network.sample(config, act.network_active, now_ms);
            top = consider(top, s);
        }
        if self.disk_write.is_enabled(config) {
            let s = self.disk_write.sample(config, act.disk_write_active, now_ms);
            top = consider(top, s);
        }
        top
    }

    /// Samples disk read.
    fn sample_disk_read(
        &mut self,
        config: &Config,
        now_ms: u64,
        act: PerformanceActivity,
        top: Option<InhibitFactor>,
    ) -> (r: Option<InhibitFactor>)
        ensures
            final(self)@ == (EngineView {
                disk_read: updated(
                    old(self)@.disk_read,
                    config.disk.read_enabled,
                    act.disk_read_active,
                    now_ms,
                ),
                ..old(self)@
            }),
            r == pick(
                top,
                threshold_inhibits(
                    old(self)@.disk_read,
                    config.disk.read_enabled,
                    act.disk_read_active,
                    now_ms,
                    config.disk.read_delay_seconds,
                ),
                InhibitFactor::DiskRead,
            ),
    {
        if self.disk_read.is_enabled(config) {
            let s = self.disk_read.sample(config, act.disk_read_active, now_ms);
            consider(top, s)
        } else {
            top
        }
    }

    /// Samples the enabled monitors at `now_ms` from the given readings and
    /// decides. `act` tells which performance readings are at or above their
    /// thresholds.
    pub fn evaluate_readings(
        &mut self,
        config: &Config,
        now_ms: u64,
        act: PerformanceActivity,
        readings: Readings,
    ) -> (r: Result<EngineDecision, SleepToolError>)
        ensures
            (final(self)@, r) == outcome(
                old(self)@,
                *config,
                now_ms,
                act,
                readings.idle_seconds,
                readings.audible,
                running_view(readings.running_processes),
            ),
    {
        let ghost v = self@;
        let ghost audible_v = readings.audible;
        let ghost running_v = running_view(readings.running_processes);
        let idle = match readings.idle_seconds {
            Ok(i) => i,
            Err(e) => {
                return Err(e);
            },
        };
        let mut top = self.sample_first(config, now_ms, act, idle);
        if config.sound.enabled {
            match readings.audible {
                Ok(b) => {
                    let s = self.sound.sample(b);
                    top = consider(top, s);
                },
                Err(e) => {
                    return Err(e);
                },
            }
        }
        top = self.sample_disk_read(config, now_ms, act, top);
        if config.process.watched.len() > 0 {
            match readings.running_processes {
                Ok(running) => {
                    let s = self.process.sample(config, &running);
                    top = consider(top, s);
                },
                Err(e) => {
                    return Err(e);
                },
            }
        }
        proof {
            let a = match audible_v {
                Ok(b) => b,
                Err(_) => false,
            };
            let rr = match running_v {
                Ok(r) => r,
                Err(_) => Seq::<Seq<char>>::empty(),
            };
            let inh = |f: InhibitFactor| factor_inhibits(f, v, *config, act, idle, a, rr, now_ms);
            lemma_pick_order(
                inh(InhibitFactor::Input),
                inh(InhibitFactor::Cpu),
                inh(InhibitFactor::Network),
                inh(InhibitFactor::DiskWrite),
                inh(InhibitFactor::Sound),
                inh(InhibitFactor::DiskRead),
                inh(InhibitFactor::Process),
            );
        }
        match top {
            Some(f) => Ok(EngineDecision::Inhibit(MonitorState { inhibit: true, factor: f })),
            None => Ok(EngineDecision::Sleep),
        }
    }

    /// Decides whether the machine may sleep at `now_ms`. While paused or
    /// within the quiet time after a resume nothing is sampled. Otherwise
    /// `performance` tells which performance readings are at or above their
    /// thresholds (or why they could not be taken), `audible` whether sound
    /// is playing, and the platform is asked for the time since the last
    /// input and, when processes are watched, for the running processes.
    pub fn evaluate<P: InputProbe + ProcessProbe>(
        &mut self,
        config: &Config,
        now_ms: u64,
        performance: Result<PerformanceActivity, SleepToolError>,
        audible: Result<bool, SleepToolError>,
        platform: &P,
    ) -> (r: Result<EngineDecision, SleepToolError>)
        ensures
            gate_spec(old(self)@, *config, now_ms) is Some ==> r == Ok::<
                EngineDecision,
                SleepToolError,
            >(gate_spec(old(self)@, *config, now_ms)->Some_0) && final(self)@ == old(self)@,
            gate_spec(old(self)@, *config, now_ms) is None && performance is Err ==> r == Err::<
                EngineDecision,
                SleepToolError,
            >(performance->Err_0) && final(self)@ == old(self)@,
            gate_spec(old(self)@, *config, now_ms) is None && performance is Ok ==> exists|
                idle: Result<u64, SleepToolError>,
                running: Result<Vec<String>, SleepToolError>,
            |
                {
                    &&& platform.idle_reading(config.general.legacy_input, idle)
                    &&& lists_processes(*config, idle, audible) ==> platform.process_reading(
                        running,
                    )
                    &&& (final(self)@, r) == #[trigger] outcome(
                        old(self)@,
                        *config,
                        now_ms,
                        performance->Ok_0,
                        idle,
                        audible,
                        running_view(running),
                    )
                },
    {
        match self.gate(config, now_ms) {
            Some(d) => {
                return Ok(d);
            },
            None => {},
        }
        let act = match performance {
            Ok(a) => a,
            Err(e) => {
                return Err(e);
            },
        };
        let idle = platform.last_input_idle_seconds(config.general.legacy_input);
        let sound_failed = match &audible {
            Ok(_) => false,
            Err(_) => config.sound.enabled,
        };
        let running = if idle.is_ok() && !sound_failed && config.process.watched.len() > 0 {
            platform.list_running_processes()
        } else {
            Ok(Vec::new())
        };
        let ghost idle_v = idle;
        let ghost running_e = running;
        let ghost running_v = running_view(running);
        let readings = Readings { idle_seconds: idle, audible, running_processes: running };
        let r = self.evaluate_readings(config, now_ms, act, readings);
        assert((self@, r) == outcome(old(self)@, *config, now_ms, act, idle_v, audible, running_v));
        assert(platform.idle_reading(config.general.legacy_input, idle_v));
        assert(lists_processes(*config, idle_v, audible) ==> platform.process_reading(running_e));
        r
    }
}

// ---------------------------------------------------------------------
// Laws
// ---------------------------------------------------------------------

/// While paused the decision is `Paused`, whatever else holds.
pub proof fn law_paused_wins(v: EngineView, config: Config, now: u64)
    requires
        v.paused,
    ensures
        gate_spec(v, config, now) == Some(EngineDecision::Paused),
{
}

/// Within the quiet time after a resume (and not paused) the decision is
/// `Cooldown`, and the seconds left are positive and at most the quiet time.
pub proof fn law_cooldown_remaining(v: EngineView, config: Config, now: u64, t: u64)
    requires
        !v.paused,
        v.last_resume == Some(t),
        elapsed_secs(t, now) < config.sleep.resume_cooldown_seconds,
    ensures
        gate_spec(v, config, now) matches Some(EngineDecision::Cooldown { remaining_secs }) && 0
            < remaining_secs <= config.sleep.resume_cooldown_seconds,
{
}

/// Once the quiet time is over (and not paused), monitors are sampled.
pub proof fn law_cooldown_ends(v: EngineView, config: Config, now: u64, t: u64)
    requires
        !v.paused,
        v.last_resume == Some(t),
        elapsed_secs(t, now) >= config.sleep.resume_cooldown_seconds,
    ensures
        gate_spec(v, config, now) is None,
{
}

/// The reported factor reports activity, and no monitor that reports
/// activity has a smaller priority number.
pub proof fn law_reported_factor_has_precedence(
    v: EngineView,
    config: Config,
    act: PerformanceActivity,
    idle: u64,
    audible: bool,
    running: Seq<Seq<char>>,
    now: u64,
    g: InhibitFactor,
)
    requires
        top_factor(v, config, act, idle, audible, running, now) is Some,
        factor_inhibits(g, v, config, act, idle, audible, running, now),
    ensures
        ({
            let f = top_factor(v, config, act, idle, audible, running, now)->Some_0;
            &&& factor_inhibits(f, v, config, act, idle, audible, running, now)
            &&& priority_spec(f) <= priority_spec(g)
        }),
{
}

/// The machine may sleep exactly when no monitor reports activity; in
/// particular never while the user was active within the sleep delay.
pub proof fn law_sleep_iff_no_activity(
    v: EngineView,
    config: Config,
    act: PerformanceActivity,
    idle: u64,
    audible: bool,
    running: Seq<Seq<char>>,
    now: u64,
)
    ensures
        decision_for(top_factor(v, config, act, idle, audible, running, now))
            == EngineDecision::Sleep <==> forall|g: InhibitFactor|
            !#[trigger] factor_inhibits(g, v, config, act, idle, audible, running, now),
        decision_for(top_factor(v, config, act, idle, audible, running, now))
            == EngineDecision::Sleep ==> idle >= config.sleep.delay_seconds,
{
    if decision_for(top_factor(v, config, act, idle, audible, running, now))
        == EngineDecision::Sleep {
        assert forall|g: InhibitFactor|
            !#[trigger] factor_inhibits(g, v, config, act, idle, audible, running, now) by {
            match g {
                InhibitFactor::Process => {},
                InhibitFactor::Sound => {},
                InhibitFactor::Cpu => {},
                InhibitFactor::Network => {},
                InhibitFactor::DiskRead => {},
                InhibitFactor::DiskWrite => {},
                InhibitFactor::Input => {},
            }
        }
    } else {
        let f = top_factor(v, config, act, idle, audible, running, now)->Some_0;
        assert(factor_inhibits(f, v, config, act, idle, audible, running, now));
    }
}

/// A disabled threshold monitor never reports activity and keeps its state.
pub proof fn law_disabled_monitor_is_ignored(
    last: Option<u64>,
    active: bool,
    now: u64,
    delay_seconds: u64,
)
    ensures
        !threshold_inhibits(last, false, active, now, delay_seconds),
        updated(last, false, active, now) == last,
{
}

/// After an evaluation at `t1` in which the CPU reading was active, the CPU
/// monitor reports activity at every later evaluation less than its delay
/// after `t1` (when the CPU monitor is enabled), so the machine does not
/// sleep then.
pub proof fn law_cpu_activity_is_held(
    v: EngineView,
    config: Config,
    t1: u64,
    act1: PerformanceActivity,
    idle1: u64,
    audible1: Result<bool, SleepToolError>,
    running1: Result<Seq<Seq<char>>, SleepToolError>,
    t2: u64,
    act2: PerformanceActivity,
    idle2: u64,
    audible2: bool,
    running2: Seq<Seq<char>>,
)
    requires
        config.cpu.enabled,
        act1.cpu_active,
        t1 <= t2,
        (t2 - t1) / 1000 < config.cpu.delay_seconds,
    ensures
        ({
            let v1 = outcome(v, config, t1, act1, Ok(idle1), audible1, running1).0;
            &&& factor_inhibits(InhibitFactor::Cpu, v1, config, act2, idle2, audible2, running2, t2)
            &&& decision_for(top_factor(v1, config, act2, idle2, audible2, running2, t2))
                != EngineDecision::Sleep
        }),
{
}

/// Whether an evaluation asks for the running processes does not depend on
/// what the sound reading says: once the idle time is read, the processes
/// are asked for exactly when at least one is watched, unless the sound
/// monitor is on and its reading failed; without the idle time they are
/// never asked for.
pub proof fn law_processes_listed_whatever_sound_says(
    config: Config,
    idle: u64,
    audible: bool,
    e: SleepToolError,
)
    ensures
        lists_processes(config, Ok(idle), Ok(audible)) <==> config.process.watched@.len() > 0,
        lists_processes(config, Ok(idle), Err(e)) <==> (config.process.watched@.len() > 0
            && !config.sound.enabled),
        !lists_processes(config, Err(e), Ok(audible)),
        !lists_processes(config, Err(e), Err(e)),
{
}

/// When a watched process runs and every reading was taken, the decision
/// is that the process keeps the machine awake, whatever the other
/// monitors report (sound playing included).
pub proof fn law_watched_process_wins(
    v: EngineView,
    config: Config,
    now: u64,
    act: PerformanceActivity,
    idle: u64,
    audible: bool,
    running: Seq<Seq<char>>,
    i: int,
    j: int,
)
    requires
        0 <= i < config.process.watched@.len(),
        0 <= j < running.len(),
        config.process.watched.deep_view()[i] == running[j],
    ensures
        outcome(v, config, now, act, Ok(idle), Ok(audible), Ok(running)).1 == Ok::<
            EngineDecision,
            SleepToolError,
        >(EngineDecision::Inhibit(MonitorState { inhibit: true, factor: InhibitFactor::Process })),
{
    assert(any_watched_running(config.process.watched.deep_view(), running));
}

} // verus!
