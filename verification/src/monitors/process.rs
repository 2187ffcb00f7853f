//! Running processes: the machine stays awake while a watched program runs.
use vstd::prelude::*;
use crate::config::Config;
use crate::monitors::{InhibitFactor, MonitorState};

verus! {

/// Some watched name equals some running process name.
pub open spec fn any_watched_running(watched: Seq<Seq<char>>, running: Seq<Seq<char>>) -> bool {
    exists|i: int, j: int|
        0 <= i < watched.len() && 0 <= j < running.len() && #[trigger] watched[i]
            == #[trigger] running[j]
}

/// The position of `name` among `names`, if it is there.
fn position_of(names: &Vec<String>, name: &String) -> (r: Option<usize>)
    ensures
        r matches Some(j) ==> j < names@.len() && names.deep_view()[j as int] == name@,
        r is None ==> forall|k: int| 0 <= k < names@.len() ==> name@ != #[trigger] names.deep_view()[k],
{
    let n = names.len();
    let mut j: usize = 0;
    while j < n
        invariant
            n == names@.len(),
            j <= n,
            forall|k: int| 0 <= k < j ==> name@ != #[trigger] names.deep_view()[k],
        decreases n - j,
    {
        if names[j] == *name {
            return Some(j);
        }
        j = j + 1;
    }
    None
}

/// Watches the list of running processes for the configured names.
#[derive(Debug, Clone, Copy, PartialEq, Eq)]
pub struct ProcessMonitor;

impl ProcessMonitor {
    pub fn new() -> (r: Self) {
        ProcessMonitor
    }

    pub fn default_factor(&self) -> (r: InhibitFactor)
        ensures
            r == InhibitFactor::Process,
    {
        InhibitFactor::Process
    }

    /// The monitor runs when at least one name is watched.
    pub fn is_enabled(&self, config: &Config) -> (r: bool)
        ensures
            r == (config.process.watched@.len() > 0),
    {
        config.process.watched.len() > 0
    }

    /// `running` holds the names of the running processes. The activity is
    /// present when a watched name is among them.
    pub fn sample(&self, config: &Config, running: &Vec<String>) -> (r: MonitorState)
        ensures
            r == (MonitorState {
                inhibit: any_watched_running(
                    config.process.watched.deep_view(),
                    running.deep_view(),
                ),
                factor: InhibitFactor::Process,
            }),
    {
        let watched = &config.process.watched;
        let n = watched.len();
        assert(watched.deep_view() == config.process.watched.deep_view());
        let mut i: usize = 0;
        while i < n
            invariant
                n == watched@.len(),
                watched.deep_view() == config.process.watched.deep_view(),
                watched.deep_view().len() == n,
                running.deep_view().len() == running@.len(),
                i <= n,
                forall|k: int, j: int|
                    0 <= k < i && 0 <= j < running@.len() ==> #[trigger] watched.deep_view()[k]
                        != #[trigger] running.deep_view()[j],
            decreases n - i,
        {
            assert(watched.deep_view()[i as int] == watched@[i as int]@);
            match position_of(running, &watched[i]) {
                Some(j) => {
                    proof {
                        let wv = config.process.watched.deep_view();
                        let rv = running.deep_view();
                        assert(wv[i as int] == rv[j as int]);
                    }
                    return MonitorState { inhibit: true, factor: InhibitFactor::Process };
                },
                None => {},
            }
            i = i + 1;
        }
        MonitorState { inhibit: false, factor: InhibitFactor::Process }
    }
}

} // verus!
