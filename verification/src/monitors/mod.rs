//! The monitors: each one reports whether some activity keeps the machine
//! awake.
use vstd::prelude::*;

pub mod cpu;
pub mod disk;
pub mod input;
pub mod network;
pub mod process;
pub mod sound;
pub mod threshold;

verus! {

/// The activity that keeps the machine awake. When several do, the one
/// with the smallest priority number is reported.
#[derive(Debug, Clone, Copy, PartialEq, Eq, Structural)]
pub enum InhibitFactor {
    Process,
    Sound,
    Cpu,
    Network,
    DiskRead,
    DiskWrite,
    Input,
}

/// The priority number of a factor: a smaller number takes precedence.
pub open spec fn priority_spec(f: InhibitFactor) -> u8 {
    match f {
        InhibitFactor::Process => 2,
        InhibitFactor::Sound => 3,
        InhibitFactor::Cpu => 4,
        InhibitFactor::Network => 5,
        InhibitFactor::DiskRead => 6,
        InhibitFactor::DiskWrite => 7,
        InhibitFactor::Input => 8,
    }
}

/// The name a factor is shown with.
pub open spec fn label_spec(f: InhibitFactor) -> Seq<char> {
    match f {
        InhibitFactor::Process => "Process"@,
        InhibitFactor::Sound => "Sound"@,
        InhibitFactor::Cpu => "CPU"@,
        InhibitFactor::Network => "Network"@,
        InhibitFactor::DiskRead => "Disk Read"@,
        InhibitFactor::DiskWrite => "Disk Write"@,
        InhibitFactor::Input => "Input"@,
    }
}

impl InhibitFactor {
    /// The priority number of the factor (2 for `Process` up to 8 for
    /// `Input`); a smaller number takes precedence.
    pub fn priority(self) -> (r: u8)
        ensures
            r == priority_spec(self),
    {
        match self {
            InhibitFactor::Process => 2,
            InhibitFactor::Sound => 3,
            InhibitFactor::Cpu => 4,
            InhibitFactor::Network => 5,
            InhibitFactor::DiskRead => 6,
            InhibitFactor::DiskWrite => 7,
            InhibitFactor::Input => 8,
        }
    }

    /// The name the factor is shown with.
    pub fn label(self) -> (r: &'static str)
        ensures
            r@ == label_spec(self),
    {
        match self {
            InhibitFactor::Process => "Process",
            InhibitFactor::Sound => "Sound",
            InhibitFactor::Cpu => "CPU",
            InhibitFactor::Network => "Network",
            InhibitFactor::DiskRead => "Disk Read",
            InhibitFactor::DiskWrite => "Disk Write",
            InhibitFactor::Input => "Input",
        }
    }
}

/// Different factors have different priority numbers, so the factor that
/// takes precedence is always unique; the numbers lie in `2..=8`.
pub proof fn law_priority_is_injective(f: InhibitFactor, g: InhibitFactor)
    ensures
        priority_spec(f) == priority_spec(g) <==> f == g,
        2 <= priority_spec(f) <= 8,
{
}

/// The outcome of one sample of a monitor.
#[derive(Debug, Clone, Copy, PartialEq, Eq, Structural)]
pub struct MonitorState {
    /// The activity is present: the machine must stay awake.
    pub inhibit: bool,
    /// The monitor that took the sample.
    pub factor: InhibitFactor,
}

} // verus!
