//! What the tray icon shows.
use vstd::prelude::*;
use crate::monitors::{label_spec, InhibitFactor};
use crate::text::ascii_lower_seq;
use crate::tray::icon::{icon_kind_spec, icon_name_spec, IconKind};

pub mod icon;
pub mod menu;

verus! {

/// The first line of the tray tooltip.
pub open spec fn tooltip_status_spec(factor: Option<InhibitFactor>, paused: bool) -> Seq<char> {
    if paused {
        "SleepTool Rust (一時停止中)"@
    } else {
        match factor {
            Some(InhibitFactor::Process) => "SleepTool Rust - プロセス実行中"@,
            Some(InhibitFactor::Sound) => "SleepTool Rust - サウンド出力中"@,
            Some(InhibitFactor::Cpu) => "SleepTool Rust - CPU使用中"@,
            Some(InhibitFactor::Network) => "SleepTool Rust - ネットワーク使用中"@,
            Some(InhibitFactor::DiskRead) => "SleepTool Rust - ディスク読み込み中"@,
            Some(InhibitFactor::DiskWrite) => "SleepTool Rust - ディスク書き込み中"@,
            Some(InhibitFactor::Input) => "SleepTool Rust - 入力検知中"@,
            None => "SleepTool Rust"@,
        }
    }
}

/// The first line of the tray tooltip: the pause, or what keeps the
/// machine awake.
pub fn tooltip_status(factor: Option<InhibitFactor>, paused: bool) -> (r: &'static str)
    ensures
        r@ == tooltip_status_spec(factor, paused),
{
    if paused {
        return "SleepTool Rust (一時停止中)";
    }
    match factor {
        Some(InhibitFactor::Process) => "SleepTool Rust - プロセス実行中",
        Some(InhibitFactor::Sound) => "SleepTool Rust - サウンド出力中",
        Some(InhibitFactor::Cpu) => "SleepTool Rust - CPU使用中",
        Some(InhibitFactor::Network) => "SleepTool Rust - ネットワーク使用中",
        Some(InhibitFactor::DiskRead) => "SleepTool Rust - ディスク読み込み中",
        Some(InhibitFactor::DiskWrite) => "SleepTool Rust - ディスク書き込み中",
        Some(InhibitFactor::Input) => "SleepTool Rust - 入力検知中",
        None => "SleepTool Rust",
    }
}

/// The name of the icon for a factor in the single-theme icon set:
/// `paused` while paused, the input and idle states share `default`.
pub open spec fn factor_icon_name_spec(factor: Option<InhibitFactor>, paused: bool) -> Seq<char> {
    if paused {
        "paused"@
    } else {
        match factor {
            Some(InhibitFactor::Process) => "process"@,
            Some(InhibitFactor::Sound) => "sound"@,
            Some(InhibitFactor::Cpu) => "cpu"@,
            Some(InhibitFactor::Network) => "network"@,
            Some(InhibitFactor::DiskRead) => "disk"@,
            Some(InhibitFactor::DiskWrite) => "disk"@,
            Some(InhibitFactor::Input) => "default"@,
            None => "default"@,
        }
    }
}

/// The name of the icon for a factor in the single-theme icon set.
pub fn factor_icon_name(factor: Option<InhibitFactor>, paused: bool) -> (r: &'static str)
    ensures
        r@ == factor_icon_name_spec(factor, paused),
{
    if paused {
        return "paused";
    }
    match factor {
        Some(InhibitFactor::Process) => "process",
        Some(InhibitFactor::Sound) => "sound",
        Some(InhibitFactor::Cpu) => "cpu",
        Some(InhibitFactor::Network) => "network",
        Some(InhibitFactor::DiskRead) | Some(InhibitFactor::DiskWrite) => "disk",
        Some(InhibitFactor::Input) | None => "default",
    }
}

/// The tray icon of a state is the icon of the factor that is reported:
/// while paused the pause icon, for CPU, network, sound and process
/// activity the icon named after the factor (its label in lower case), the
/// disk icon for either disk factor, and the default icon for input or no
/// activity.
pub proof fn law_icon_names_the_factor(f: Option<InhibitFactor>, paused: bool)
    ensures
        !(f == Some(InhibitFactor::Input) && !paused) ==> factor_icon_name_spec(f, paused)
            == icon_name_spec(icon_kind_spec(f, paused)),
        f == Some(InhibitFactor::Input) && !paused ==> factor_icon_name_spec(f, paused)
            == icon_name_spec(IconKind::Default),
        forall|g: InhibitFactor|
            g == InhibitFactor::Cpu || g == InhibitFactor::Network || g == InhibitFactor::Sound || g
                == InhibitFactor::Process ==> #[trigger] factor_icon_name_spec(Some(g), false)
                == ascii_lower_seq(label_spec(g)),
{
    reveal_strlit("CPU");
    reveal_strlit("cpu");
    reveal_strlit("Network");
    reveal_strlit("network");
    reveal_strlit("Sound");
    reveal_strlit("sound");
    reveal_strlit("Process");
    reveal_strlit("process");
    assert(ascii_lower_seq("CPU"@) =~= "cpu"@);
    assert(ascii_lower_seq("Network"@) =~= "network"@);
    assert(ascii_lower_seq("Sound"@) =~= "sound"@);
    assert(ascii_lower_seq("Process"@) =~= "process"@);
}

} // verus!
