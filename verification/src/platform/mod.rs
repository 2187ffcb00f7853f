//! What the program needs from the operating system, and the values that
//! pass between it and the library.
//!
//! The probes are split by concern so that an implementation (or a test
//! double) can provide just the parts it needs.
mod traits;
mod types;

pub use traits::{InputProbe, Notifier, PowerControl, ProcessProbe, StartupControl};
pub use types::{InputIdleInfo, PerformanceActivity, SleepType};
