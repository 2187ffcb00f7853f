//! The library's error type.
use vstd::prelude::*;
use crate::text::{chars_of, push_all};

verus! {

/// What went wrong: the variants carry the message of the failure.
#[derive(Debug, Clone, PartialEq, Eq)]
pub enum SleepToolError {
    Config(String),
    Platform(String),
    Monitor(String),
    Io(String),
}

/// The text an error is shown with: a prefix naming its kind, then its
/// message.
pub open spec fn error_text(e: SleepToolError) -> Seq<char> {
    match e {
        SleepToolError::Config(m) => "config error: "@ + m@,
        SleepToolError::Platform(m) => "platform error: "@ + m@,
        SleepToolError::Monitor(m) => "monitor error: "@ + m@,
        SleepToolError::Io(m) => "io error: "@ + m@,
    }
}

impl SleepToolError {
    /// The text the error is shown with (`config error: ...`, ...).
    pub fn message(&self) -> (r: String)
        ensures
            r@ == error_text(*self),
    {
        let (prefix, m) = match self {
            SleepToolError::Config(m) => ("config error: ", m),
            SleepToolError::Platform(m) => ("platform error: ", m),
            SleepToolError::Monitor(m) => ("monitor error: ", m),
            SleepToolError::Io(m) => ("io error: ", m),
        };
        let mut r = String::new();
        let p = chars_of(prefix);
        push_all(&mut r, &p);
        let mc = chars_of(m.as_str());
        push_all(&mut r, &mc);
        r
    }
}

} // verus!
