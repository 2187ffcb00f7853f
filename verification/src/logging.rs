//! What goes into the log file, and when.
//!
//! Opening the file, the current level and the clock belong to the program;
//! this module decides whether a message is written and formats its line.
use vstd::prelude::*;
use crate::config::{log_level_rank, LogLevel};
use crate::text::{chars_of, decimal_padded_spec, push_all, push_decimal_padded};

verus! {

broadcast use vstd::string::group_string_axioms;

/// The name a level is written with.
pub open spec fn level_str_spec(level: LogLevel) -> Seq<char> {
    match level {
        LogLevel::Error => "ERROR"@,
        LogLevel::Warn => "WARN"@,
        LogLevel::Info => "INFO"@,
        LogLevel::Debug => "DEBUG"@,
        LogLevel::Off => "OFF"@,
    }
}

/// The name a level is written with.
pub fn level_str(level: LogLevel) -> (r: &'static str)
    ensures
        r@ == level_str_spec(level),
{
    match level {
        LogLevel::Error => "ERROR",
        LogLevel::Warn => "WARN",
        LogLevel::Info => "INFO",
        LogLevel::Debug => "DEBUG",
        LogLevel::Off => "OFF",
    }
}

/// A message of `level` is written when the configured level is at least
/// as verbose.
pub open spec fn should_log_spec(level: LogLevel, configured: LogLevel) -> bool {
    log_level_rank(level) <= log_level_rank(configured)
}

/// Whether a message of `level` is written under the configured level.
pub fn should_log(level: LogLevel, configured: LogLevel) -> (r: bool)
    ensures
        r == should_log_spec(level, configured),
{
    level.rank() <= configured.rank()
}

/// The line written for a message: `[timestamp] LEVEL - message`.
pub open spec fn log_line_spec(level: LogLevel, timestamp: Seq<char>, msg: Seq<char>) -> Seq<char> {
    "["@ + timestamp + "] "@ + level_str_spec(level) + " - "@ + msg
}

/// The line to write for a message of `level` at `timestamp`, or `None`
/// when the configured level leaves it out.
pub fn log_message(level: LogLevel, configured: LogLevel, timestamp: &str, msg: &str) -> (r:
    Option<String>)
    ensures
        r is Some <==> should_log_spec(level, configured),
        r matches Some(line) ==> line@ == log_line_spec(level, timestamp@, msg@),
{
    if !should_log(level, configured) {
        return None;
    }
    let mut line = String::new();
    push_all(&mut line, &chars_of("["));
    push_all(&mut line, &chars_of(timestamp));
    push_all(&mut line, &chars_of("] "));
    push_all(&mut line, &chars_of(level_str(level)));
    push_all(&mut line, &chars_of(" - "));
    push_all(&mut line, &chars_of(msg));
    assert(line@ =~= log_line_spec(level, timestamp@, msg@));
    Some(line)
}

/// A local date and time as `YYYY-MM-DD hh:mm:ss.mmm`.
pub open spec fn timestamp_spec(
    year: u16,
    month: u16,
    day: u16,
    hour: u16,
    minute: u16,
    second: u16,
    millis: u16,
) -> Seq<char> {
    decimal_padded_spec(year as nat, 4) + "-"@ + decimal_padded_spec(month as nat, 2) + "-"@
        + decimal_padded_spec(day as nat, 2) + " "@ + decimal_padded_spec(hour as nat, 2) + ":"@
        + decimal_padded_spec(minute as nat, 2) + ":"@ + decimal_padded_spec(second as nat, 2)
        + "."@ + decimal_padded_spec(millis as nat, 3)
}

/// Formats a local date and time as `YYYY-MM-DD hh:mm:ss.mmm`, each field
/// padded with zeros.
pub fn format_timestamp(
    year: u16,
    month: u16,
    day: u16,
    hour: u16,
    minute: u16,
    second: u16,
    millis: u16,
) -> (r: String)
    ensures
        r@ == timestamp_spec(year, month, day, hour, minute, second, millis),
{
    let mut s = String::new();
    push_decimal_padded(&mut s, year as u64, 4);
    push_all(&mut s, &chars_of("-"));
    push_decimal_padded(&mut s, month as u64, 2);
    push_all(&mut s, &chars_of("-"));
    push_decimal_padded(&mut s, day as u64, 2);
    push_all(&mut s, &chars_of(" "));
    push_decimal_padded(&mut s, hour as u64, 2);
    push_all(&mut s, &chars_of(":"));
    push_decimal_padded(&mut s, minute as u64, 2);
    push_all(&mut s, &chars_of(":"));
    push_decimal_padded(&mut s, second as u64, 2);
    push_all(&mut s, &chars_of("."));
    push_decimal_padded(&mut s, millis as u64, 3);
    assert(s@ =~= timestamp_spec(year, month, day, hour, minute, second, millis));
    s
}

/// With logging off nothing but level `Off` itself passes, and a message
/// passes every level at least as verbose as its own.
pub proof fn law_log_levels_are_ordered(level: LogLevel, a: LogLevel, b: LogLevel)
    ensures
        should_log_spec(level, LogLevel::Off) <==> level == LogLevel::Off,
        should_log_spec(level, a) && log_level_rank(a) <= log_level_rank(b) ==> should_log_spec(
            level,
            b,
        ),
{
}

/// A message of exactly the configured level is always written, every
/// message is written at the most verbose level, and errors are written
/// at every level but `Off`; debug messages only at the debug level.
pub proof fn law_configured_level_is_written(level: LogLevel)
    ensures
        should_log_spec(level, level),
        should_log_spec(level, LogLevel::Debug),
        level != LogLevel::Off ==> should_log_spec(LogLevel::Error, level),
        should_log_spec(LogLevel::Debug, level) <==> level == LogLevel::Debug,
        should_log_spec(LogLevel::Info, LogLevel::Info),
        !should_log_spec(LogLevel::Info, LogLevel::Warn),
{
}

} // verus!
