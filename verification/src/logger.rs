//! Logging bridge: the severity filter in front of the host's log callback.
//!
//! The process-wide logging facility is adapted to a single host callback
//! that receives a message and a severity code. Only messages at
//! informational severity or more severe are forwarded, so the cost of
//! building a message can be skipped entirely for the suppressed levels.

use vstd::prelude::*;

verus! {

/// A message's severity, most severe first.
#[derive(Clone, Copy, Debug, PartialEq, Eq, Structural)]
pub enum LogLevel {
    Error,
    Warn,
    Info,
    Debug,
    Trace,
}

/// Which severities reach the host: informational and anything more severe.
pub open spec fn spec_should_forward(level: LogLevel) -> bool {
    match level {
        LogLevel::Error => true,
        LogLevel::Warn => true,
        LogLevel::Info => true,
        LogLevel::Debug => false,
        LogLevel::Trace => false,
    }
}

/// Decides whether a message at `level` is forwarded to the host callback.
/// The message itself should only be built when this returns true.
pub fn should_forward(level: LogLevel) -> (r: bool)
    ensures
        r == spec_should_forward(level),
{
    match level {
        LogLevel::Error => true,
        LogLevel::Warn => true,
        LogLevel::Info => true,
        LogLevel::Debug => false,
        LogLevel::Trace => false,
    }
}

/// The severity code the host callback receives: the five severities are
/// numbered from one, most severe first.
pub open spec fn spec_level_code(level: LogLevel) -> u8 {
    match level {
        LogLevel::Error => 1,
        LogLevel::Warn => 2,
        LogLevel::Info => 3,
        LogLevel::Debug => 4,
        LogLevel::Trace => 5,
    }
}

/// Maps a severity to the integer code the host callback receives.
pub fn level_code(level: LogLevel) -> (r: u8)
    ensures
        r == spec_level_code(level),
{
    match level {
        LogLevel::Error => 1,
        LogLevel::Warn => 2,
        LogLevel::Info => 3,
        LogLevel::Debug => 4,
        LogLevel::Trace => 5,
    }
}

} // verus!
