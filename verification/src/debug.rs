//! Severity-leveled routing of driver debug messages.
//!
//! The driver reports a message severity as a bit flag; the sink decision —
//! which log level a message lands at — is made here, and the embedder's
//! callback only forwards text.

use vstd::prelude::*;

verus! {

/// Bit flag of the lowest, chattiest driver message severity.
pub const SEVERITY_VERBOSE: u32 = 1;

/// Bit flag of informational driver messages.
pub const SEVERITY_INFO: u32 = 16;

/// Bit flag of driver warnings.
pub const SEVERITY_WARNING: u32 = 256;

/// Bit flag of driver errors.
pub const SEVERITY_ERROR: u32 = 4096;

/// The level a message is sunk at.
#[derive(Debug, Clone, Copy, PartialEq, Eq, Structural)]
pub enum LogLevel {
    Error,
    Warn,
    Debug,
    Trace,
}

/// Route a driver message severity to a log level: errors and anything
/// above at the error level, warnings below that, informational messages
/// at the debug level, and everything chattier as trace.
pub fn message_log_level(severity: u32) -> (l: LogLevel)
    ensures
        severity >= SEVERITY_ERROR ==> l is Error,
        SEVERITY_WARNING <= severity < SEVERITY_ERROR ==> l is Warn,
        SEVERITY_INFO <= severity < SEVERITY_WARNING ==> l is Debug,
        severity < SEVERITY_INFO ==> l is Trace,
{
    if severity >= SEVERITY_ERROR {
        LogLevel::Error
    } else if severity >= SEVERITY_WARNING {
        LogLevel::Warn
    } else if severity >= SEVERITY_INFO {
        LogLevel::Debug
    } else {
        LogLevel::Trace
    }
}

} // verus!
