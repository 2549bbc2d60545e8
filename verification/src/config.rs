//! Configuration options for an application's logging.

use vstd::prelude::*;

verus! {

/// Represents the logging level for the application.
pub enum LogLevel {
    Debug,
    Info,
    Warn,
    Error,
}

/// Represents where log output should be written.
pub enum LogOutput {
    Stdout,
    Stderr,
    File(String),
}

/// Configuration options for the application's logging.
pub struct Logging {
    pub enabled: bool,
    pub level: LogLevel,
    pub destination: LogOutput,
}

impl Logging {
    /// Creates a new `Logging` instance with default values: logging is
    /// disabled, with `Info` level, written to standard output.
    pub fn new() -> (r: Logging)
        ensures
            r.enabled == false,
            r.level == LogLevel::Info,
            r.destination == LogOutput::Stdout,
    {
        Logging { enabled: false, level: LogLevel::Info, destination: LogOutput::Stdout }
    }
}

} // verus!
