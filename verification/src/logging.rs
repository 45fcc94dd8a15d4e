//! Severity levels of diagnostic messages.

use vstd::prelude::*;

verus! {

/// How severe a diagnostic message is, from `OFF` up to `MAX`.
#[derive(Copy, Clone, Debug, PartialEq, Eq, PartialOrd, Structural)]
pub enum LogLevel {
    OFF,
    TRACE,
    DEBUG,
    INFO,
    WARN,
    ERROR,
    FATAL,
    MAX,
}

/// The number that stands for a level.
pub open spec fn level_number(level: LogLevel) -> u8 {
    match level {
        LogLevel::OFF => 0,
        LogLevel::TRACE => 1,
        LogLevel::DEBUG => 2,
        LogLevel::INFO => 3,
        LogLevel::WARN => 4,
        LogLevel::ERROR => 5,
        LogLevel::FATAL => 6,
        LogLevel::MAX => 7,
    }
}

impl Default for LogLevel {
    fn default() -> (level: LogLevel)
        ensures
            level == LogLevel::INFO,
    {
        LogLevel::INFO
    }
}

impl LogLevel {
    /// The number that stands for the level.
    pub fn number(self) -> (number: u8)
        ensures
            number == level_number(self),
    {
        match self {
            LogLevel::OFF => 0,
            LogLevel::TRACE => 1,
            LogLevel::DEBUG => 2,
            LogLevel::INFO => 3,
            LogLevel::WARN => 4,
            LogLevel::ERROR => 5,
            LogLevel::FATAL => 6,
            LogLevel::MAX => 7,
        }
    }

    /// Whether a message of this level passes a sink that takes `threshold`
    /// and above.
    pub fn passes(self, threshold: LogLevel) -> (passes: bool)
        ensures
            passes == (level_number(self) >= level_number(threshold)),
    {
        self.number() >= threshold.number()
    }
}

} // verus!
