//! The options of the command line, and what they mean for the logger.

use vstd::prelude::*;
use crate::text::join2;

verus! {

/// The options given on the command line.
#[derive(Debug, PartialEq, Eq)]
pub struct CliArguments {
    /// How often the option for more output was given.
    pub verbosity: u8,
    /// The path of the configuration file, if one was named.
    pub config: Option<String>,
}

/// How much the logger writes.
#[derive(Clone, Copy, Debug, PartialEq, Eq, Structural)]
pub enum LogLevel {
    Error,
    Warn,
    Info,
    Debug,
}

/// The level for a verbosity: errors alone without the option, one level
/// more each time it is given, and everything from the third time on.
pub open spec fn level_of(verbosity: u8) -> LogLevel {
    if verbosity == 0 {
        LogLevel::Error
    } else if verbosity == 1 {
        LogLevel::Warn
    } else if verbosity == 2 {
        LogLevel::Info
    } else {
        LogLevel::Debug
    }
}

/// The name of a level as the logger reads it.
pub open spec fn level_name(level: LogLevel) -> Seq<char> {
    match level {
        LogLevel::Error => "error"@,
        LogLevel::Warn => "warn"@,
        LogLevel::Info => "info"@,
        LogLevel::Debug => "debug"@,
    }
}

impl CliArguments {
    /// The level at which the program logs; see [`level_of`].
    pub fn log_level(&self) -> (level: LogLevel)
        ensures
            level == level_of(self.verbosity),
    {
        match self.verbosity {
            0 => LogLevel::Error,
            1 => LogLevel::Warn,
            2 => LogLevel::Info,
            _ => LogLevel::Debug,
        }
    }

    /// What the logger is told: the program's own level, and warnings alone
    /// from the file watcher.
    pub fn log_specification(&self) -> (text: String)
        ensures
            text@ == level_name(level_of(self.verbosity)) + ", watchexec=warn"@,
    {
        let name = match self.log_level() {
            LogLevel::Error => "error",
            LogLevel::Warn => "warn",
            LogLevel::Info => "info",
            LogLevel::Debug => "debug",
        };
        join2(name, ", watchexec=warn")
    }
}

} // verus!
