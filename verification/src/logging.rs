//! How much is logged, and in which form.
use vstd::prelude::*;
use vstd::string::*;

use crate::text::clone_opt;

verus! {

/// How much is logged.
#[derive(Clone, Copy, Debug, PartialEq, Eq, Structural)]
pub enum LogLevel {
    Warn,
    Info,
    Debug,
    Trace,
}

/// What verbosity asks for.
#[derive(Clone, Debug, PartialEq, Eq)]
pub struct LogSettings {
    pub level: LogLevel,
    /// Only the messages, without time and origin.
    pub simple_format: bool,
    /// The filter to use where the environment names none.
    pub default_filter: String,
}

/// The level for a verbosity.
pub open spec fn level_of(verbose: u8) -> LogLevel {
    if verbose == 0 {
        LogLevel::Warn
    } else if verbose == 1 {
        LogLevel::Info
    } else if verbose == 2 {
        LogLevel::Debug
    } else {
        LogLevel::Trace
    }
}

/// The filter for a verbosity, where the environment names none.
pub open spec fn default_filter_of(verbose: u8) -> Seq<char> {
    match level_of(verbose) {
        LogLevel::Warn => "warn"@,
        LogLevel::Info => "info,INFO"@,
        LogLevel::Debug => "info,DEBUG"@,
        LogLevel::Trace => "info,TRACE"@,
    }
}

impl LogSettings {
    /// These are the settings that a verbosity asks for.
    pub open spec fn suits(self, verbose: u8) -> bool {
        &&& self.level == level_of(verbose)
        &&& self.simple_format == (verbose == 0)
        &&& self.default_filter@ == default_filter_of(verbose)
    }
}

/// The filter that the configuration asks for, where it decides.
pub open spec fn configured_filter_of(
    verbose: u8,
    in_environment: bool,
    log_level: Option<String>,
) -> Option<String> {
    if verbose == 0 && !in_environment {
        log_level
    } else {
        None
    }
}

/// What a verbosity asks for: without `-v` warnings only, in a form that looks like plain
/// messages; with one, two or more `-v` ever more, with time and origin.
pub fn settings(verbose: u8) -> (r: LogSettings)
    ensures
        r.suits(verbose),
{
    let (level, filter) = if verbose == 0 {
        (LogLevel::Warn, "warn")
    } else if verbose == 1 {
        (LogLevel::Info, "info,INFO")
    } else if verbose == 2 {
        (LogLevel::Debug, "info,DEBUG")
    } else {
        (LogLevel::Trace, "info,TRACE")
    };
    LogSettings { level, simple_format: verbose == 0, default_filter: filter.to_owned() }
}

/// The filter that the configuration asks for, where it decides: the command line and the
/// environment come first.
pub fn configured_filter(verbose: u8, in_environment: bool, log_level: &Option<String>) -> (r: Option<
    String,
>)
    ensures
        r == configured_filter_of(verbose, in_environment, *log_level),
{
    if verbose == 0 && !in_environment {
        clone_opt(log_level)
    } else {
        None
    }
}

}
