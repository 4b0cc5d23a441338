//! The settings of the log: whether it is on, and how much it reports.

use crate::text::{same_text, to_uppercase, uppercase};
use vstd::prelude::*;

verus! {

/// How much a log reports: nothing, or everything up to a level.
#[derive(Clone, Copy, Debug, PartialEq, Eq, Structural)]
pub enum LevelFilter {
    Off,
    Error,
    Warn,
    Info,
    Debug,
    Trace,
}

/// The level that a setting names, whatever its case: `DEBUG`, `TRACE`,
/// `WARN` or `ERROR`; every other setting stands for `Info`.
pub open spec fn level_named(setting: Seq<char>) -> LevelFilter {
    let name = uppercase(setting);
    if name == "DEBUG"@ {
        LevelFilter::Debug
    } else if name == "TRACE"@ {
        LevelFilter::Trace
    } else if name == "WARN"@ {
        LevelFilter::Warn
    } else if name == "ERROR"@ {
        LevelFilter::Error
    } else {
        LevelFilter::Info
    }
}

/// Reads a level from its name.
pub fn parse_level(setting: &str) -> (level: LevelFilter)
    ensures
        level == level_named(setting@),
{
    let name = to_uppercase(setting);
    if same_text(name.as_str(), "DEBUG") {
        LevelFilter::Debug
    } else if same_text(name.as_str(), "TRACE") {
        LevelFilter::Trace
    } else if same_text(name.as_str(), "WARN") {
        LevelFilter::Warn
    } else if same_text(name.as_str(), "ERROR") {
        LevelFilter::Error
    } else {
        LevelFilter::Info
    }
}

/// The settings of the log.
#[derive(Debug, Clone)]
pub struct Logger {
    enabled: bool,
    max_level: LevelFilter,
}

impl Logger {
    /// Whether the log is switched on.
    pub closed spec fn is_enabled(&self) -> bool {
        self.enabled
    }

    /// The most detailed level that is reported.
    pub closed spec fn level(&self) -> LevelFilter {
        self.max_level
    }

    /// A log that reports up to the level that `level` names.
    pub fn new(level: &str, enabled: bool) -> (logger: Self)
        ensures
            logger.is_enabled() == enabled,
            logger.level() == level_named(level@),
    {
        Logger { enabled, max_level: parse_level(level) }
    }

    /// Whether the log is switched on.
    pub fn enabled(&self) -> (on: bool)
        ensures
            on == self.is_enabled(),
    {
        self.enabled
    }

    /// The most detailed level that is reported.
    pub fn max_level(&self) -> (level: LevelFilter)
        ensures
            level == self.level(),
    {
        self.max_level
    }
}

impl Default for Logger {
    fn default() -> (logger: Self)
        ensures
            logger.is_enabled(),
            logger.level() == level_named("INFO"@),
    {
        Logger::new("INFO", true)
    }
}

} // verus!
