//! Log records that the web view hands in.

use vstd::prelude::*;
use vstd::string::*;

verus! {

/// Target of a record that names none.
pub const DEFAULT_TARGET: &'static str = "webview";

/// Severity of a record as the web view names it.
#[derive(Debug, Clone, Copy, PartialEq, Eq, Structural)]
pub enum LogLevel {
    Verbose,
    Debug,
    Info,
    Success,
    Warn,
    Error,
    Fatal,
}

/// Severity of a record as the logger knows it.
#[derive(Debug, Clone, Copy, PartialEq, Eq, Structural)]
pub enum Level {
    Error,
    Warn,
    Info,
    Debug,
    Trace,
}

/// The logger's severity for one of the web view: `Success` counts as
/// information and `Fatal` as an error.
pub open spec fn logger_level(value: LogLevel) -> Level {
    match value {
        LogLevel::Verbose => Level::Trace,
        LogLevel::Debug => Level::Debug,
        LogLevel::Info => Level::Info,
        LogLevel::Success => Level::Info,
        LogLevel::Warn => Level::Warn,
        LogLevel::Error => Level::Error,
        LogLevel::Fatal => Level::Error,
    }
}

/// The web view's name for a severity of the logger.
pub open spec fn webview_level(value: Level) -> LogLevel {
    match value {
        Level::Error => LogLevel::Error,
        Level::Warn => LogLevel::Warn,
        Level::Info => LogLevel::Info,
        Level::Debug => LogLevel::Debug,
        Level::Trace => LogLevel::Verbose,
    }
}

impl From<LogLevel> for Level {
    fn from(value: LogLevel) -> (level: Self) {
        match value {
            LogLevel::Verbose => Level::Trace,
            LogLevel::Debug => Level::Debug,
            LogLevel::Info | LogLevel::Success => Level::Info,
            LogLevel::Warn => Level::Warn,
            LogLevel::Error => Level::Error,
            LogLevel::Fatal => Level::Error,
        }
    }
}

impl vstd::std_specs::convert::FromSpecImpl<LogLevel> for Level {
    open spec fn obeys_from_spec() -> bool {
        true
    }

    open spec fn from_spec(value: LogLevel) -> Level {
        logger_level(value)
    }
}

impl From<Level> for LogLevel {
    fn from(value: Level) -> (level: Self) {
        match value {
            Level::Error => LogLevel::Error,
            Level::Warn => LogLevel::Warn,
            Level::Info => LogLevel::Info,
            Level::Debug => LogLevel::Debug,
            Level::Trace => LogLevel::Verbose,
        }
    }
}

impl vstd::std_specs::convert::FromSpecImpl<Level> for LogLevel {
    open spec fn obeys_from_spec() -> bool {
        true
    }

    open spec fn from_spec(value: Level) -> LogLevel {
        webview_level(value)
    }
}

/// A severity of the logger survives the way to the web view's names and
/// back.
pub proof fn lemma_level_round_trip(level: Level)
    ensures
        logger_level(webview_level(level)) == level,
{
}

/// A record, ready for the logger.
#[derive(Debug, Clone, PartialEq, Eq)]
pub struct LogEntry {
    pub level: Level,
    pub target: String,
    pub message: String,
    pub file: Option<String>,
    pub line: Option<u32>,
}

/// The target of a record: the target given, or `webview`, followed by a
/// colon and the location where one is given.
pub open spec fn log_target(target: Option<Seq<char>>, location: Option<Seq<char>>) -> Seq<char> {
    let base = match target {
        Some(t) => t,
        None => DEFAULT_TARGET@,
    };
    match location {
        Some(l) => base + ":"@ + l,
        None => base,
    }
}

/// Makes the record for a message of the web view.
pub fn gary_log(
    level: LogLevel,
    message: String,
    target: Option<&str>,
    location: Option<&str>,
    file: Option<&str>,
    line: Option<u32>,
) -> (entry: LogEntry)
    ensures
        entry.level == logger_level(level),
        entry.target@ == log_target(target.deep_view(), location.deep_view()),
        entry.message@ == message@,
        entry.file.deep_view() == file.deep_view(),
        entry.line == line,
{
    let base = match target {
        Some(t) => t,
        None => DEFAULT_TARGET,
    };
    let target = match location {
        Some(l) => base.to_owned().concat(":").concat(l),
        None => base.to_owned(),
    };
    let file = match file {
        Some(f) => Some(f.to_owned()),
        None => None,
    };
    LogEntry { level: Level::from(level), target, message, file, line }
}

} // verus!
