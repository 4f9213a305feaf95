//! Log lines: what the library says, and the record a sink writes.

use vstd::prelude::*;
use vstd::string::*;

verus! {

/// Severity of a log line, most severe first.
#[derive(Clone, Copy, Debug, PartialEq, Eq, Structural)]
pub enum LogLevel {
    Error,
    Warn,
    Info,
    Debug,
}

impl LogLevel {
    /// The upper-case name a log record carries.
    pub open spec fn name_text(self) -> Seq<char> {
        match self {
            LogLevel::Error => "ERROR"@,
            LogLevel::Warn => "WARN"@,
            LogLevel::Info => "INFO"@,
            LogLevel::Debug => "DEBUG"@,
        }
    }

    /// The upper-case name a log record carries.
    pub fn name(&self) -> (s: &'static str)
        ensures
            s@ == self.name_text(),
    {
        match self {
            LogLevel::Error => "ERROR",
            LogLevel::Warn => "WARN",
            LogLevel::Info => "INFO",
            LogLevel::Debug => "DEBUG",
        }
    }
}

/// The minimum level a sink shows unless told otherwise.
pub fn default_level() -> (level: LogLevel)
    ensures
        level == LogLevel::Warn,
{
    LogLevel::Warn
}

/// One line the library asks to have logged.
#[derive(Debug, PartialEq, Eq)]
pub struct LogEntry {
    pub level: LogLevel,
    pub message: String,
}

/// A log line as a value: its level and its text.
pub struct LogLine {
    pub level: LogLevel,
    pub text: Seq<char>,
}

impl View for LogEntry {
    type V = LogLine;

    open spec fn view(&self) -> LogLine {
        LogLine { level: self.level, text: self.message@ }
    }
}

/// The lines that a vector of entries holds, in order.
pub open spec fn lines_of(entries: Seq<LogEntry>) -> Seq<LogLine> {
    entries.map_values(|e: LogEntry| e@)
}

impl LogEntry {
    /// A line of level `level` that says `message`.
    pub fn new(level: LogLevel, message: String) -> (entry: LogEntry)
        ensures
            entry@ == (LogLine { level, text: message@ }),
    {
        LogEntry { level, message }
    }
}

/// The record written for one log line: when, how severe, and what.
#[derive(Debug, PartialEq, Eq)]
pub struct LogMessage {
    pub timestamp: String,
    pub loglevel: String,
    pub message: String,
}

impl LogMessage {
    /// The record of `entry`, stamped with `timestamp`.
    pub fn new(timestamp: String, entry: LogEntry) -> (record: LogMessage)
        ensures
            record.timestamp@ == timestamp@,
            record.loglevel@ == entry.level.name_text(),
            record.message@ == entry.message@,
    {
        LogMessage {
            timestamp,
            loglevel: String::from_str(entry.level.name()),
            message: entry.message,
        }
    }
}

} // verus!
