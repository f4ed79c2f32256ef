//! Lines for the logging sink.
//!
//! The pipeline does not write to a sink itself: it appends the lines it wants
//! written to a buffer, and the host hands them to the sink in order.

use vstd::prelude::*;

verus! {

/// Severity of a line.
#[derive(Clone, Copy, Debug, PartialEq, Eq)]
pub enum LogLevel {
    Info,
    Warn,
    Error,
}

/// One line for the sink.
#[derive(Debug)]
pub struct LogEntry {
    pub level: LogLevel,
    pub message: String,
}

/// The content of a line.
pub struct LogEntryView {
    pub level: LogLevel,
    pub message: Seq<char>,
}

impl View for LogEntry {
    type V = LogEntryView;

    open spec fn view(&self) -> LogEntryView {
        LogEntryView { level: self.level, message: self.message@ }
    }
}

/// The content of an optional line.
pub open spec fn entry_view(entry: Option<LogEntry>) -> Option<LogEntryView> {
    match entry {
        Some(e) => Some(e@),
        None => None,
    }
}

/// The contents of the lines of a buffer, in order.
pub open spec fn lines(log: Vec<LogEntry>) -> Seq<LogEntryView> {
    log@.map_values(|e: LogEntry| e@)
}

/// An info line.
pub open spec fn info_line(message: Seq<char>) -> LogEntryView {
    LogEntryView { level: LogLevel::Info, message }
}

/// A warning line.
pub open spec fn warn_line(message: Seq<char>) -> LogEntryView {
    LogEntryView { level: LogLevel::Warn, message }
}

/// An error line.
pub open spec fn error_line(message: Seq<char>) -> LogEntryView {
    LogEntryView { level: LogLevel::Error, message }
}

impl LogEntry {
    /// An info line.
    pub fn info(message: String) -> (r: LogEntry)
        ensures
            r@ == info_line(message@),
    {
        LogEntry { level: LogLevel::Info, message }
    }

    /// A warning line.
    pub fn warn(message: String) -> (r: LogEntry)
        ensures
            r@ == warn_line(message@),
    {
        LogEntry { level: LogLevel::Warn, message }
    }

    /// An error line.
    pub fn error(message: String) -> (r: LogEntry)
        ensures
            r@ == error_line(message@),
    {
        LogEntry { level: LogLevel::Error, message }
    }
}

/// Appends a line to a buffer.
pub fn push_line(log: &mut Vec<LogEntry>, entry: LogEntry)
    ensures
        lines(*final(log)) == lines(*old(log)).push(entry@),
{
    log.push(entry);
}

} // verus!
