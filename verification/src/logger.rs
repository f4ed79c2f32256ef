//! Where the log goes.
//!
//! The sink is set up by the host. What is decided here is what the
//! environment asks for: the file to write to and the most verbose level to
//! let through.

use vstd::prelude::*;

verus! {

/// The most verbose level that a sink lets through.
#[derive(Clone, Copy, Debug, PartialEq, Eq)]
pub enum LevelFilter {
    Off,
    Error,
    Warn,
    Info,
    Debug,
    Trace,
}

/// The lower-case form of an ASCII letter; any other character is itself.
pub open spec fn ascii_lower(c: char) -> char {
    if 'A' <= c && c <= 'Z' {
        ((c as u8 + 32) as u8) as char
    } else {
        c
    }
}

/// Whether two texts are equal up to the case of their ASCII letters.
pub open spec fn same_ignoring_case(a: Seq<char>, b: Seq<char>) -> bool {
    &&& a.len() == b.len()
    &&& forall|i: int| 0 <= i < a.len() ==> ascii_lower(#[trigger] a[i]) == ascii_lower(b[i])
}

/// The level that a text names, in any case: `off`, `error`, `warn`, `info`,
/// `debug` or `trace`.
pub open spec fn level_named(text: Seq<char>) -> Option<LevelFilter> {
    if same_ignoring_case(text, "OFF"@) {
        Some(LevelFilter::Off)
    } else if same_ignoring_case(text, "ERROR"@) {
        Some(LevelFilter::Error)
    } else if same_ignoring_case(text, "WARN"@) {
        Some(LevelFilter::Warn)
    } else if same_ignoring_case(text, "INFO"@) {
        Some(LevelFilter::Info)
    } else if same_ignoring_case(text, "DEBUG"@) {
        Some(LevelFilter::Debug)
    } else if same_ignoring_case(text, "TRACE"@) {
        Some(LevelFilter::Trace)
    } else {
        None
    }
}

/// `log::LevelFilter::from_str`: the level whose name the text is, compared
/// without regard to ASCII case; nothing for any other text.
#[verifier::external_body]
fn parse_level(text: &str) -> (r: Option<LevelFilter>)
    ensures
        r == level_named(text@),
{
    match <log::LevelFilter as std::str::FromStr>::from_str(text) {
        Ok(log::LevelFilter::Off) => Some(LevelFilter::Off),
        Ok(log::LevelFilter::Error) => Some(LevelFilter::Error),
        Ok(log::LevelFilter::Warn) => Some(LevelFilter::Warn),
        Ok(log::LevelFilter::Info) => Some(LevelFilter::Info),
        Ok(log::LevelFilter::Debug) => Some(LevelFilter::Debug),
        Ok(log::LevelFilter::Trace) => Some(LevelFilter::Trace),
        Err(_) => None,
    }
}

/// What the environment asks of the sink.
#[derive(Debug)]
pub enum LoggerPlan {
    /// No log file is named: the host's fallback sink is used.
    Fallback,
    /// Lines go to the file at `path`, up to `level`. `level_known` is false
    /// when the level named in the environment is none of the known ones, in
    /// which case `level` is `Info`.
    File { path: String, level: LevelFilter, level_known: bool },
}

/// The text of an optional setting, or a default.
pub open spec fn setting_or(setting: Option<&str>, default: Seq<char>) -> Seq<char> {
    match setting {
        Some(s) => s@,
        None => default,
    }
}

/// The path of the log file: the configured name, a dot, and the rank, which
/// is `0` when none is set.
pub open spec fn log_path(log_file: Seq<char>, local_rank: Option<&str>) -> Seq<char> {
    log_file + "."@ + setting_or(local_rank, "0"@)
}

/// Decides from the three settings of the environment where the log goes.
/// Without a log file the fallback sink is used. With one, the path carries
/// the rank as a suffix, and the level is the one named, `info` when none is
/// named or the name is unknown.
pub fn logger_plan(log_file: Option<&str>, local_rank: Option<&str>, log_level: Option<&str>) -> (r:
    LoggerPlan)
    ensures
        match log_file {
            None => r is Fallback,
            Some(file) => {
                &&& r matches LoggerPlan::File { path, level, level_known }
                &&& path@ == log_path(file@, local_rank)
                &&& level_known == level_named(setting_or(log_level, "info"@)).is_some()
                &&& level == match level_named(setting_or(log_level, "info"@)) {
                    Some(l) => l,
                    None => LevelFilter::Info,
                }
            },
        },
{
    match log_file {
        None => LoggerPlan::Fallback,
        Some(file) => {
            let mut path = String::from_str(file);
            path.append(".");
            path.append(local_rank.unwrap_or("0"));
            let named = parse_level(log_level.unwrap_or("info"));
            match named {
                Some(level) => LoggerPlan::File { path, level, level_known: true },
                None => LoggerPlan::File { path, level: LevelFilter::Info, level_known: false },
            }
        },
    }
}

} // verus!
