//! The logging set-up of the service: which level a configured name selects,
//! and how a log line is written.

use crate::text::str_equal;
use vstd::prelude::*;

verus! {

/// The severities of log records, from the most to the least severe.
#[derive(Debug, Clone, Copy, PartialEq, Eq, Structural)]
pub enum LogLevel {
    Error,
    Warn,
    Info,
    Debug,
    Trace,
}

/// The level that a configured level name selects: `error`, `warn`, `info`,
/// `debug` and `trace` select their level, any other name `Warn`.
pub open spec fn spec_level_from_name(name: Seq<char>) -> LogLevel {
    if name == "error"@ {
        LogLevel::Error
    } else if name == "warn"@ {
        LogLevel::Warn
    } else if name == "info"@ {
        LogLevel::Info
    } else if name == "debug"@ {
        LogLevel::Debug
    } else if name == "trace"@ {
        LogLevel::Trace
    } else {
        LogLevel::Warn
    }
}

/// The most verbose level that the logger lets through, from its
/// configured name.
pub fn level_filter_from_name(name: &str) -> (l: LogLevel)
    ensures
        l == spec_level_from_name(name@),
{
    if str_equal(name, "error") {
        LogLevel::Error
    } else if str_equal(name, "warn") {
        LogLevel::Warn
    } else if str_equal(name, "info") {
        LogLevel::Info
    } else if str_equal(name, "debug") {
        LogLevel::Debug
    } else if str_equal(name, "trace") {
        LogLevel::Trace
    } else {
        LogLevel::Warn
    }
}

/// How a level is written in a log line.
pub open spec fn spec_level_name(level: LogLevel) -> Seq<char> {
    match level {
        LogLevel::Error => "ERROR"@,
        LogLevel::Warn => "WARN"@,
        LogLevel::Info => "INFO"@,
        LogLevel::Debug => "DEBUG"@,
        LogLevel::Trace => "TRACE"@,
    }
}

/// The name of a level as it appears in a log line.
pub fn level_name(level: LogLevel) -> (n: &'static str)
    ensures
        n@ == spec_level_name(level),
{
    match level {
        LogLevel::Error => "ERROR",
        LogLevel::Warn => "WARN",
        LogLevel::Info => "INFO",
        LogLevel::Debug => "DEBUG",
        LogLevel::Trace => "TRACE",
    }
}

/// A log line: `[<timestamp>][<LEVEL>] <message>`.
pub open spec fn spec_log_line(timestamp: Seq<char>, level: LogLevel, message: Seq<char>) -> Seq<char> {
    "["@ + timestamp + "]["@ + spec_level_name(level) + "] "@ + message
}

/// Writes the line logged for `message` at `level`, stamped with
/// `timestamp`.
pub fn format_log_line(timestamp: &str, level: LogLevel, message: &str) -> (line: String)
    ensures
        line@ == spec_log_line(timestamp@, level, message@),
{
    let mut line = "[".to_owned();
    line.append(timestamp);
    line.append("][");
    line.append(level_name(level));
    line.append("] ");
    line.append(message);
    line
}

/// An upper-case ASCII letter turned lower-case; any other character as it is.
pub open spec fn ascii_lower_char(c: char) -> char {
    if 'A' <= c && c <= 'Z' {
        ((c as u32) + 32) as char
    } else {
        c
    }
}

/// A text with its upper-case ASCII letters turned lower-case.
pub open spec fn ascii_lower(s: Seq<char>) -> Seq<char> {
    s.map_values(|c: char| ascii_lower_char(c))
}

/// No two levels are written with the same name in a log line.
pub proof fn law_level_names_are_distinct(l1: LogLevel, l2: LogLevel)
    ensures
        spec_level_name(l1) == spec_level_name(l2) ==> l1 == l2,
{
    reveal_strlit("ERROR");
    reveal_strlit("WARN");
    reveal_strlit("INFO");
    reveal_strlit("DEBUG");
    reveal_strlit("TRACE");
    if spec_level_name(l1) == spec_level_name(l2) {
        assert(spec_level_name(l1)[0] == spec_level_name(l2)[0]);
    }
}

/// The name a level is written with in a log line, in lower case, is the
/// configured name that selects that same level.
pub proof fn law_logged_name_selects_its_level(l: LogLevel)
    ensures
        spec_level_from_name(ascii_lower(spec_level_name(l))) == l,
{
    reveal_strlit("ERROR");
    reveal_strlit("WARN");
    reveal_strlit("INFO");
    reveal_strlit("DEBUG");
    reveal_strlit("TRACE");
    reveal_strlit("error");
    reveal_strlit("warn");
    reveal_strlit("info");
    reveal_strlit("debug");
    reveal_strlit("trace");
    let n = ascii_lower(spec_level_name(l));
    match l {
        LogLevel::Error => {
            assert(n =~= "error"@);
        },
        LogLevel::Warn => {
            assert(n =~= "warn"@);
            assert(n.len() != "error"@.len());
        },
        LogLevel::Info => {
            assert(n =~= "info"@);
            assert(n.len() != "error"@.len());
            assert(n[0] != "warn"@[0]);
        },
        LogLevel::Debug => {
            assert(n =~= "debug"@);
            assert(n[0] != "error"@[0]);
            assert(n.len() != "warn"@.len());
            assert(n.len() != "info"@.len());
        },
        LogLevel::Trace => {
            assert(n =~= "trace"@);
            assert(n[0] != "error"@[0]);
            assert(n.len() != "warn"@.len());
            assert(n.len() != "info"@.len());
            assert(n[0] != "debug"@[0]);
        },
    }
}

} // verus!
