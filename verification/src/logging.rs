//! Level selection for the opt-in file logger (`--log [LEVEL]`).
//!
//! The logger itself (file in the XDG state directory, truncated on
//! startup) lives at the program's edge; this module decides the level.
use vstd::prelude::*;
use log::LevelFilter;
use std::str::FromStr;
use crate::text::{ascii_lowercase, spec_ascii_lower, string_from_chars};

verus! {

/// How much the logger records, least to most.
#[derive(Debug, Clone, Copy, PartialEq, Eq, Structural)]
pub enum LogLevel {
    Off,
    Error,
    Warn,
    Info,
    Debug,
    Trace,
}

/// The level a name selects, compared without regard to ASCII case:
/// `off`, `error`, `warn`, `info`, `debug`, `trace`.
pub open spec fn spec_level_from_name(s: Seq<char>) -> Option<LogLevel> {
    let l = spec_ascii_lower(s);
    if l == "off"@ {
        Some(LogLevel::Off)
    } else if l == "error"@ {
        Some(LogLevel::Error)
    } else if l == "warn"@ {
        Some(LogLevel::Warn)
    } else if l == "info"@ {
        Some(LogLevel::Info)
    } else if l == "debug"@ {
        Some(LogLevel::Debug)
    } else if l == "trace"@ {
        Some(LogLevel::Trace)
    } else {
        None
    }
}

/// `char::is_whitespace`: the Unicode `White_Space` property.
pub open spec fn spec_is_whitespace(c: char) -> bool {
    ||| ('\u{9}' <= c && c <= '\u{d}')
    ||| c == ' '
    ||| c == '\u{85}'
    ||| c == '\u{a0}'
    ||| c == '\u{1680}'
    ||| ('\u{2000}' <= c && c <= '\u{200a}')
    ||| c == '\u{2028}'
    ||| c == '\u{2029}'
    ||| c == '\u{202f}'
    ||| c == '\u{205f}'
    ||| c == '\u{3000}'
}

/// `s` without its leading whitespace.
pub open spec fn spec_trim_start(s: Seq<char>) -> Seq<char>
    decreases s.len(),
{
    if s.len() > 0 && spec_is_whitespace(s[0]) {
        spec_trim_start(s.drop_first())
    } else {
        s
    }
}

/// `s` without its trailing whitespace.
pub open spec fn spec_trim_end(s: Seq<char>) -> Seq<char>
    decreases s.len(),
{
    if s.len() > 0 && spec_is_whitespace(s.last()) {
        spec_trim_end(s.drop_last())
    } else {
        s
    }
}

/// What `str::trim` leaves of a string: the string without its leading
/// and trailing whitespace.
pub open spec fn spec_trim(s: Seq<char>) -> Seq<char> {
    spec_trim_end(spec_trim_start(s))
}

/// `str::trim`: `s` without leading and trailing whitespace.
#[verifier::external_body]
fn str_trim(s: &str) -> (r: String)
    ensures
        r@ == spec_trim(s@),
{
    s.trim().to_owned()
}

/// `<log::LevelFilter as FromStr>::from_str`: the level whose name
/// (`OFF`, `ERROR`, `WARN`, `INFO`, `DEBUG`, `TRACE`) equals `s` ignoring
/// ASCII case; an error for anything else.
#[verifier::external_body]
fn level_filter_from_str(s: &str) -> (r: Option<LogLevel>)
    ensures
        r == spec_level_from_name(s@),
{
    match LevelFilter::from_str(s) {
        Ok(LevelFilter::Off) => Some(LogLevel::Off),
        Ok(LevelFilter::Error) => Some(LogLevel::Error),
        Ok(LevelFilter::Warn) => Some(LogLevel::Warn),
        Ok(LevelFilter::Info) => Some(LogLevel::Info),
        Ok(LevelFilter::Debug) => Some(LogLevel::Debug),
        Ok(LevelFilter::Trace) => Some(LogLevel::Trace),
        Err(_) => None,
    }
}

/// The level a trimmed level name selects: the named one, `Debug` for
/// unknown names (the user asked for logs; the worst case is more than
/// they wanted).
pub open spec fn spec_level_from_trimmed(t: Seq<char>) -> LogLevel {
    match spec_level_from_name(spec_ascii_lower(t)) {
        Some(l) => l,
        None => LogLevel::Debug,
    }
}

/// The level a (trimmed) level name selects.
pub fn level_from_trimmed(t: &str) -> (r: LogLevel)
    ensures
        r == spec_level_from_trimmed(t@),
{
    let lower = string_from_chars(&ascii_lowercase(t));
    match level_filter_from_str(lower.as_str()) {
        Some(l) => l,
        None => LogLevel::Debug,
    }
}

/// Parse a `--log` level name case-insensitively, ignoring surrounding
/// whitespace; unknown names fall back to `Debug`.
pub fn parse_level(value: &str) -> (r: LogLevel)
    ensures
        r == spec_level_from_trimmed(spec_trim(value@)),
{
    let t = str_trim(value);
    level_from_trimmed(t.as_str())
}

} // verus!
