//! How much the client writes to its log.

use vstd::prelude::*;
use crate::text::str_eq;

verus! {

/// The least weight that a message must have to be written to the log.
#[derive(Clone, Copy, Debug, PartialEq, Eq, Structural)]
pub enum LogLevel {
    Error,
    Warn,
    Info,
    Debug,
    Trace,
}

/// What `str::to_lowercase` makes of a text.
pub uninterp spec fn lowercase(text: Seq<char>) -> Seq<char>;

/// Lowers the text with `str::to_lowercase`. Nothing is claimed of the
/// result but that it is the one that `lowercase` names.
#[verifier::external_body]
fn lowered(text: &str) -> (lower: String)
    ensures
        lower@ == lowercase(text@),
{
    text.to_lowercase()
}

/// The level of this name: one of the five names in lower case, and `Info`
/// for every other text.
pub open spec fn level_of_name(name: Seq<char>) -> LogLevel {
    if name == "error"@ {
        LogLevel::Error
    } else if name == "warn"@ {
        LogLevel::Warn
    } else if name == "info"@ {
        LogLevel::Info
    } else if name == "debug"@ {
        LogLevel::Debug
    } else if name == "trace"@ {
        LogLevel::Trace
    } else {
        LogLevel::Info
    }
}

/// The level of this name, which is taken as it stands.
pub fn level_named(name: &str) -> (level: LogLevel)
    ensures
        level == level_of_name(name@),
{
    if str_eq(name, "error") {
        LogLevel::Error
    } else if str_eq(name, "warn") {
        LogLevel::Warn
    } else if str_eq(name, "info") {
        LogLevel::Info
    } else if str_eq(name, "debug") {
        LogLevel::Debug
    } else if str_eq(name, "trace") {
        LogLevel::Trace
    } else {
        LogLevel::Info
    }
}

/// The level that the user chose: that of the chosen text in lower case,
/// and `Info` where nothing was chosen.
pub fn log_level(chosen: Option<&str>) -> (level: LogLevel)
    ensures
        level == match chosen {
            Some(text) => level_of_name(lowercase(text@)),
            None => LogLevel::Info,
        },
{
    match chosen {
        Some(text) => {
            let lower = lowered(text);
            level_named(lower.as_str())
        },
        None => LogLevel::Info,
    }
}

} // verus!
