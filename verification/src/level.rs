//! Log levels and their names.

use crate::error::{InitError, InitErrorView};
use vstd::prelude::*;

verus! {

/// Severity at which the logger is configured, most severe first.
#[derive(Clone, Copy, Debug, PartialEq, Eq, Structural)]
pub enum LogLevel {
    Error,
    Warn,
    Info,
    Debug,
    Trace,
}

impl LogLevel {
    /// The one spelling under which a level is recognised.
    pub open spec fn spec_name(self) -> Seq<char> {
        match self {
            LogLevel::Error => "error"@,
            LogLevel::Warn => "warn"@,
            LogLevel::Info => "info"@,
            LogLevel::Debug => "debug"@,
            LogLevel::Trace => "trace"@,
        }
    }

    pub fn name(self) -> (text: &'static str)
        ensures
            text@ == self.spec_name(),
    {
        match self {
            LogLevel::Error => "error",
            LogLevel::Warn => "warn",
            LogLevel::Info => "info",
            LogLevel::Debug => "debug",
            LogLevel::Trace => "trace",
        }
    }
}

/// An upper-case ASCII letter becomes its lower-case form; every other
/// character stays as it is.
pub open spec fn ascii_lower(c: char) -> char {
    if 'A' <= c && c <= 'Z' {
        ((c as u8 + 32) as u8) as char
    } else {
        c
    }
}

/// Equality of two texts up to the case of their ASCII letters.
///
/// `str::eq_ignore_ascii_case` compares the bytes of two texts in this way.
/// In UTF-8 an ASCII letter is one byte and no other character holds such a
/// byte, so two texts are equal in their bytes up to ASCII case if and only
/// if they are equal in their characters up to ASCII case.
pub open spec fn eq_ignore_ascii_case(a: Seq<char>, b: Seq<char>) -> bool {
    &&& a.len() == b.len()
    &&& forall|i: int| 0 <= i < a.len() ==> ascii_lower(#[trigger] a[i]) == ascii_lower(b[i])
}

/// The level that a text names. Names are case-sensitive: `"info"` names a
/// level, `"INFO"` and `"Info"` do not.
pub open spec fn level_of_name(text: Seq<char>) -> Option<LogLevel> {
    if text == LogLevel::Error.spec_name() {
        Some(LogLevel::Error)
    } else if text == LogLevel::Warn.spec_name() {
        Some(LogLevel::Warn)
    } else if text == LogLevel::Info.spec_name() {
        Some(LogLevel::Info)
    } else if text == LogLevel::Debug.spec_name() {
        Some(LogLevel::Debug)
    } else if text == LogLevel::Trace.spec_name() {
        Some(LogLevel::Trace)
    } else {
        None
    }
}

/// What is said of a text that names no level: the one sentence that `log`
/// has for it.
pub open spec fn level_refusal() -> Seq<char> {
    "attempted to convert a string that doesn't match an existing log level"@
}

/// The error of `log`'s level parser. It says that a text matched no level,
/// and nothing more.
#[verifier::external_type_specification]
#[verifier::external_body]
pub struct ExParseLevelError(log::ParseLevelError);

/// `<log::Level as FromStr>::from_str`, with the level it finds given as a
/// [`LogLevel`].
///
/// `log` goes through its five level names and compares each with the text
/// by `str::eq_ignore_ascii_case`, so it accepts a name in any mix of upper
/// and lower case; on a match it returns the level of that name. It fails
/// when the text matches none of the five.
#[verifier::external_body]
fn log_level_from_str(text: &str) -> (found: Result<LogLevel, log::ParseLevelError>)
    ensures
        found matches Ok(level) ==> eq_ignore_ascii_case(text@, level.spec_name()),
        found is Err ==> forall|level: LogLevel|
            !eq_ignore_ascii_case(text@, #[trigger] level.spec_name()),
{
    match <log::Level as std::str::FromStr>::from_str(text) {
        Ok(log::Level::Error) => Ok(LogLevel::Error),
        Ok(log::Level::Warn) => Ok(LogLevel::Warn),
        Ok(log::Level::Info) => Ok(LogLevel::Info),
        Ok(log::Level::Debug) => Ok(LogLevel::Debug),
        Ok(log::Level::Trace) => Ok(LogLevel::Trace),
        Err(e) => Err(e),
    }
}

/// `to_string` of a `log::ParseLevelError`, that is, what its `Display`
/// writes.
///
/// `log` writes one fixed sentence for every such error, whatever text was
/// refused: the one that [`level_refusal`] spells out.
#[verifier::external_body]
fn parse_level_error_text(error: &log::ParseLevelError) -> (text: String)
    ensures
        text@ == level_refusal(),
{
    error.to_string()
}

/// The refusal of a text that `log` would take, in the words that `log` has
/// for the texts it refuses.
fn refusal_of_another_case() -> (text: String)
    ensures
        text@ == level_refusal(),
{
    "attempted to convert a string that doesn't match an existing log level".to_owned()
}

/// No two levels have names that are equal up to case.
proof fn lemma_names_differ(a: LogLevel, b: LogLevel)
    requires
        a != b,
    ensures
        !eq_ignore_ascii_case(a.spec_name(), b.spec_name()),
{
    reveal_strlit("error");
    reveal_strlit("warn");
    reveal_strlit("info");
    reveal_strlit("debug");
    reveal_strlit("trace");
    assert(ascii_lower(a.spec_name()[0]) != ascii_lower(b.spec_name()[0]));
}

/// The name of a level names that level and no other.
proof fn lemma_level_of_own_name(level: LogLevel)
    ensures
        level_of_name(level.spec_name()) == Some(level),
{
    match level_of_name(level.spec_name()) {
        Some(other) => {
            if other != level {
                lemma_names_differ(other, level);
                assert(eq_ignore_ascii_case(other.spec_name(), level.spec_name()));
            }
        },
        None => {},
    }
}

impl LogLevel {
    /// Finds the level that a text names.
    ///
    /// The five names are `error`, `warn`, `info`, `debug` and `trace`, in
    /// lower case. Any other text, one of these names in another case
    /// included, is refused, always in the same words: those of `log` for a
    /// text that matches no level.
    pub fn from_name(text: &str) -> (parsed: Result<LogLevel, InitError>)
        ensures
            match level_of_name(text@) {
                Some(level) => parsed == Ok::<LogLevel, InitError>(level),
                None => parsed matches Err(e) && e@ == (InitErrorView::InvalidLevel {
                    reason: level_refusal(),
                }),
            },
    {
        match log_level_from_str(text) {
            Ok(level) => {
                if text.to_owned() == level.name().to_owned() {
                    proof {
                        lemma_level_of_own_name(level);
                    }
                    Ok(level)
                } else {
                    proof {
                        match level_of_name(text@) {
                            Some(other) => lemma_names_differ(other, level),
                            None => {},
                        }
                    }
                    Err(InitError::InvalidLevel { reason: refusal_of_another_case() })
                }
            },
            Err(error) => {
                proof {
                    match level_of_name(text@) {
                        Some(other) => assert(eq_ignore_ascii_case(text@, other.spec_name())),
                        None => {},
                    }
                }
                Err(InitError::InvalidLevel { reason: parse_level_error_text(&error) })
            },
        }
    }
}

} // verus!
