//! The logger of the process, installed once.
//!
//! The crash handler needs no record: the host sees to it on every request,
//! and installing it again changes nothing.

use crate::error::{InitError, InitErrorView};
use crate::level::{level_of_name, level_refusal, LogLevel};
use crate::outcome::result_view;
use vstd::prelude::*;

verus! {

/// What the host has to do after a request to initialise the diagnostics.
#[derive(Clone, Copy, Debug, PartialEq, Eq, Structural)]
pub enum Install {
    /// No logger is in place yet: install one that lets through messages at
    /// this level and above.
    Fresh { level: LogLevel },
    /// A logger is in place, at this level. Nothing is to be done.
    Retained { level: LogLevel },
}

/// Record of the logger that is installed in this process.
///
/// There is one of it per process. It starts out empty and is filled by the
/// first successful [`initialize_diagnostics`]. It is emptied again only by
/// [`confirm_install`], where the logging system refused the logger.
#[derive(Debug)]
pub struct Diagnostics {
    installed: Option<LogLevel>,
}

impl View for Diagnostics {
    type V = Option<LogLevel>;

    /// The level of the installed logger, if one is installed.
    closed spec fn view(&self) -> Option<LogLevel> {
        self.installed
    }
}

/// The record after a request for the level that `text` names, and the answer
/// to the request.
pub open spec fn initialized(before: Option<LogLevel>, text: Seq<char>) -> (
    Option<LogLevel>,
    Result<Install, InitErrorView>,
) {
    match level_of_name(text) {
        None => (before, Err(InitErrorView::InvalidLevel { reason: level_refusal() })),
        Some(level) => match before {
            None => (Some(level), Ok(Install::Fresh { level })),
            Some(current) => (before, Ok(Install::Retained { level: current })),
        },
    }
}

impl Diagnostics {
    /// The record of a process in which nothing is installed.
    pub fn new() -> (fresh: Diagnostics)
        ensures
            fresh@ is None,
    {
        Diagnostics { installed: None }
    }

    /// The level of the installed logger, if one is installed.
    pub fn installed(&self) -> (level: Option<LogLevel>)
        ensures
            level == self@,
    {
        self.installed
    }
}

/// Decides what a request to initialise the diagnostics at the level named
/// by `level` leads to, and records it.
///
/// A text that names no level is refused in the words of [`level_refusal`],
/// and the record stays as it was. The
/// first request with a valid level asks for a fresh install at that level.
/// Every later one finds a logger in place and asks for nothing, so that no
/// second logger doubles the output; the level of the first install stays in
/// force.
pub fn initialize_diagnostics(diagnostics: &mut Diagnostics, level: &str) -> (outcome: Result<
    Install,
    InitError,
>)
    ensures
        final(diagnostics)@ == initialized(old(diagnostics)@, level@).0,
        match initialized(old(diagnostics)@, level@).1 {
            Ok(install) => outcome == Ok::<Install, InitError>(install),
            Err(error) => outcome matches Err(e) && e@ == error,
        },
{
    match LogLevel::from_name(level) {
        Err(error) => Err(error),
        Ok(requested) => match diagnostics.installed {
            None => {
                diagnostics.installed = Some(requested);
                Ok(Install::Fresh { level: requested })
            },
            Some(current) => Ok(Install::Retained { level: current }),
        },
    }
}

/// The record after the host has done what an answer asked for, and what has
/// come of the request: `installed` is the outcome of installing the logger,
/// with the words of the logging system where it refused.
pub open spec fn confirmed(
    before: Option<LogLevel>,
    install: Install,
    installed: Result<(), Seq<char>>,
) -> (Option<LogLevel>, Result<Install, InitErrorView>) {
    match (install, installed) {
        (Install::Fresh { .. }, Err(reason)) => (
            None,
            Err(InitErrorView::LoggerRefused { reason }),
        ),
        _ => (before, Ok(install)),
    }
}

/// Settles a request once the host has done what its answer asked for.
///
/// Where a fresh install was asked for and the logging system refused the
/// logger, the request fails in the words of the logging system, and the
/// record is empty again: no logger of this process is in place. In every
/// other case the answer stands and the record stays as it was.
pub fn confirm_install(
    diagnostics: &mut Diagnostics,
    install: Install,
    installed: Result<(), String>,
) -> (outcome: Result<Install, InitError>)
    ensures
        final(diagnostics)@ == confirmed(old(diagnostics)@, install, result_view(installed)).0,
        match confirmed(old(diagnostics)@, install, result_view(installed)).1 {
            Ok(answer) => outcome == Ok::<Install, InitError>(answer),
            Err(error) => outcome matches Err(e) && e@ == error,
        },
{
    match install {
        Install::Fresh { .. } => match installed {
            Ok(_) => Ok(install),
            Err(reason) => {
                diagnostics.installed = None;
                Err(InitError::LoggerRefused { reason })
            },
        },
        Install::Retained { .. } => Ok(install),
    }
}

/// A request with a text that names no level fails, installs nothing and
/// leaves the record as it was.
pub proof fn law_unknown_level_installs_nothing(before: Option<LogLevel>, text: Seq<char>)
    requires
        level_of_name(text) is None,
    ensures
        initialized(before, text).0 == before,
        initialized(before, text).1 == Err::<Install, InitErrorView>(
            InitErrorView::InvalidLevel { reason: level_refusal() },
        ),
{
}

/// Asking twice for the same valid level is as good as asking once: the
/// second request succeeds, asks for no install, and leaves the record as the
/// first one left it.
pub proof fn law_second_request_installs_nothing(before: Option<LogLevel>, text: Seq<char>)
    requires
        level_of_name(text) is Some,
    ensures
        ({
            let first = initialized(before, text);
            let second = initialized(first.0, text);
            &&& first.1 is Ok
            &&& first.0 is Some
            &&& second.1 == Ok::<Install, InitErrorView>(Install::Retained { level: first.0->0 })
            &&& second.0 == first.0
        }),
{
}

/// An install that went well, or that was not asked for, settles nothing
/// anew: the answer stands and the record stays. So the second of two
/// requests for one valid level still succeeds and still installs nothing
/// once both are settled.
pub proof fn law_settled_requests_stand(
    before: Option<LogLevel>,
    install: Install,
    installed: Result<(), Seq<char>>,
)
    requires
        installed is Ok || install is Retained,
    ensures
        confirmed(before, install, installed) == (before, Ok::<Install, InitErrorView>(install)),
{
}

} // verus!
