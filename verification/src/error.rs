//! What can go wrong at each step of the bootstrap, and how the caller is told.

use crate::config::Role;
use vstd::prelude::*;
use vstd::string::*;

verus! {

/// The diagnostics could not be initialised.
#[derive(Debug, PartialEq, Eq)]
pub enum InitError {
    /// The text names no log level. The reason is what the level parser says
    /// of such a text.
    InvalidLevel { reason: String },
    /// The logging system did not take the logger. The reason is what it
    /// said.
    LoggerRefused { reason: String },
}

pub enum InitErrorView {
    InvalidLevel { reason: Seq<char> },
    LoggerRefused { reason: Seq<char> },
}

impl View for InitError {
    type V = InitErrorView;

    open spec fn view(&self) -> InitErrorView {
        match self {
            InitError::InvalidLevel { reason } => InitErrorView::InvalidLevel { reason: reason@ },
            InitError::LoggerRefused { reason } => InitErrorView::LoggerRefused {
                reason: reason@,
            },
        }
    }
}

impl InitErrorView {
    /// The words of the level parser or of the logging system, as they are.
    pub open spec fn message(self) -> Seq<char> {
        match self {
            InitErrorView::InvalidLevel { reason } => reason,
            InitErrorView::LoggerRefused { reason } => reason,
        }
    }
}

impl InitError {
    pub fn message(&self) -> (text: String)
        ensures
            text@ == self@.message(),
    {
        match self {
            InitError::InvalidLevel { reason } => reason.clone(),
            InitError::LoggerRefused { reason } => reason.clone(),
        }
    }
}

/// The chain specification was not well-formed or did not fit its schema.
#[derive(Debug, PartialEq, Eq)]
pub struct SpecError {
    /// What the parser said about the input.
    pub diagnostic: String,
}

pub struct SpecErrorView {
    pub diagnostic: Seq<char>,
}

impl View for SpecError {
    type V = SpecErrorView;

    open spec fn view(&self) -> SpecErrorView {
        SpecErrorView { diagnostic: self.diagnostic@ }
    }
}

impl SpecErrorView {
    pub open spec fn message(self) -> Seq<char> {
        "chain specification parsing failed: "@ + self.diagnostic
    }
}

impl SpecError {
    pub fn message(&self) -> (text: String)
        ensures
            text@ == self@.message(),
    {
        let mut text = String::from_str("chain specification parsing failed: ");
        text.append(self.diagnostic.as_str());
        text
    }
}

/// No runtime configuration could be built.
#[derive(Debug, PartialEq, Eq)]
pub enum ConfigError {
    /// The builder gave up: the sandbox denied a resource, or the chain asks
    /// for a combination that is not supported.
    Refused { reason: String },
    /// The builder came back with a role other than light client.
    UnsupportedRole { role: Role },
}

pub enum ConfigErrorView {
    Refused { reason: Seq<char> },
    UnsupportedRole { role: Role },
}

impl View for ConfigError {
    type V = ConfigErrorView;

    open spec fn view(&self) -> ConfigErrorView {
        match self {
            ConfigError::Refused { reason } => ConfigErrorView::Refused { reason: reason@ },
            ConfigError::UnsupportedRole { role } => ConfigErrorView::UnsupportedRole {
                role: *role,
            },
        }
    }
}

impl ConfigErrorView {
    pub open spec fn message(self) -> Seq<char> {
        match self {
            ConfigErrorView::Refused { reason } => "configuration failed: "@ + reason,
            ConfigErrorView::UnsupportedRole { role } => "configuration failed: unsupported role "@
                + role.spec_name(),
        }
    }
}

impl ConfigError {
    pub fn message(&self) -> (text: String)
        ensures
            text@ == self@.message(),
    {
        match self {
            ConfigError::Refused { reason } => {
                let mut text = String::from_str("configuration failed: ");
                text.append(reason.as_str());
                text
            },
            ConfigError::UnsupportedRole { role } => {
                let mut text = String::from_str("configuration failed: unsupported role ");
                text.append(role.name());
                text
            },
        }
    }
}

/// The service could not be constructed.
#[derive(Debug, PartialEq, Eq)]
pub struct ServiceError {
    /// What the construction reported.
    pub cause: String,
}

pub struct ServiceErrorView {
    pub cause: Seq<char>,
}

impl View for ServiceError {
    type V = ServiceErrorView;

    open spec fn view(&self) -> ServiceErrorView {
        ServiceErrorView { cause: self.cause@ }
    }
}

impl ServiceErrorView {
    pub open spec fn message(self) -> Seq<char> {
        "service construction failed: "@ + self.cause
    }
}

impl ServiceError {
    pub fn message(&self) -> (text: String)
        ensures
            text@ == self@.message(),
    {
        let mut text = String::from_str("service construction failed: ");
        text.append(self.cause.as_str());
        text
    }
}

/// The error of whichever step failed first.
#[derive(Debug, PartialEq, Eq)]
pub enum BootError {
    Init(InitError),
    Spec(SpecError),
    Config(ConfigError),
    Service(ServiceError),
}

pub enum BootErrorView {
    Init(InitErrorView),
    Spec(SpecErrorView),
    Config(ConfigErrorView),
    Service(ServiceErrorView),
}

impl View for BootError {
    type V = BootErrorView;

    open spec fn view(&self) -> BootErrorView {
        match self {
            BootError::Init(e) => BootErrorView::Init(e@),
            BootError::Spec(e) => BootErrorView::Spec(e@),
            BootError::Config(e) => BootErrorView::Config(e@),
            BootError::Service(e) => BootErrorView::Service(e@),
        }
    }
}

impl BootErrorView {
    /// The one line that the caller gets: which step failed, and why.
    pub open spec fn message(self) -> Seq<char> {
        match self {
            BootErrorView::Init(e) => e.message(),
            BootErrorView::Spec(e) => e.message(),
            BootErrorView::Config(e) => e.message(),
            BootErrorView::Service(e) => e.message(),
        }
    }
}

impl BootError {
    pub fn message(&self) -> (text: String)
        ensures
            text@ == self@.message(),
    {
        match self {
            BootError::Init(e) => e.message(),
            BootError::Spec(e) => e.message(),
            BootError::Config(e) => e.message(),
            BootError::Service(e) => e.message(),
        }
    }
}

} // verus!
