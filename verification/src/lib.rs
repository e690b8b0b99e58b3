//! Bootstrap sequencing for a light client that runs inside a web page.
//!
//! The crate holds the decisions of the bootstrap: which log levels are
//! recognised, when the diagnostics are installed, what a configuration must
//! look like, which step follows which, and what the caller is told when a
//! step fails. The steps themselves (installing a logger, parsing a chain
//! specification, opening storage, constructing the service) are done by the
//! host, which feeds their outcomes back as events.

pub mod chain;
pub mod config;
pub mod diagnostics;
pub mod error;
pub mod level;
pub mod machine;
pub mod outcome;
pub mod report;
