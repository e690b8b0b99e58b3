use browser_node::diagnostics::{confirm_install, initialize_diagnostics, Diagnostics, Install};
use browser_node::error::InitError;
use browser_node::level::LogLevel;

const REFUSAL: &str = "attempted to convert a string that doesn't match an existing log level";
const LOGGER_SET: &str =
    "attempted to set a logger after the logging system was already initialized";

#[test]
fn a_new_record_holds_nothing() {
    assert_eq!(Diagnostics::new().installed(), None);
}

#[test]
fn the_first_request_installs() {
    let mut diagnostics = Diagnostics::new();
    assert_eq!(
        initialize_diagnostics(&mut diagnostics, "debug"),
        Ok(Install::Fresh { level: LogLevel::Debug })
    );
    assert_eq!(diagnostics.installed(), Some(LogLevel::Debug));
}

#[test]
fn an_unknown_level_installs_nothing() {
    let mut diagnostics = Diagnostics::new();
    assert_eq!(
        initialize_diagnostics(&mut diagnostics, "bogus"),
        Err(InitError::InvalidLevel { reason: REFUSAL.to_string() })
    );
    assert_eq!(diagnostics.installed(), None);
}

#[test]
fn an_unknown_level_leaves_an_install_alone() {
    let mut diagnostics = Diagnostics::new();
    assert!(initialize_diagnostics(&mut diagnostics, "warn").is_ok());
    assert_eq!(
        initialize_diagnostics(&mut diagnostics, "WARN"),
        Err(InitError::InvalidLevel { reason: REFUSAL.to_string() })
    );
    assert_eq!(diagnostics.installed(), Some(LogLevel::Warn));
}

#[test]
fn the_same_level_twice_installs_once() {
    let mut diagnostics = Diagnostics::new();
    assert_eq!(
        initialize_diagnostics(&mut diagnostics, "info"),
        Ok(Install::Fresh { level: LogLevel::Info })
    );
    assert_eq!(
        initialize_diagnostics(&mut diagnostics, "info"),
        Ok(Install::Retained { level: LogLevel::Info })
    );
    assert_eq!(diagnostics.installed(), Some(LogLevel::Info));
}

#[test]
fn a_later_level_does_not_replace_the_first() {
    let mut diagnostics = Diagnostics::new();
    assert_eq!(
        initialize_diagnostics(&mut diagnostics, "error"),
        Ok(Install::Fresh { level: LogLevel::Error })
    );
    assert_eq!(
        initialize_diagnostics(&mut diagnostics, "trace"),
        Ok(Install::Retained { level: LogLevel::Error })
    );
    assert_eq!(diagnostics.installed(), Some(LogLevel::Error));
}

#[test]
fn many_requests_install_once() {
    let mut diagnostics = Diagnostics::new();
    let mut installs = 0;
    for _ in 0..5 {
        if let Ok(Install::Fresh { .. }) = initialize_diagnostics(&mut diagnostics, "info") {
            installs += 1;
        }
    }
    assert_eq!(installs, 1);
}

#[test]
fn an_install_that_went_well_stands() {
    let mut diagnostics = Diagnostics::new();
    let install = initialize_diagnostics(&mut diagnostics, "info").unwrap();
    assert_eq!(confirm_install(&mut diagnostics, install, Ok(())), Ok(install));
    assert_eq!(diagnostics.installed(), Some(LogLevel::Info));
}

#[test]
fn a_refused_logger_fails_the_request_and_is_taken_back() {
    let mut diagnostics = Diagnostics::new();
    let install = initialize_diagnostics(&mut diagnostics, "info").unwrap();
    assert_eq!(install, Install::Fresh { level: LogLevel::Info });
    assert_eq!(
        confirm_install(&mut diagnostics, install, Err(LOGGER_SET.to_string())),
        Err(InitError::LoggerRefused { reason: LOGGER_SET.to_string() })
    );
    assert_eq!(diagnostics.installed(), None);
    assert_eq!(
        initialize_diagnostics(&mut diagnostics, "info"),
        Ok(Install::Fresh { level: LogLevel::Info })
    );
}

#[test]
fn a_retained_install_is_settled_as_it_is() {
    let mut diagnostics = Diagnostics::new();
    assert!(initialize_diagnostics(&mut diagnostics, "warn").is_ok());
    let install = initialize_diagnostics(&mut diagnostics, "warn").unwrap();
    assert_eq!(install, Install::Retained { level: LogLevel::Warn });
    assert_eq!(confirm_install(&mut diagnostics, install, Ok(())), Ok(install));
    assert_eq!(confirm_install(&mut diagnostics, install, Err("unused".to_string())), Ok(install));
    assert_eq!(diagnostics.installed(), Some(LogLevel::Warn));
}

#[test]
fn the_same_level_twice_does_not_fail_once_settled() {
    let mut diagnostics = Diagnostics::new();
    let first = initialize_diagnostics(&mut diagnostics, "info").unwrap();
    assert_eq!(confirm_install(&mut diagnostics, first, Ok(())), Ok(first));
    let second = initialize_diagnostics(&mut diagnostics, "info").unwrap();
    assert_eq!(second, Install::Retained { level: LogLevel::Info });
    assert_eq!(confirm_install(&mut diagnostics, second, Ok(())), Ok(second));
}
