use browser_node::error::InitError;
use browser_node::level::LogLevel;

const REFUSAL: &str = "attempted to convert a string that doesn't match an existing log level";

fn refused() -> Result<LogLevel, InitError> {
    Err(InitError::InvalidLevel { reason: REFUSAL.to_string() })
}

#[test]
fn every_level_is_found_by_its_name() {
    assert_eq!(LogLevel::from_name("error"), Ok(LogLevel::Error));
    assert_eq!(LogLevel::from_name("warn"), Ok(LogLevel::Warn));
    assert_eq!(LogLevel::from_name("info"), Ok(LogLevel::Info));
    assert_eq!(LogLevel::from_name("debug"), Ok(LogLevel::Debug));
    assert_eq!(LogLevel::from_name("trace"), Ok(LogLevel::Trace));
}

#[test]
fn every_level_has_its_name() {
    assert_eq!(LogLevel::Error.name(), "error");
    assert_eq!(LogLevel::Warn.name(), "warn");
    assert_eq!(LogLevel::Info.name(), "info");
    assert_eq!(LogLevel::Debug.name(), "debug");
    assert_eq!(LogLevel::Trace.name(), "trace");
}

#[test]
fn a_name_leads_back_to_its_level() {
    for level in [
        LogLevel::Error,
        LogLevel::Warn,
        LogLevel::Info,
        LogLevel::Debug,
        LogLevel::Trace,
    ] {
        assert_eq!(LogLevel::from_name(level.name()), Ok(level));
    }
}

#[test]
fn names_are_case_sensitive() {
    assert_eq!(LogLevel::from_name("INFO"), refused());
    assert_eq!(LogLevel::from_name("Info"), refused());
    assert_eq!(LogLevel::from_name("infO"), refused());
    assert_eq!(LogLevel::from_name("ERROR"), refused());
    assert_eq!(LogLevel::from_name("Warn"), refused());
    assert_eq!(LogLevel::from_name("DEBUG"), refused());
    assert_eq!(LogLevel::from_name("tRACE"), refused());
}

#[test]
fn other_texts_name_no_level() {
    assert_eq!(LogLevel::from_name("bogus"), refused());
    assert_eq!(LogLevel::from_name(""), refused());
    assert_eq!(LogLevel::from_name("off"), refused());
    assert_eq!(LogLevel::from_name("OFF"), refused());
    assert_eq!(LogLevel::from_name("warning"), refused());
    assert_eq!(LogLevel::from_name(" info"), refused());
    assert_eq!(LogLevel::from_name("info "), refused());
    assert_eq!(LogLevel::from_name("inf"), refused());
    assert_eq!(LogLevel::from_name("3"), refused());
    assert_eq!(LogLevel::from_name("ınfo"), refused());
}

#[test]
fn the_logging_crate_takes_names_in_any_case_and_this_library_does_not() {
    assert_eq!("INFO".parse::<log::Level>(), Ok(log::Level::Info));
    assert_eq!("Trace".parse::<log::Level>(), Ok(log::Level::Trace));
    assert_eq!(LogLevel::from_name("INFO"), refused());
    assert_eq!(LogLevel::from_name("Trace"), refused());
    assert_eq!("trace".parse::<log::Level>(), Ok(log::Level::Trace));
    assert_eq!(LogLevel::from_name("trace"), Ok(LogLevel::Trace));
}

#[test]
fn a_refusal_is_in_the_words_of_the_logging_crate() {
    let theirs = "bogus".parse::<log::Level>().unwrap_err().to_string();
    assert_eq!(theirs, REFUSAL);
    assert_eq!(LogLevel::from_name("bogus"), Err(InitError::InvalidLevel { reason: theirs }));
    assert_eq!(LogLevel::from_name("bogus").unwrap_err().message(), REFUSAL);
    assert_eq!(LogLevel::from_name("INFO").unwrap_err().message(), REFUSAL);
    assert_eq!(LogLevel::from_name("").unwrap_err().message(), REFUSAL);
}
