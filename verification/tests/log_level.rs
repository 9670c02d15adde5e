use std::str::FromStr;

use awair_exporter::log_level::LogLevel;

#[test]
fn trace() {
    let l = LogLevel::from_str("trace").unwrap();
    assert_eq!(l, LogLevel::Trace);
    assert_eq!(l.level(), tracing::Level::TRACE);
}

#[test]
fn debug() {
    let l = LogLevel::from_str("debug").unwrap();
    assert_eq!(l, LogLevel::Debug);
    assert_eq!(l.level(), tracing::Level::DEBUG);
}

#[test]
fn info() {
    let l = LogLevel::from_str("info").unwrap();
    assert_eq!(l, LogLevel::Info);
    assert_eq!(l.level(), tracing::Level::INFO);
}

#[test]
fn warn() {
    let l = LogLevel::from_str("warn").unwrap();
    assert_eq!(l, LogLevel::Warn);
    assert_eq!(l.level(), tracing::Level::WARN);
}

#[test]
fn error() {
    let l = LogLevel::from_str("error").unwrap();
    assert_eq!(l, LogLevel::Error);
    assert_eq!(l.level(), tracing::Level::ERROR)
}

#[test]
fn undefined() {
    assert!(LogLevel::from_str("unknown").is_err());
}
