use std::str::FromStr;
use awair_exporter::log_level::{str_equal, LogLevel};

#[test]
fn parse_is_case_sensitive() {
    assert!(LogLevel::parse("TRACE").is_err());
    assert!(LogLevel::parse("Info").is_err());
    assert!(LogLevel::parse("").is_err());
    assert!(LogLevel::parse("trace ").is_err());
    assert!(LogLevel::parse(" warn").is_err());
}

#[test]
fn every_level_parses_from_its_name() {
    let all = [
        ("trace", LogLevel::Trace),
        ("debug", LogLevel::Debug),
        ("info", LogLevel::Info),
        ("warn", LogLevel::Warn),
        ("error", LogLevel::Error),
    ];
    for (name, level) in all {
        assert_eq!(LogLevel::parse(name).unwrap(), level);
    }
}

#[test]
fn rejected_input_is_reported() {
    let e = LogLevel::parse("verbose").unwrap_err();
    assert_eq!(e.input(), "verbose");
    assert_eq!(e.message(), "unsupported log level: verbose");
}

#[test]
fn distinct_levels_map_to_distinct_tracing_levels() {
    let all = [LogLevel::Trace, LogLevel::Debug, LogLevel::Info, LogLevel::Warn, LogLevel::Error];
    for a in all {
        for b in all {
            assert_eq!(a == b, a.level() == b.level());
        }
    }
}

#[test]
fn tracing_agrees_on_level_names() {
    for name in ["trace", "debug", "info", "warn", "error"] {
        let ours = LogLevel::parse(name).unwrap().level();
        let theirs: tracing::Level = name.parse().unwrap();
        assert_eq!(ours, theirs);
    }
}

#[test]
fn string_equality() {
    assert!(str_equal("awair", "awair"));
    assert!(!str_equal("awair", "awaiR"));
    assert!(!str_equal("awair", "awai"));
    assert!(str_equal("", ""));
    assert!(str_equal("µg", "µg"));
    assert!(!str_equal("µg", "ug"));
}

#[test]
fn from_str_matches_parse() {
    for name in ["trace", "debug", "info", "warn", "error", "TRACE", "", "x"] {
        assert_eq!(LogLevel::from_str(name).ok(), LogLevel::parse(name).ok());
    }
}
