use sozu_logging::directive::is_enabled;
use sozu_logging::logger::format_event;
use sozu_logging::text::split_str;
use sozu_logging::text::str_eq_ignore_case;
use sozu_logging::text::str_starts_with;
use sozu_logging::text::trim_str;
use sozu_logging::fmt::i32_to_string;
use sozu_logging::fmt::u64_to_string;
use sozu_logging::LogDirective;
use sozu_logging::LogLevel;
use sozu_logging::LogLevelFilter;
use sozu_logging::LogMetadata;
use sozu_logging::Logger;

fn directive(name: Option<&str>, level: LogLevelFilter) -> LogDirective {
    LogDirective {
        name: name.map(|n| n.to_string()),
        level,
    }
}

#[test]
fn correctly_ordered_directives() {
    // Catch-all first, specific last: the intended ordering.
    let dirs = vec![
        directive(None, LogLevelFilter::Info),
        directive(Some("net"), LogLevelFilter::Debug),
    ];
    assert!(is_enabled(&dirs, LogLevel::Debug, "net::io"));
    assert!(!is_enabled(&dirs, LogLevel::Debug, "db"));
    assert!(is_enabled(&dirs, LogLevel::Info, "db"));
}

#[test]
fn reversed_directives_shadow_the_specific_rule() {
    // The same rules in the wrong order: the backward scan hits the
    // catch-all first and the specific rule is never consulted.
    let dirs = vec![
        directive(Some("net"), LogLevelFilter::Debug),
        directive(None, LogLevelFilter::Info),
    ];
    assert!(!is_enabled(&dirs, LogLevel::Debug, "net::io"));
}

#[test]
fn no_matching_directive_disables() {
    let dirs = vec![directive(Some("net"), LogLevelFilter::Trace)];
    assert!(!is_enabled(&dirs, LogLevel::Error, "db"));
    assert!(!is_enabled(&vec![], LogLevel::Error, "db"));
}

#[test]
fn empty_prefix_matches_everything() {
    let dirs = vec![directive(Some(""), LogLevelFilter::Warn)];
    assert!(is_enabled(&dirs, LogLevel::Warn, "anything"));
    assert!(!is_enabled(&dirs, LogLevel::Info, "anything"));
}

#[test]
fn new_logger_defaults_to_error_catch_all() {
    let logger = Logger::new();
    assert_eq!(logger.directives, vec![directive(None, LogLevelFilter::Error)]);
    assert_eq!(logger.tag, "SOZU");
    assert_eq!(logger.pid, 0);
    let meta = LogMetadata {
        level: LogLevel::Error,
        target: "anywhere",
    };
    assert!(logger.enabled(&meta));
    let warn = LogMetadata {
        level: LogLevel::Warn,
        target: "anywhere",
    };
    assert!(!logger.enabled(&warn));
}

#[test]
fn init_replaces_the_whole_configuration() {
    let mut logger = Logger::new();
    logger.init("TAG".to_string(), "debug", 123);
    assert_eq!(logger.directives, vec![directive(None, LogLevelFilter::Debug)]);
    assert_eq!(logger.tag, "TAG");
    assert_eq!(logger.pid, 123);
    logger.init("TAG2".to_string(), "warn", 124);
    assert_eq!(logger.directives, vec![directive(None, LogLevelFilter::Warn)]);
    assert_eq!(logger.tag, "TAG2");
    assert_eq!(logger.pid, 124);
}

#[test]
fn set_directives_changes_nothing_else() {
    let mut logger = Logger::new();
    logger.set_directives(vec![directive(Some("m"), LogLevelFilter::Trace)]);
    assert_eq!(logger.directives, vec![directive(Some("m"), LogLevelFilter::Trace)]);
    assert_eq!(logger.tag, "SOZU");
    assert_eq!(logger.pid, 0);
}

#[test]
fn log_renders_enabled_events() {
    let mut logger = Logger::new();
    logger.init("TAG".to_string(), "info", 42);
    let meta = LogMetadata {
        level: LogLevel::Info,
        target: "mod_a",
    };
    let line = logger.log(&meta, "hello world").unwrap();
    assert!(line.ends_with(" 42 TAG\tINFO hello world\n"));
    // timestamp and counter come first, separated by single spaces
    assert_eq!(line.split(' ').count(), 6);
}

#[test]
fn log_drops_disabled_events() {
    let mut logger = Logger::new();
    logger.init("TAG".to_string(), "info", 42);
    let meta = LogMetadata {
        level: LogLevel::Debug,
        target: "mod_a",
    };
    assert_eq!(logger.log(&meta, "hidden"), None);
}

#[test]
fn compat_log_filters_like_log() {
    let mut logger = Logger::new();
    logger.init("TAG".to_string(), "net=debug", 7);
    assert!(logger.compat_enabled(LogLevel::Debug, "net::io"));
    assert!(!logger.compat_enabled(LogLevel::Debug, "db"));
    let line = logger.compat_log(LogLevel::Debug, "net::io", "ping").unwrap();
    assert!(line.ends_with(" 7 TAG\tDEBUG ping\n"));
    assert_eq!(logger.compat_log(LogLevel::Debug, "db", "ping"), None);
}

#[test]
fn format_event_exact_layout() {
    let line = format_event("TS", 42, -7, "tag", "ERROR", "hello");
    assert_eq!(line, "TS 42 -7 tag\tERROR hello\n");
}

#[test]
fn decimal_rendering() {
    assert_eq!(u64_to_string(0), "0");
    assert_eq!(u64_to_string(10), "10");
    assert_eq!(u64_to_string(12345), "12345");
    assert_eq!(u64_to_string(u64::MAX), "18446744073709551615");
    assert_eq!(i32_to_string(0), "0");
    assert_eq!(i32_to_string(-1), "-1");
    assert_eq!(i32_to_string(i32::MIN), "-2147483648");
    assert_eq!(i32_to_string(i32::MAX), "2147483647");
}

#[test]
fn text_helpers() {
    assert!(str_starts_with("net::io", "net"));
    assert!(str_starts_with("net", ""));
    assert!(!str_starts_with("ne", "net"));
    assert!(str_eq_ignore_case("ErRoR", "error"));
    assert!(!str_eq_ignore_case("error", "errors"));
    assert_eq!(trim_str("  a b\t"), "a b");
    assert_eq!(trim_str("\u{A0}x\u{3000}"), "x");
    assert_eq!(trim_str("   "), "");
    assert_eq!(split_str("a,,b", ','), vec!["a", "", "b"]);
    assert_eq!(split_str("", ','), vec![""]);
    assert_eq!(split_str("a/b/", '/'), vec!["a", "b", ""]);
}
