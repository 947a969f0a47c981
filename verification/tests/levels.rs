use sozu_logging::LogLevel;
use sozu_logging::LogLevelFilter;

#[test]
fn filter_names_round_trip() {
    let all = [
        LogLevelFilter::Off,
        LogLevelFilter::Error,
        LogLevelFilter::Warn,
        LogLevelFilter::Info,
        LogLevelFilter::Debug,
        LogLevelFilter::Trace,
    ];
    for f in all.iter() {
        assert_eq!(LogLevelFilter::from_str(f.name()), Ok(*f));
    }
}

#[test]
fn level_names_round_trip() {
    let all = [
        LogLevel::Error,
        LogLevel::Warn,
        LogLevel::Info,
        LogLevel::Debug,
        LogLevel::Trace,
    ];
    for l in all.iter() {
        assert_eq!(LogLevel::from_str(l.name()), Ok(*l));
        assert_eq!(l.name(), l.to_log_level_filter().name());
    }
}

#[test]
fn parse_is_case_insensitive() {
    assert_eq!(LogLevelFilter::from_str("error"), Ok(LogLevelFilter::Error));
    assert_eq!(LogLevelFilter::from_str("Error"), Ok(LogLevelFilter::Error));
    assert_eq!(LogLevelFilter::from_str("ERROR"), Ok(LogLevelFilter::Error));
    assert_eq!(LogLevelFilter::from_str("oFf"), Ok(LogLevelFilter::Off));
    assert_eq!(LogLevel::from_str("tRaCe"), Ok(LogLevel::Trace));
}

#[test]
fn parse_rejects_unknown_tokens() {
    assert_eq!(LogLevelFilter::from_str(""), Err(()));
    assert_eq!(LogLevelFilter::from_str("verbose"), Err(()));
    assert_eq!(LogLevelFilter::from_str(" error"), Err(()));
    assert_eq!(LogLevel::from_str("off"), Err(()));
    assert_eq!(LogLevel::from_str("nope"), Err(()));
}

#[test]
fn ranks_round_trip() {
    for u in 0..6usize {
        let f = LogLevelFilter::from_usize(u).unwrap();
        assert_eq!(f.rank(), u);
    }
    assert_eq!(LogLevelFilter::from_usize(6), None);
    for u in 1..6usize {
        let l = LogLevel::from_usize(u).unwrap();
        assert_eq!(l.rank(), u);
    }
    assert_eq!(LogLevel::from_usize(0), None);
    assert_eq!(LogLevel::from_usize(6), None);
}

#[test]
fn max_is_trace() {
    assert_eq!(LogLevel::max(), LogLevel::Trace);
    assert_eq!(LogLevelFilter::max(), LogLevelFilter::Trace);
}

#[test]
fn filter_to_level_drops_off() {
    assert_eq!(LogLevelFilter::Off.to_log_level(), None);
    assert_eq!(LogLevelFilter::Warn.to_log_level(), Some(LogLevel::Warn));
    assert_eq!(
        LogLevel::Debug.to_log_level_filter(),
        LogLevelFilter::Debug
    );
}

#[test]
fn ordering_against_filters() {
    assert!(!LogLevel::Error.le_filter(&LogLevelFilter::Off));
    assert!(LogLevel::Error.le_filter(&LogLevelFilter::Error));
    assert!(LogLevel::Error.le_filter(&LogLevelFilter::Trace));
    assert!(!LogLevel::Trace.le_filter(&LogLevelFilter::Debug));
}

#[test]
fn filter_ordering_matches_ranks() {
    let all = [
        LogLevelFilter::Off,
        LogLevelFilter::Error,
        LogLevelFilter::Warn,
        LogLevelFilter::Info,
        LogLevelFilter::Debug,
        LogLevelFilter::Trace,
    ];
    for a in all.iter() {
        for b in all.iter() {
            assert_eq!(a.le(b), a.rank() <= b.rank());
        }
    }
}

#[test]
fn ordering_matches_ranks() {
    let all = [
        LogLevel::Error,
        LogLevel::Warn,
        LogLevel::Info,
        LogLevel::Debug,
        LogLevel::Trace,
    ];
    for a in all.iter() {
        for b in all.iter() {
            assert_eq!(a.le(b), a.rank() <= b.rank());
        }
    }
}
