//! Severity model: an ordered set of log levels, and a parallel filter type
//! that adds an `Off` sentinel ranked below the lowest level.

use vstd::prelude::*;

use crate::text::lower_code;
use crate::text::seq_eq_icase;
use crate::text::str_eq_ignore_case;

verus! {

/// The severity of a single log event, from least verbose (`Error`) to most
/// verbose (`Trace`).
#[derive(Clone, Copy, Debug, PartialEq, Eq, Structural, Hash)]
pub enum LogLevel {
    Error,
    Warn,
    Info,
    Debug,
    Trace,
}

/// A severity threshold: every level of [`LogLevel`], plus an `Off` value
/// ranked below `Error` that disables everything it governs.
#[derive(Clone, Copy, Debug, PartialEq, Eq, Structural, Hash)]
pub enum LogLevelFilter {
    Off,
    Error,
    Warn,
    Info,
    Debug,
    Trace,
}

/// Numeric rank of a level; ordering on levels is ordering of ranks.
/// The ranks line up with [`filter_rank`]: a level and the filter of the
/// same name share a rank.
pub open spec fn level_rank(l: LogLevel) -> int {
    match l {
        LogLevel::Error => 1,
        LogLevel::Warn => 2,
        LogLevel::Info => 3,
        LogLevel::Debug => 4,
        LogLevel::Trace => 5,
    }
}

/// Numeric rank of a filter; `Off` sits at 0, below every level.
pub open spec fn filter_rank(f: LogLevelFilter) -> int {
    match f {
        LogLevelFilter::Off => 0,
        LogLevelFilter::Error => 1,
        LogLevelFilter::Warn => 2,
        LogLevelFilter::Info => 3,
        LogLevelFilter::Debug => 4,
        LogLevelFilter::Trace => 5,
    }
}

impl LogLevel {
    /// The level of the given rank, if any; ranks run from 1 (`Error`)
    /// to 5 (`Trace`).
    pub fn from_usize(u: usize) -> (r: Option<LogLevel>)
        ensures
            match r {
                Some(l) => level_rank(l) == u,
                None => !(1 <= u <= 5),
            },
    {
        match u {
            1 => Some(LogLevel::Error),
            2 => Some(LogLevel::Warn),
            3 => Some(LogLevel::Info),
            4 => Some(LogLevel::Debug),
            5 => Some(LogLevel::Trace),
            _ => None,
        }
    }

    /// Returns the most verbose level.
    pub fn max() -> (r: LogLevel)
        ensures
            r == LogLevel::Trace,
            forall|l: LogLevel| level_rank(l) <= level_rank(r),
    {
        LogLevel::Trace
    }

    /// The filter of the same rank; the mapping loses no information
    /// because levels and filters share ranks 1 to 5.
    pub fn to_log_level_filter(&self) -> (r: LogLevelFilter)
        ensures
            filter_rank(r) == level_rank(*self),
    {
        match self {
            LogLevel::Error => LogLevelFilter::Error,
            LogLevel::Warn => LogLevelFilter::Warn,
            LogLevel::Info => LogLevelFilter::Info,
            LogLevel::Debug => LogLevelFilter::Debug,
            LogLevel::Trace => LogLevelFilter::Trace,
        }
    }

    /// Rank comparison between two levels: `a` is at most as verbose as `b`
    /// exactly when their ranks are so ordered.
    pub fn le(&self, other: &LogLevel) -> (r: bool)
        ensures
            r == (level_rank(*self) <= level_rank(*other)),
    {
        self.rank() <= other.rank()
    }

    /// An event of this level passes a directive whose threshold is `f`
    /// exactly when the level's rank is at most the filter's rank; no level
    /// passes `Off`.
    pub fn le_filter(&self, f: &LogLevelFilter) -> (r: bool)
        ensures
            r == (level_rank(*self) <= filter_rank(*f)),
    {
        self.rank() <= f.rank()
    }

    /// The rank as a machine integer.
    pub fn rank(&self) -> (r: usize)
        ensures
            r == level_rank(*self),
    {
        match self {
            LogLevel::Error => 1,
            LogLevel::Warn => 2,
            LogLevel::Info => 3,
            LogLevel::Debug => 4,
            LogLevel::Trace => 5,
        }
    }
}

impl LogLevelFilter {
    /// The filter of the given rank, if any; ranks run from 0 (`Off`)
    /// to 5 (`Trace`).
    pub fn from_usize(u: usize) -> (r: Option<LogLevelFilter>)
        ensures
            match r {
                Some(f) => filter_rank(f) == u,
                None => !(u <= 5),
            },
    {
        match u {
            0 => Some(LogLevelFilter::Off),
            1 => Some(LogLevelFilter::Error),
            2 => Some(LogLevelFilter::Warn),
            3 => Some(LogLevelFilter::Info),
            4 => Some(LogLevelFilter::Debug),
            5 => Some(LogLevelFilter::Trace),
            _ => None,
        }
    }

    /// Returns the most verbose filter.
    pub fn max() -> (r: LogLevelFilter)
        ensures
            r == LogLevelFilter::Trace,
            forall|f: LogLevelFilter| filter_rank(f) <= filter_rank(r),
    {
        LogLevelFilter::Trace
    }

    /// The level of the same rank, or `None` for `Off`, which has no level.
    pub fn to_log_level(&self) -> (r: Option<LogLevel>)
        ensures
            match r {
                Some(l) => level_rank(l) == filter_rank(*self),
                None => *self == LogLevelFilter::Off,
            },
    {
        match self {
            LogLevelFilter::Off => None,
            LogLevelFilter::Error => Some(LogLevel::Error),
            LogLevelFilter::Warn => Some(LogLevel::Warn),
            LogLevelFilter::Info => Some(LogLevel::Info),
            LogLevelFilter::Debug => Some(LogLevel::Debug),
            LogLevelFilter::Trace => Some(LogLevel::Trace),
        }
    }

    /// Rank comparison between two filters.
    pub fn le(&self, other: &LogLevelFilter) -> (r: bool)
        ensures
            r == (filter_rank(*self) <= filter_rank(*other)),
    {
        self.rank() <= other.rank()
    }

    /// The rank as a machine integer.
    pub fn rank(&self) -> (r: usize)
        ensures
            r == filter_rank(*self),
    {
        match self {
            LogLevelFilter::Off => 0,
            LogLevelFilter::Error => 1,
            LogLevelFilter::Warn => 2,
            LogLevelFilter::Info => 3,
            LogLevelFilter::Debug => 4,
            LogLevelFilter::Trace => 5,
        }
    }
}

/// The canonical (upper-case) name of a level.
pub open spec fn spec_level_name(l: LogLevel) -> Seq<char> {
    match l {
        LogLevel::Error => "ERROR"@,
        LogLevel::Warn => "WARN"@,
        LogLevel::Info => "INFO"@,
        LogLevel::Debug => "DEBUG"@,
        LogLevel::Trace => "TRACE"@,
    }
}

/// The canonical (upper-case) name of a filter.
pub open spec fn spec_filter_name(f: LogLevelFilter) -> Seq<char> {
    match f {
        LogLevelFilter::Off => "OFF"@,
        LogLevelFilter::Error => "ERROR"@,
        LogLevelFilter::Warn => "WARN"@,
        LogLevelFilter::Info => "INFO"@,
        LogLevelFilter::Debug => "DEBUG"@,
        LogLevelFilter::Trace => "TRACE"@,
    }
}

/// The filter whose name `s` is, compared without regard to ASCII case;
/// `None` when `s` is no filter name.
pub open spec fn parse_filter_seq(s: Seq<char>) -> Option<LogLevelFilter> {
    if seq_eq_icase(s, "OFF"@) {
        Some(LogLevelFilter::Off)
    } else if seq_eq_icase(s, "ERROR"@) {
        Some(LogLevelFilter::Error)
    } else if seq_eq_icase(s, "WARN"@) {
        Some(LogLevelFilter::Warn)
    } else if seq_eq_icase(s, "INFO"@) {
        Some(LogLevelFilter::Info)
    } else if seq_eq_icase(s, "DEBUG"@) {
        Some(LogLevelFilter::Debug)
    } else if seq_eq_icase(s, "TRACE"@) {
        Some(LogLevelFilter::Trace)
    } else {
        None
    }
}

/// The level whose name `s` is, compared without regard to ASCII case.
/// `OFF` names no level, only a filter.
pub open spec fn parse_level_seq(s: Seq<char>) -> Option<LogLevel> {
    match parse_filter_seq(s) {
        Some(f) => match f {
            LogLevelFilter::Off => None,
            LogLevelFilter::Error => Some(LogLevel::Error),
            LogLevelFilter::Warn => Some(LogLevel::Warn),
            LogLevelFilter::Info => Some(LogLevel::Info),
            LogLevelFilter::Debug => Some(LogLevel::Debug),
            LogLevelFilter::Trace => Some(LogLevel::Trace),
        },
        None => None,
    }
}

impl LogLevel {
    /// The canonical name of this level.
    pub fn name(&self) -> (r: &'static str)
        ensures
            r@ == spec_level_name(*self),
    {
        match self {
            LogLevel::Error => "ERROR",
            LogLevel::Warn => "WARN",
            LogLevel::Info => "INFO",
            LogLevel::Debug => "DEBUG",
            LogLevel::Trace => "TRACE",
        }
    }

    /// Parses a level from its case-insensitive name; `OFF` and every
    /// unrecognized token fail.
    pub fn from_str(s: &str) -> (r: Result<LogLevel, ()>)
        ensures
            match r {
                Ok(l) => parse_level_seq(s@) == Some(l),
                Err(_) => parse_level_seq(s@) is None,
            },
    {
        match LogLevelFilter::from_str(s) {
            Ok(f) => match f.to_log_level() {
                Some(l) => Ok(l),
                None => Err(()),
            },
            Err(_) => Err(()),
        }
    }
}

impl LogLevelFilter {
    /// The canonical name of this filter.
    pub fn name(&self) -> (r: &'static str)
        ensures
            r@ == spec_filter_name(*self),
    {
        match self {
            LogLevelFilter::Off => "OFF",
            LogLevelFilter::Error => "ERROR",
            LogLevelFilter::Warn => "WARN",
            LogLevelFilter::Info => "INFO",
            LogLevelFilter::Debug => "DEBUG",
            LogLevelFilter::Trace => "TRACE",
        }
    }

    /// Parses a filter from its case-insensitive name; an unrecognized
    /// token fails.
    pub fn from_str(s: &str) -> (r: Result<LogLevelFilter, ()>)
        ensures
            match r {
                Ok(f) => parse_filter_seq(s@) == Some(f),
                Err(_) => parse_filter_seq(s@) is None,
            },
    {
        if str_eq_ignore_case(s, "OFF") {
            Ok(LogLevelFilter::Off)
        } else if str_eq_ignore_case(s, "ERROR") {
            Ok(LogLevelFilter::Error)
        } else if str_eq_ignore_case(s, "WARN") {
            Ok(LogLevelFilter::Warn)
        } else if str_eq_ignore_case(s, "INFO") {
            Ok(LogLevelFilter::Info)
        } else if str_eq_ignore_case(s, "DEBUG") {
            Ok(LogLevelFilter::Debug)
        } else if str_eq_ignore_case(s, "TRACE") {
            Ok(LogLevelFilter::Trace)
        } else {
            Err(())
        }
    }
}

/// Reveals the views of the six canonical names.
proof fn lemma_reveal_names()
    ensures
        "OFF"@ =~= seq!['O', 'F', 'F'],
        "ERROR"@ =~= seq!['E', 'R', 'R', 'O', 'R'],
        "WARN"@ =~= seq!['W', 'A', 'R', 'N'],
        "INFO"@ =~= seq!['I', 'N', 'F', 'O'],
        "DEBUG"@ =~= seq!['D', 'E', 'B', 'U', 'G'],
        "TRACE"@ =~= seq!['T', 'R', 'A', 'C', 'E'],
{
    reveal_strlit("OFF");
    reveal_strlit("ERROR");
    reveal_strlit("WARN");
    reveal_strlit("INFO");
    reveal_strlit("DEBUG");
    reveal_strlit("TRACE");
}

/// Parsing a filter's canonical name gives the filter back: names
/// round-trip through the parser.
pub proof fn lemma_filter_name_round_trip(f: LogLevelFilter)
    ensures
        parse_filter_seq(spec_filter_name(f)) == Some(f),
{
    lemma_reveal_names();
}

/// Parsing a level's canonical name gives the level back.
pub proof fn lemma_level_name_round_trip(l: LogLevel)
    ensures
        parse_level_seq(spec_level_name(l)) == Some(l),
{
    lemma_reveal_names();
}

/// A token that parses as a filter is the filter's canonical name up to
/// ASCII case: the parse canonicalizes nothing but letter case.
pub proof fn lemma_parse_filter_canonical(s: Seq<char>, f: LogLevelFilter)
    requires
        parse_filter_seq(s) == Some(f),
    ensures
        seq_eq_icase(s, spec_filter_name(f)),
{
    lemma_reveal_names();
}

} // verus!
