//! The logger core: the directive list, tag and process id of one
//! execution context, the enable-check against that state, and the
//! rendering of an enabled event into its output line. Writing the line to
//! a physical backend is the embedding program's part; a rendered line is
//! handed back rather than written, so the core itself performs no output.

use vstd::prelude::*;

use vstd::string::StringExecFns;

use crate::directive::dirs_view;
use crate::directive::enabled_model;
use crate::directive::is_enabled;
use crate::directive::DirectiveView;
use crate::directive::LogDirective;
use crate::fmt::dec_digits;
use crate::fmt::dec_signed;
use crate::fmt::i32_to_string;
use crate::fmt::u64_to_string;
use crate::levels::spec_level_name;
use crate::levels::LogLevel;
use crate::levels::LogLevelFilter;
use crate::parser::parse_logging_spec;
use crate::parser::parse_spec_model;

verus! {

/// Metadata of one log event: its severity and the module that emits it.
pub struct LogMetadata {
    pub level: LogLevel,
    pub target: &'static str,
}

/// Relies on `time::now_utc` and `time::Tm::rfc3339`: renders the current
/// UTC time. The result depends on the clock, so nothing is promised
/// of it.
#[verifier::external_body]
pub(crate) fn now_rfc3339() -> (r: String) {
    format!("{}", time::now_utc().rfc3339())
}

/// Relies on `time::precise_time_ns`: a nanosecond reading of a monotonic
/// clock. The result depends on the clock, so nothing is promised of it.
#[verifier::external_body]
pub(crate) fn monotonic_ns() -> (r: u64) {
    time::precise_time_ns()
}

/// The rendered form of one log line: timestamp, monotonic counter,
/// process id and tag separated by spaces, then a tab, the level tag, a
/// space, the message, and a newline.
pub open spec fn line_model(
    ts: Seq<char>,
    ns: u64,
    pid: i32,
    tag: Seq<char>,
    level_tag: Seq<char>,
    msg: Seq<char>,
) -> Seq<char> {
    ts + " "@ + dec_digits(ns as nat) + " "@ + dec_signed(pid as int) + " "@ + tag + "\t"@
        + level_tag + " "@ + msg + "\n"@
}

/// Renders the line for one event, exactly as [`line_model`] lays it out.
pub fn format_event(
    ts: &str,
    ns: u64,
    pid: i32,
    tag: &str,
    level_tag: &str,
    msg: &str,
) -> (r: String)
    ensures
        r@ == line_model(ts@, ns, pid, tag@, level_tag@, msg@),
{
    let mut s = ts.to_owned();
    s.append(" ");
    s.append(u64_to_string(ns).as_str());
    s.append(" ");
    s.append(i32_to_string(pid).as_str());
    s.append(" ");
    s.append(tag);
    s.append("\t");
    s.append(level_tag);
    s.append(" ");
    s.append(msg);
    s.append("\n");
    proof {
        assert(s@ =~= line_model(ts@, ns, pid, tag@, level_tag@, msg@));
    }
    s
}

/// The state of one execution context's logger: the active directive
/// list, the tag written into every line, and the process id captured at
/// initialization.
pub struct Logger {
    pub directives: Vec<LogDirective>,
    pub tag: String,
    pub pid: i32,
}

impl Logger {
    /// A logger in its default configuration: one catch-all directive at
    /// `Error`, the default tag, and no process id yet.
    pub fn new() -> (r: Logger)
        ensures
            dirs_view(r.directives@) =~= seq![
                (DirectiveView { name: None, level: LogLevelFilter::Error }),
            ],
            r.tag@ == "SOZU"@,
            r.pid == 0,
    {
        let directives = vec![LogDirective { name: None, level: LogLevelFilter::Error }];
        Logger { directives, tag: "SOZU".to_owned(), pid: 0 }
    }

    /// Replaces the whole configuration at once: the specification is
    /// parsed into a fresh directive list, and the tag and the process id
    /// of the calling context are recorded. There is no merging with the
    /// previous configuration, and re-initialization simply overwrites.
    pub fn init(&mut self, tag: String, spec: &str, pid: i32)
        ensures
            dirs_view(final (self).directives@) == parse_spec_model(spec@),
            final (self).tag@ == tag@,
            final (self).pid == pid,
    {
        let directives = parse_logging_spec(spec);
        self.set_directives(directives);
        self.tag = tag;
        self.pid = pid;
    }

    /// Replaces the directive list atomically; nothing else changes.
    pub fn set_directives(&mut self, directives: Vec<LogDirective>)
        ensures
            final (self).directives == directives,
            final (self).tag == old(self).tag,
            final (self).pid == old(self).pid,
    {
        self.directives = directives;
    }

    /// Whether an event with this metadata passes the directive list.
    pub fn enabled(&self, meta: &LogMetadata) -> (r: bool)
        ensures
            r == enabled_model(dirs_view(self.directives@), meta.level, meta.target@),
    {
        is_enabled(&self.directives, meta.level, meta.target)
    }

    /// The enable-check for events arriving through the compatibility
    /// front-end, whose metadata reaches the core as a level and a target
    /// already taken apart.
    pub fn compat_enabled(&self, level: LogLevel, target: &str) -> (r: bool)
        ensures
            r == enabled_model(dirs_view(self.directives@), level, target@),
    {
        is_enabled(&self.directives, level, target)
    }

    /// Runs the enable-check and, for an enabled event, renders its line:
    /// the result holds a line of the shape [`line_model`] — with the
    /// clock readings of this call, this logger's process id and tag, and
    /// the event's level tag and message — exactly when the event passes
    /// the directive list.
    pub fn log(&self, meta: &LogMetadata, msg: &str) -> (r: Option<String>)
        ensures
            r.is_some() == enabled_model(dirs_view(self.directives@), meta.level, meta.target@),
            (r matches Some(line) ==> exists|ts: Seq<char>, ns: u64|
                line@ == line_model(
                    ts,
                    ns,
                    self.pid,
                    self.tag@,
                    spec_level_name(meta.level),
                    msg@,
                )),
    {
        if self.enabled(meta) {
            let ts = now_rfc3339();
            let ns = monotonic_ns();
            let line = format_event(
                ts.as_str(),
                ns,
                self.pid,
                self.tag.as_str(),
                meta.level.name(),
                msg,
            );
            Some(line)
        } else {
            None
        }
    }

    /// [`Logger::log`] for events arriving through the compatibility
    /// front-end: the same enable-check and the same line shape.
    pub fn compat_log(&self, level: LogLevel, target: &str, msg: &str) -> (r: Option<String>)
        ensures
            r.is_some() == enabled_model(dirs_view(self.directives@), level, target@),
            (r matches Some(line) ==> exists|ts: Seq<char>, ns: u64|
                line@ == line_model(ts, ns, self.pid, self.tag@, spec_level_name(level), msg@)),
    {
        if self.compat_enabled(level, target) {
            let ts = now_rfc3339();
            let ns = monotonic_ns();
            let line = format_event(
                ts.as_str(),
                ns,
                self.pid,
                self.tag.as_str(),
                level.name(),
                msg,
            );
            Some(line)
        } else {
            None
        }
    }
}

} // verus!
