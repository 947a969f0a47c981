//! A small logging facade built around a directive-based filtering engine:
//! a compact specification string is parsed into an ordered list of
//! (module-prefix, level) directives, and each candidate log event is
//! checked against that list with a backward scan that stops at the first
//! matching directive.

pub mod directive;
pub mod fmt;
pub mod levels;
pub mod logger;
pub mod parser;
pub mod text;

pub use directive::LogDirective;
pub use levels::LogLevel;
pub use levels::LogLevelFilter;
pub use logger::LogMetadata;
pub use logger::Logger;
pub use parser::parse_logging_spec;
