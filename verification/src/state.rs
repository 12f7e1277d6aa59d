//! The logger configuration: the verbosity level and the default file path.
//!
//! The configuration is an explicit value owned by the caller. A process-wide
//! logger wraps one `Logger` (or its two fields separately) in whatever
//! mutual-exclusion primitive the host program prefers; the library itself
//! holds no global state.

use vstd::prelude::*;
use crate::severity::LogLevel;

verus! {

/// The mutable configuration of the logging facility.
///
/// `level` is the verbosity threshold consulted on every log call. `path` is
/// the default file the logger appends to; the empty string means "no file
/// sink".
pub struct Logger {
    pub level: LogLevel,
    pub path: String,
}

impl Logger {
    /// A fresh configuration: level `Default`, no file sink.
    pub fn new() -> (r: Logger)
        ensures
            r.level is Default,
            r.path@ == Seq::<char>::empty(),
    {
        Logger { level: LogLevel::Default, path: String::new() }
    }
}

/// Sets the level of logging, leaving the path untouched.
/// See `LogLevel` for a description of what each level means.
pub fn set_level(logger: &mut Logger, level: LogLevel)
    ensures
        final(logger).level == level,
        final(logger).path == old(logger).path,
{
    logger.level = level;
}

/// Sets the default path the logger writes to, leaving the level untouched.
/// If set to an empty `String`, the logger won't write to a file; only to
/// the standard output and the standard error.
pub fn set_path(logger: &mut Logger, path: String)
    ensures
        final(logger).path == path,
        final(logger).level == old(logger).level,
{
    logger.path = path;
}

} // verus!
