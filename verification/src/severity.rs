//! The severity model: message categories, verbosity levels, and the
//! filtering policy between them.

use vstd::prelude::*;

verus! {

/// The verbosity threshold of the logger.
///
/// `Verbose` logs every message; `Debug` logs everything but `Info`
/// messages; `Default` logs only `Warning` and `Error` messages;
/// `ErrorsOnly` logs nothing but `Error` messages.
#[derive(Debug, PartialEq, Eq, Structural, Clone, Copy)]
pub enum LogLevel {
    Verbose,
    Debug,
    Default,
    ErrorsOnly,
}

/// The category of a single message, rendered verbatim in the output line.
#[derive(Debug, PartialEq, Eq, Structural, Clone, Copy)]
pub enum LogType {
    Info,
    Debug,
    Warning,
    Error,
}

/// The canonical uppercase rendering of a message category.
pub open spec fn spec_display_name(t: LogType) -> Seq<char> {
    match t {
        LogType::Info => seq!['I', 'N', 'F', 'O'],
        LogType::Debug => seq!['D', 'E', 'B', 'U', 'G'],
        LogType::Warning => seq!['W', 'A', 'R', 'N', 'I', 'N', 'G'],
        LogType::Error => seq!['E', 'R', 'R', 'O', 'R'],
    }
}

/// The filtering policy: whether a message of category `t` is emitted when
/// the configured level is `level`.
pub open spec fn spec_should_emit(level: LogLevel, t: LogType) -> bool {
    match level {
        LogLevel::Verbose => true,
        LogLevel::Debug => !(t is Info),
        LogLevel::Default => t is Warning || t is Error,
        LogLevel::ErrorsOnly => t is Error,
    }
}

/// The filtering policy, spelled out cell by cell: each verbosity level
/// paired with each message category, suppressed or emitted exactly as the
/// policy tabulates. `Debug` still suppresses `Info`; each level emits a
/// subset of what the level above it emits.
pub proof fn lemma_policy_table()
    ensures
        spec_should_emit(LogLevel::Verbose, LogType::Info),
        spec_should_emit(LogLevel::Verbose, LogType::Debug),
        spec_should_emit(LogLevel::Verbose, LogType::Warning),
        spec_should_emit(LogLevel::Verbose, LogType::Error),
        !spec_should_emit(LogLevel::Debug, LogType::Info),
        spec_should_emit(LogLevel::Debug, LogType::Debug),
        spec_should_emit(LogLevel::Debug, LogType::Warning),
        spec_should_emit(LogLevel::Debug, LogType::Error),
        !spec_should_emit(LogLevel::Default, LogType::Info),
        !spec_should_emit(LogLevel::Default, LogType::Debug),
        spec_should_emit(LogLevel::Default, LogType::Warning),
        spec_should_emit(LogLevel::Default, LogType::Error),
        !spec_should_emit(LogLevel::ErrorsOnly, LogType::Info),
        !spec_should_emit(LogLevel::ErrorsOnly, LogType::Debug),
        !spec_should_emit(LogLevel::ErrorsOnly, LogType::Warning),
        spec_should_emit(LogLevel::ErrorsOnly, LogType::Error),
{
}

impl LogType {
    /// The uppercase name of this category, as it appears in output lines.
    pub fn display_name(&self) -> (r: String)
        ensures
            r@ == spec_display_name(*self),
    {
        proof {
            reveal_strlit("INFO");
            reveal_strlit("DEBUG");
            reveal_strlit("WARNING");
            reveal_strlit("ERROR");
        }
        match self {
            LogType::Info => String::from_str("INFO"),
            LogType::Debug => String::from_str("DEBUG"),
            LogType::Warning => String::from_str("WARNING"),
            LogType::Error => String::from_str("ERROR"),
        }
    }
}

/// Whether a message of category `t` passes the filter at level `level`.
pub fn should_emit(level: &LogLevel, t: &LogType) -> (r: bool)
    ensures
        r == spec_should_emit(*level, *t),
{
    match level {
        LogLevel::ErrorsOnly => *t == LogType::Error,
        LogLevel::Default => *t == LogType::Warning || *t == LogType::Error,
        LogLevel::Debug => *t != LogType::Info,
        LogLevel::Verbose => true,
    }
}

} // verus!
