//! The log dispatcher: resolving the effective path, composing the output
//! line, and applying the filtering policy. The result is an emission plan;
//! the unverified shell around the library carries the plan out against the
//! console and the file system.

use vstd::prelude::*;
use crate::severity::LogType;
use crate::severity::spec_display_name;
use crate::severity::spec_should_emit;
use crate::severity::should_emit;
use crate::state::Logger;
use crate::time::Timestamp;
use crate::time::format_timestamp;
use crate::time::is_timestamp_chars;
use crate::time::lemma_timestamp_chars;
use crate::time::now;
use crate::time::spec_timestamp;

verus! {

/// The full output line of a log call: the category's display name in
/// brackets, the timestamp, an arrow, and the message.
pub open spec fn spec_entry(t: LogType, ts: Seq<char>, msg: Seq<char>) -> Seq<char> {
    seq!['['] + spec_display_name(t) + seq![']', ' '] + ts + seq![' ', '-', '>', ' '] + msg
}

/// The effective file path of a log call: the override when one is given
/// (even an empty one), the configured default otherwise.
pub open spec fn spec_effective_path(p: Option<&str>, default_path: Seq<char>) -> Seq<char> {
    match p {
        Some(q) => q@,
        None => default_path,
    }
}

/// `line` is the output line for a message of category `t` with text `msg`,
/// stamped with some well-formed calendar time.
pub open spec fn entry_at_some_time(line: Seq<char>, t: LogType, msg: Seq<char>) -> bool {
    exists|ts: Timestamp| ts.wf() && line == spec_entry(t, spec_timestamp(ts), msg)
}

/// What a log call that passed the filter must do beyond returning its
/// line: which console sink the line goes to, and which file it is
/// appended to, if any.
pub struct Emission {
    pub line: String,
    pub to_stderr: bool,
    pub file_path: Option<String>,
}

impl Emission {
    /// The plan agrees with configuration `logger` and request `t`, `p`,
    /// `msg`: the line is a correctly composed entry, the sink follows the
    /// category, and the file is the effective path exactly when that path
    /// is non-empty.
    pub open spec fn wf(
        self,
        t: LogType,
        msg: Seq<char>,
        p: Option<&str>,
        default_path: Seq<char>,
    ) -> bool {
        &&& entry_at_some_time(self.line@, t, msg)
        &&& self.to_stderr == (t is Error)
        &&& match self.file_path {
            Some(q) => q@ == spec_effective_path(p, default_path) && q@.len() > 0,
            None => spec_effective_path(p, default_path).len() == 0,
        }
    }
}

/// Composes the output line `[TYPE] timestamp -> message`.
pub fn compose_entry(t: &LogType, timestamp: &str, message: &str) -> (r: String)
    ensures
        r@ == spec_entry(*t, timestamp@, message@),
{
    let mut s = String::from_str("[");
    let name = t.display_name();
    s.append(name.as_str());
    s.append("] ");
    s.append(timestamp);
    s.append(" -> ");
    s.append(message);
    proof {
        reveal_strlit("[");
        reveal_strlit("] ");
        reveal_strlit(" -> ");
        assert(s@ =~= spec_entry(*t, timestamp@, message@));
    }
    s
}

/// Decides a log call against configuration `logger`, stamping the line
/// with the calendar time `ts`: `None` when the filtering policy suppresses
/// the message, otherwise the plan of what must be written where.
pub fn plan_log_at(
    logger: &Logger,
    message: &str,
    t: &LogType,
    p: Option<&str>,
    ts: &Timestamp,
) -> (r: Option<Emission>)
    requires
        ts.wf(),
    ensures
        (r is Some) == spec_should_emit(logger.level, *t),
        r matches Some(e) ==> {
            &&& e.line@ == spec_entry(*t, spec_timestamp(*ts), message@)
            &&& e.to_stderr == (*t is Error)
            &&& match e.file_path {
                Some(q) => q@ == spec_effective_path(p, logger.path@) && q@.len() > 0,
                None => spec_effective_path(p, logger.path@).len() == 0,
            }
        },
{
    let path: &str = match p {
        Some(q) => q,
        None => logger.path.as_str(),
    };
    let stamp = format_timestamp(ts);
    let formatted = compose_entry(t, stamp.as_str(), message);
    if !should_emit(&logger.level, t) {
        return None;
    }
    let file_path = if path.is_empty() {
        None
    } else {
        Some(String::from_str(path))
    };
    Some(Emission { line: formatted, to_stderr: *t == LogType::Error, file_path })
}

/// Decides a log call against configuration `logger` at the current
/// wall-clock time. The emitted line is a correctly composed entry for some
/// well-formed calendar time; which one depends on the moment of the call.
pub fn plan_log(logger: &Logger, message: &str, t: &LogType, p: Option<&str>) -> (r: Option<
    Emission,
>)
    ensures
        (r is Some) == spec_should_emit(logger.level, *t),
        r matches Some(e) ==> e.wf(*t, message@, p, logger.path@),
{
    let ts = now();
    let r = plan_log_at(logger, message, t, p, &ts);
    proof {
        if r is Some {
            assert(ts.wf() && r->Some_0.line@ == spec_entry(*t, spec_timestamp(ts), message@));
            assert(entry_at_some_time(r->Some_0.line@, *t, message@));
        }
    }
    r
}

/// A line of the logger always matches the pattern
/// `[(INFO|DEBUG|WARNING|ERROR)] dddd-dd-dd dd:dd:dd -> message` (`d` a
/// decimal digit): it is an entry for one of the four categories whose
/// timestamp field has exactly the `YYYY-MM-DD HH:MM:SS` shape.
pub open spec fn line_matches_pattern(s: Seq<char>) -> bool {
    exists|t: LogType, ts: Seq<char>, msg: Seq<char>|
        is_timestamp_chars(ts) && s == #[trigger] spec_entry(t, ts, msg)
}

/// Every composed entry whose year has at most four digits matches the
/// output pattern. A year beyond 9999, such as 10000, widens the year field
/// past four digits and falls outside the pattern.
pub proof fn lemma_entry_matches_pattern(t: LogType, ts: Timestamp, msg: Seq<char>)
    requires
        ts.wf(),
        0 <= ts.year <= 9999,
    ensures
        line_matches_pattern(spec_entry(t, spec_timestamp(ts), msg)),
{
    lemma_timestamp_chars(ts);
    assert(is_timestamp_chars(spec_timestamp(ts)) && spec_entry(t, spec_timestamp(ts), msg)
        == spec_entry(t, spec_timestamp(ts), msg));
}

} // verus!
