//! Diagnostic records and their textual rendering.

use vstd::prelude::*;
use vstd::string::*;

verus! {

/// Severity of one diagnostic record, highest first.
#[derive(Clone, Copy, PartialEq, Eq, Structural, Debug)]
pub enum LogLevel {
    Error,
    Warn,
    Info,
    Debug,
    Trace,
}

/// One diagnostic record.  `stamp` is a logical instant: the buffer hands
/// them out in strictly increasing order, so a record's stamp places it
/// unambiguously before or after any call window.  A record is immutable
/// once created and leaves the buffer only through a drain.
pub struct LogRecord {
    pub stamp: u64,
    pub level: LogLevel,
    pub target: String,
    pub message: String,
}

/// The level's rendering in a drained log line.
pub open spec fn level_label(l: LogLevel) -> Seq<char> {
    match l {
        LogLevel::Error => "ERROR"@,
        LogLevel::Warn => "WARN"@,
        LogLevel::Info => "INFO"@,
        LogLevel::Debug => "DEBUG"@,
        LogLevel::Trace => "TRACE"@,
    }
}

/// One drained record renders as `"{level} {target}: {message}"`.
pub open spec fn render_record(r: LogRecord) -> Seq<char> {
    level_label(r.level) + " "@ + r.target@ + ": "@ + r.message@
}

/// A drained batch renders as its records' lines joined by newlines.
pub open spec fn render_all(s: Seq<LogRecord>) -> Seq<char>
    decreases s.len(),
{
    if s.len() == 0 {
        Seq::empty()
    } else if s.len() == 1 {
        render_record(s[0])
    } else {
        render_all(s.drop_last()) + "\n"@ + render_record(s.last())
    }
}

/// `run` occurs in `text` as one contiguous run of characters.
pub open spec fn text_contains_run(text: Seq<char>, run: Seq<char>) -> bool {
    exists|a: int|
        0 <= a && a + run.len() <= text.len() && #[trigger] text.subrange(a, a + run.len() as int)
            == run
}

/// Every record of a rendered batch appears in the text as one contiguous
/// run of characters: its own log line.  A line logged before a failure is
/// therefore literally contained in the log text the call returns.
pub proof fn lemma_render_contains_line(s: Seq<LogRecord>, i: int)
    requires
        0 <= i < s.len(),
    ensures
        text_contains_run(render_all(s), render_record(s[i])),
    decreases s.len(),
{
    let line = render_record(s[i]);
    let text = render_all(s);
    if s.len() == 1 {
        assert(text == line);
        assert(text.subrange(0, 0 + line.len() as int) =~= line);
    } else {
        let s1 = s.drop_last();
        let prefix = render_all(s1) + "\n"@;
        assert(text == prefix + render_record(s.last()));
        if i == s.len() - 1 {
            let a = prefix.len() as int;
            assert(text.subrange(a, a + line.len() as int) =~= line);
        } else {
            assert(s1[i] == s[i]);
            lemma_render_contains_line(s1, i);
            let a = choose|a: int|
                0 <= a && a + line.len() <= render_all(s1).len()
                    && #[trigger] render_all(s1).subrange(a, a + line.len() as int) == line;
            assert(text.subrange(a, a + line.len() as int) =~= line);
        }
    }
}

/// The level's label as text.
pub fn level_text(l: LogLevel) -> (s: &'static str)
    ensures
        s@ == level_label(l),
{
    match l {
        LogLevel::Error => "ERROR",
        LogLevel::Warn => "WARN",
        LogLevel::Info => "INFO",
        LogLevel::Debug => "DEBUG",
        LogLevel::Trace => "TRACE",
    }
}

/// Renders one record as a log line.
pub fn render_line(r: &LogRecord) -> (s: String)
    ensures
        s@ == render_record(*r),
{
    let mut s = String::from_str(level_text(r.level));
    s.append(" ");
    s.append(r.target.as_str());
    s.append(": ");
    s.append(r.message.as_str());
    s
}

} // verus!
