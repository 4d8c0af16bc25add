//! The call-scoped drain protocol every boundary operation follows.
//!
//! A call first validates its required pointers; a missing one rejects the
//! call before the sink is touched.  It then acquires the sink and captures
//! the window start.  The caller runs the engine operation — logging lands in
//! the sink meanwhile — and finishes the call: whatever the engine answered,
//! the records stamped inside the window are drained into the report's log
//! text, and the outcome, error kind and error message are filled from the
//! engine's answer.

use vstd::prelude::*;
use vstd::string::*;

use crate::buffer::{drained_from, kept_after, stamps_increasing};
use crate::record::{render_all, LogRecord};
use crate::sink::{acquire_step, LogSink};
use crate::status::{CallReport, EngineError, Outcome};

verus! {

/// How a call proceeds after its opening steps.
pub enum CallSetup {
    /// A required pointer was null; nothing was touched.
    NullArgument,
    /// The sink could not be installed; the report describes the logger
    /// failure and carries no log text, since the sink is unavailable.
    LoggerDown(CallReport),
    /// The call may invoke the engine; the carried stamp is the window
    /// start its finishing drain will use.
    Proceed(u64),
}

/// The error message reported when the sink cannot be installed.
pub open spec fn logger_down_message(detail: Seq<char>) -> Seq<char> {
    "Failed to setup logger: "@ + "Bug"@ + ": "@ + "Failed to log::set_logger: "@ + detail
}

/// Steps one to four of the protocol: pointer validation, sink acquisition
/// and window capture.  A null required pointer rejects the call with the
/// sink untouched — no engine work and no logging happen for it.  A sink
/// that cannot be installed fails the call with a logger-failure message and
/// no log text.  Otherwise the call proceeds with the window start.
pub fn begin_call(
    required_present: bool,
    sink: &mut LogSink,
    install_ok: bool,
    install_detail: &str,
) -> (r: CallSetup)
    ensures
        !required_present ==> r is NullArgument && *final(sink) == *old(sink),
        required_present ==> *final(sink) == acquire_step(*old(sink), install_ok),
        required_present && (old(sink).installed || install_ok) ==> (r matches CallSetup::Proceed(
            w,
        ) && w == old(sink).buffer.next_stamp),
        required_present && !old(sink).installed && !install_ok ==> (r matches
            CallSetup::LoggerDown(rep) && rep.status is Fail && rep.log_text is None
            && rep.err_kind is None && (rep.err_msg matches Some(m) && m@ == logger_down_message(
            install_detail@,
        ))),
{
    if !required_present {
        return CallSetup::NullArgument;
    }
    let window = sink.window_start();
    match sink.acquire(install_ok, install_detail) {
        Ok(()) => CallSetup::Proceed(window),
        Err(e) => {
            let mut msg = String::from_str("Failed to setup logger: ");
            msg.append(e.kind.as_str());
            msg.append(": ");
            msg.append(e.msg.as_str());
            proof {
                assert(msg@ =~= logger_down_message(install_detail@));
            }
            CallSetup::LoggerDown(
                CallReport {
                    status: Outcome::Fail,
                    log_text: None,
                    err_kind: None,
                    err_msg: Some(msg),
                },
            )
        },
    }
}

/// Steps six and seven of the protocol.  Whatever the engine answered, the
/// records stamped at or after the window start are drained and rendered
/// into the report's log text — the log of a failed call is kept, not
/// dropped.  A success passes the engine's value through; a failure hands
/// the caller the error's kind and message and no value.
pub fn finish_call<T>(sink: &mut LogSink, window: u64, outcome: Result<T, EngineError>) -> (r: (
    CallReport,
    Option<T>,
))
    requires
        old(sink).wf(),
    ensures
        final(sink).wf(),
        final(sink).installed == old(sink).installed,
        final(sink).consumers == old(sink).consumers,
        final(sink).buffer.next_stamp == old(sink).buffer.next_stamp,
        final(sink).buffer.records@ == kept_after(old(sink).buffer.records@, window),
        r.0.log_text matches Some(t) && t@ == render_all(
            drained_from(old(sink).buffer.records@, window),
        ),
        outcome matches Ok(v) ==> r.0.status is Pass && r.0.err_kind is None && r.0.err_msg is None
            && r.1 == Some(v),
        outcome matches Err(e) ==> r.0.status is Fail && r.1 is None && r.0.err_kind == Some(e.kind)
            && r.0.err_msg == Some(e.msg),
{
    let text = sink.drain_since(window);
    match outcome {
        Ok(v) => (
            CallReport {
                status: Outcome::Pass,
                log_text: Some(text),
                err_kind: None,
                err_msg: None,
            },
            Some(v),
        ),
        Err(e) => (
            CallReport {
                status: Outcome::Fail,
                log_text: Some(text),
                err_kind: Some(e.kind),
                err_msg: Some(e.msg),
            },
            None,
        ),
    }
}

/// Drain-after-operation ordering: a call whose window opened at `w` drains
/// exactly the records stamped during the call, however the engine answered.
/// `before` are the records already buffered when the window opened, all
/// stamped below `w`; `during` are the ones stamped inside the window.  The
/// finishing drain returns precisely `during` — a line logged before a
/// failure is still in the returned log — and leaves precisely `before`.
#[verifier::rlimit(50)]
pub proof fn lemma_window_captures_call_records(
    before: Seq<LogRecord>,
    during: Seq<LogRecord>,
    w: u64,
)
    requires
        stamps_increasing(before + during),
        forall|i: int| 0 <= i < before.len() ==> before[i].stamp < w,
        forall|i: int| 0 <= i < during.len() ==> during[i].stamp >= w,
    ensures
        drained_from(before + during, w) == during,
        kept_after(before + during, w) == before,
{
    let s = before + during;
    let k = before.len() as int;
    assert forall|i: int| 0 <= i < k implies s[i].stamp < w by {
        assert(s[i] == before[i]);
    }
    assert forall|i: int| k <= i < s.len() implies s[i].stamp >= w by {
        assert(s[i] == during[i - k]);
    }
    crate::buffer::lemma_sorted_split(s, w, k);
    assert(s.subrange(0, k) =~= before);
    assert(s.subrange(k, s.len() as int) =~= during);
}

/// A call that logged a line and then failed still returns that line: the
/// text the finishing drain renders contains, as a contiguous run, the log
/// line of every record stamped inside the call's window — the engine's
/// answer plays no part in what is drained.
pub proof fn lemma_failed_call_keeps_logged_lines(
    before: Seq<LogRecord>,
    during: Seq<LogRecord>,
    w: u64,
    i: int,
)
    requires
        stamps_increasing(before + during),
        forall|j: int| 0 <= j < before.len() ==> before[j].stamp < w,
        forall|j: int| 0 <= j < during.len() ==> during[j].stamp >= w,
        0 <= i < during.len(),
    ensures
        crate::record::text_contains_run(
            render_all(drained_from(before + during, w)),
            crate::record::render_record(during[i]),
        ),
{
    assert(drained_from(before + during, w) == during) by {
        lemma_window_captures_call_records(before, during, w);
    }
    crate::record::lemma_render_contains_line(during, i);
}

} // verus!
