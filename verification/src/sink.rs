//! The log sink: the process-wide destination every call drains from.
//!
//! The process holds exactly one value of this type, created lazily on the
//! first boundary call and never torn down.  `acquire` models its
//! installation as the process's logging destination: the first successful
//! acquisition installs it, every later one only bumps the consumer count —
//! it never re-registers the sink and never resets the buffer.

use vstd::prelude::*;
use vstd::string::*;

use crate::buffer::LogBuffer;
use crate::record::{LogLevel, LogRecord};
use crate::status::EngineError;

verus! {

pub struct LogSink {
    /// Whether the sink has been registered as the process's logging
    /// destination.  Once true it stays true: the destination can be
    /// installed only once and is never replaced.
    pub installed: bool,
    /// How many call sites have acquired the sink.  Advisory bookkeeping
    /// only; it does not govern the sink's lifetime.
    pub consumers: u64,
    pub buffer: LogBuffer,
}

/// A consumer-count bump; the count is advisory, so it pins at the top
/// rather than demanding anything of the caller.
pub open spec fn bumped(c: u64) -> u64 {
    if c < u64::MAX {
        (c + 1) as u64
    } else {
        c
    }
}

/// What one acquisition does to the sink: installs it if registration
/// succeeded (or it already was installed) and bumps the consumer count;
/// leaves the sink untouched when registration failed.  The buffer is never
/// reset either way.
pub open spec fn acquire_step(s: LogSink, install_ok: bool) -> LogSink {
    if s.installed || install_ok {
        LogSink { installed: true, consumers: bumped(s.consumers), buffer: s.buffer }
    } else {
        s
    }
}

/// The sink after a whole sequence of acquisitions.
pub open spec fn acquire_all(s: LogSink, oks: Seq<bool>) -> LogSink
    decreases oks.len(),
{
    if oks.len() == 0 {
        s
    } else {
        acquire_all(acquire_step(s, oks[0]), oks.drop_first())
    }
}

impl LogSink {
    pub open spec fn wf(self) -> bool {
        self.buffer.wf()
    }

    pub fn new() -> (s: LogSink)
        ensures
            s.wf(),
            !s.installed,
            s.consumers == 0,
            s.buffer.records@ == Seq::<LogRecord>::empty(),
            s.buffer.next_stamp == 0,
    {
        LogSink { installed: false, consumers: 0, buffer: LogBuffer::new() }
    }

    /// Whether the next acquisition must attempt to register the sink as the
    /// process's logging destination.
    pub fn needs_install(&self) -> (b: bool)
        ensures
            b == !self.installed,
    {
        !self.installed
    }

    /// One acquisition.  `install_ok` reports whether registering the sink
    /// as the logging destination succeeded; it is consulted only when the
    /// sink is not yet installed.  `detail` describes the registration
    /// failure, for the error this returns when installation was refused —
    /// an unrecoverable configuration error, reported like an engine bug.
    pub fn acquire(&mut self, install_ok: bool, detail: &str) -> (r: Result<(), EngineError>)
        ensures
            *final(self) == acquire_step(*old(self), install_ok),
            r is Ok <==> (old(self).installed || install_ok),
            r matches Err(e) ==> e.kind@ == "Bug"@ && e.msg@ == "Failed to log::set_logger: "@
                + detail@,
    {
        if self.installed || install_ok {
            self.installed = true;
            if self.consumers < u64::MAX {
                self.consumers = self.consumers + 1;
            }
            Ok(())
        } else {
            let mut msg = String::from_str("Failed to log::set_logger: ");
            msg.append(detail);
            Err(EngineError { kind: String::from_str("Bug"), msg })
        }
    }

    /// The stamp marking the start of a call's window.
    pub fn window_start(&self) -> (w: u64)
        ensures
            w == self.buffer.next_stamp,
    {
        self.buffer.window_start()
    }

    /// Appends one diagnostic record to the sink's buffer.
    pub fn record(&mut self, level: LogLevel, target: String, message: String)
        requires
            old(self).wf(),
        ensures
            final(self).wf(),
            final(self).installed == old(self).installed,
            final(self).consumers == old(self).consumers,
            old(self).buffer.next_stamp < u64::MAX ==> {
                &&& final(self).buffer.records@ == old(self).buffer.records@.push(
                    (LogRecord {
                        stamp: old(self).buffer.next_stamp,
                        level,
                        target,
                        message,
                    }),
                )
                &&& final(self).buffer.next_stamp == old(self).buffer.next_stamp + 1
            },
            old(self).buffer.next_stamp == u64::MAX ==> *final(self) == *old(self),
    {
        self.buffer.record(level, target, message)
    }

    /// Drains and renders every record stamped at or after `w`.
    pub fn drain_since(&mut self, w: u64) -> (text: String)
        requires
            old(self).wf(),
        ensures
            final(self).wf(),
            final(self).installed == old(self).installed,
            final(self).consumers == old(self).consumers,
            final(self).buffer.next_stamp == old(self).buffer.next_stamp,
            final(self).buffer.records@ == crate::buffer::kept_after(
                old(self).buffer.records@,
                w,
            ),
            text@ == crate::record::render_all(
                crate::buffer::drained_from(old(self).buffer.records@, w),
            ),
    {
        self.buffer.drain_since(w)
    }
}

/// The message logged when a boundary operation receives a null pointer for
/// an argument it can still answer about (a getter's handle).
pub open spec fn null_argument_message(arg: Seq<char>, op: Seq<char>) -> Seq<char> {
    "Got NULL point of "@ + arg + " argument in "@ + op + "()"@
}

/// Records the defensive error line for a null handle handed to a getter:
/// the getter answers a sentinel instead of failing, but the mistake is
/// logged.
pub fn note_null_argument(sink: &mut LogSink, arg: &str, op: &str)
    requires
        old(sink).wf(),
    ensures
        final(sink).wf(),
        final(sink).installed == old(sink).installed,
        final(sink).consumers == old(sink).consumers,
        old(sink).buffer.next_stamp < u64::MAX ==> {
            &&& final(sink).buffer.records@.len() == old(sink).buffer.records@.len() + 1
            &&& final(sink).buffer.records@.drop_last() == old(sink).buffer.records@
            &&& final(sink).buffer.records@.last().stamp == old(sink).buffer.next_stamp
            &&& final(sink).buffer.records@.last().level == LogLevel::Error
            &&& final(sink).buffer.records@.last().target@ == "mozim_clib"@
            &&& final(sink).buffer.records@.last().message@ == null_argument_message(arg@, op@)
            &&& final(sink).buffer.next_stamp == old(sink).buffer.next_stamp + 1
        },
        old(sink).buffer.next_stamp == u64::MAX ==> *final(sink) == *old(sink),
{
    let mut msg = String::from_str("Got NULL point of ");
    msg.append(arg);
    msg.append(" argument in ");
    msg.append(op);
    msg.append("()");
    let target = String::from_str("mozim_clib");
    proof {
        if old(sink).buffer.next_stamp < u64::MAX {
            assert(old(sink).buffer.records@.push(
                (LogRecord {
                    stamp: old(sink).buffer.next_stamp,
                    level: LogLevel::Error,
                    target,
                    message: msg,
                }),
            ).drop_last() =~= old(sink).buffer.records@);
        }
    }
    sink.record(LogLevel::Error, target, msg)
}

/// Acquiring the sink any number of times after it is installed never
/// re-installs it and never resets its buffer: the records it held are
/// exactly the records it holds after every acquisition.
pub proof fn lemma_acquire_idempotent(s: LogSink, oks: Seq<bool>)
    requires
        s.installed,
    ensures
        acquire_all(s, oks).installed,
        acquire_all(s, oks).buffer == s.buffer,
    decreases oks.len(),
{
    if oks.len() > 0 {
        lemma_acquire_idempotent(acquire_step(s, oks[0]), oks.drop_first());
    }
}

/// However an acquisition turns out, it never touches the buffer, and once
/// any acquisition has installed the sink, every later one finds it
/// installed.
pub proof fn lemma_acquire_preserves_buffer(s: LogSink, oks: Seq<bool>)
    ensures
        acquire_all(s, oks).buffer == s.buffer,
        acquire_all(s, oks).installed ==> forall|more: Seq<bool>|
            #[trigger] acquire_all(acquire_all(s, oks), more).installed,
    decreases oks.len(),
{
    if oks.len() > 0 {
        lemma_acquire_preserves_buffer(acquire_step(s, oks[0]), oks.drop_first());
    } else {
        assert forall|more: Seq<bool>|
            acquire_all(s, oks).installed implies #[trigger] acquire_all(
            acquire_all(s, oks),
            more,
        ).installed by {
            if acquire_all(s, oks).installed {
                lemma_acquire_idempotent(acquire_all(s, oks), more);
            }
        }
    }
}

} // verus!
