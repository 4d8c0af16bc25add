//! The four-outcome status protocol and the per-call report.
//!
//! Every boundary operation answers with a small status code and fills
//! caller-owned output slots: the drained log text always, and an error kind
//! and error message when the engine failed.

use vstd::prelude::*;

verus! {

/// Status code for a successful operation.
pub const MOZIM_PASS: u32 = 0;

/// Status code for an operation the engine or the logger refused.
pub const MOZIM_FAIL: u32 = 1;

/// Status code returned when a required pointer argument was null.
pub const MOZIM_FAIL_NULL_POINTER: u32 = 2;

/// Status code returned when a caller-supplied string was not valid text.
pub const MOZIM_FAIL_INVALID_STR: u32 = 3;

/// The outcome of one boundary operation.
#[derive(Clone, Copy, PartialEq, Eq, Structural, Debug)]
pub enum Outcome {
    Pass,
    Fail,
    FailNullPointer,
    FailInvalidString,
}

/// The status code each outcome crosses the boundary as.
pub open spec fn outcome_code(o: Outcome) -> u32 {
    match o {
        Outcome::Pass => MOZIM_PASS,
        Outcome::Fail => MOZIM_FAIL,
        Outcome::FailNullPointer => MOZIM_FAIL_NULL_POINTER,
        Outcome::FailInvalidString => MOZIM_FAIL_INVALID_STR,
    }
}

impl Outcome {
    /// Flattens the outcome to its status code.
    pub fn code(&self) -> (c: u32)
        ensures
            c == outcome_code(*self),
    {
        match self {
            Outcome::Pass => MOZIM_PASS,
            Outcome::Fail => MOZIM_FAIL,
            Outcome::FailNullPointer => MOZIM_FAIL_NULL_POINTER,
            Outcome::FailInvalidString => MOZIM_FAIL_INVALID_STR,
        }
    }
}

/// An engine failure flattened to plain text: the error's kind name and its
/// human-readable message, exactly what the boundary hands the caller.
pub struct EngineError {
    pub kind: String,
    pub msg: String,
}

/// What one call hands back besides its output value: the outcome, the log
/// text drained from the call's window, and, when the engine failed, the
/// error kind and message.  A `None` slot means the operation never reached
/// the point that fills it.
pub struct CallReport {
    pub status: Outcome,
    pub log_text: Option<String>,
    pub err_kind: Option<String>,
    pub err_msg: Option<String>,
}

} // verus!
