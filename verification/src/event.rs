//! Decoding the caller's numeric event identifier into an engine event.
//!
//! The poll operation hands the caller numeric event identifiers; the caller
//! hands one back to the process operation, which must translate it into the
//! engine's event type before any engine work starts.  An identifier the
//! engine does not define fails the call before the drain protocol begins.

use vstd::prelude::*;

use crate::status::{CallReport, EngineError, Outcome};

verus! {

/// Declares the engine's event type; values of it are opaque here and only
/// carried between the decode step and the engine.
#[verifier::external_type_specification]
#[verifier::external_body]
pub struct ExDhcpV4Event(mozim::DhcpV4Event);

/// The identifiers the engine defines events for.
pub open spec fn valid_event_id(id: u64) -> bool {
    1 <= id <= 10
}

/// The decimal digit characters.
pub open spec fn dec_digit(d: u64) -> char {
    if d == 0 {
        '0'
    } else if d == 1 {
        '1'
    } else if d == 2 {
        '2'
    } else if d == 3 {
        '3'
    } else if d == 4 {
        '4'
    } else if d == 5 {
        '5'
    } else if d == 6 {
        '6'
    } else if d == 7 {
        '7'
    } else if d == 8 {
        '8'
    } else {
        '9'
    }
}

/// The decimal rendering of a number, most significant digit first.
pub open spec fn dec_str(v: u64) -> Seq<char>
    decreases v,
{
    if v < 10 {
        seq![dec_digit(v)]
    } else {
        dec_str(v / 10).push(dec_digit(v % 10))
    }
}

/// The message the engine reports for an identifier it does not define.
pub open spec fn unknown_event_message(id: u64) -> Seq<char> {
    "Got unexpected event ID "@ + dec_str(id)
}

/// Relies on `<DhcpV4Event as TryFrom<u64>>::try_from`: identifiers 1
/// through 10 name the engine's events; any other value yields a `Bug`-kind
/// error whose message is `"Got unexpected event ID {id}"`.  The error's
/// kind and message move into the library's error type as plain strings —
/// `ErrorKind`'s `Display` prints the variant's name, and `DhcpError::msg`
/// hands back the stored message.
#[verifier::external_body]
fn event_from_id(id: u64) -> (r: Result<mozim::DhcpV4Event, EngineError>)
    ensures
        r is Ok <==> valid_event_id(id),
        r matches Err(e) ==> e.kind@ == "Bug"@ && e.msg@ == unknown_event_message(id),
{
    match mozim::DhcpV4Event::try_from(id) {
        Ok(ev) => Ok(ev),
        Err(e) => Err(
            EngineError { kind: format!("{}", e.kind()), msg: e.msg().to_string() },
        ),
    }
}

/// Relies on `<u64 as From<DhcpV4Event>>::from`: every engine event's
/// numeric identifier is one of the defined ones.
#[verifier::external_body]
fn event_id_of(ev: &mozim::DhcpV4Event) -> (r: u64)
    ensures
        valid_event_id(r),
{
    u64::from(*ev)
}

/// The marshaling step of the poll operation: flattens the engine's ready
/// events into the numeric identifiers the caller receives, one per event.
/// Every identifier handed out is a defined one, so handing it back to the
/// process operation always passes its decode step.
pub fn poll_event_ids(events: &Vec<mozim::DhcpV4Event>) -> (r: Vec<u64>)
    ensures
        r@.len() == events@.len(),
        forall|i: int| 0 <= i < r@.len() ==> valid_event_id(#[trigger] r@[i]),
{
    let mut ids: Vec<u64> = Vec::new();
    let mut i: usize = 0;
    while i < events.len()
        invariant
            i <= events@.len(),
            ids@.len() == i,
            forall|j: int| 0 <= j < i ==> valid_event_id(#[trigger] ids@[j]),
        decreases events.len() - i,
    {
        ids.push(event_id_of(&events[i]));
        i += 1;
    }
    ids
}

/// The decode step of the process operation.  A defined identifier yields
/// the engine event the caller may process; an unknown one fails the call
/// right away, with the engine's unknown-event error and no log text — the
/// drain protocol never starts for it.
pub fn process_event_setup(id: u64) -> (r: Result<mozim::DhcpV4Event, CallReport>)
    ensures
        r is Ok <==> valid_event_id(id),
        r matches Err(rep) ==> rep.status is Fail && rep.log_text is None && (
        rep.err_kind matches Some(k) && k@ == "Bug"@) && (rep.err_msg matches Some(m) && m@
            == unknown_event_message(id)),
{
    match event_from_id(id) {
        Ok(ev) => Ok(ev),
        Err(e) => Err(
            CallReport {
                status: Outcome::Fail,
                log_text: None,
                err_kind: Some(e.kind),
                err_msg: Some(e.msg),
            },
        ),
    }
}

} // verus!
