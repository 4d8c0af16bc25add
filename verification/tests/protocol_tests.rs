use mozim_clib::protocol::{begin_call, finish_call, CallSetup};
use mozim_clib::record::LogLevel;
use mozim_clib::sink::LogSink;
use mozim_clib::status::{
    EngineError, Outcome, MOZIM_FAIL, MOZIM_FAIL_INVALID_STR, MOZIM_FAIL_NULL_POINTER, MOZIM_PASS,
};

#[test]
fn outcome_codes_cross_the_boundary_as_zero_to_three() {
    assert_eq!(Outcome::Pass.code(), 0);
    assert_eq!(Outcome::Fail.code(), 1);
    assert_eq!(Outcome::FailNullPointer.code(), 2);
    assert_eq!(Outcome::FailInvalidString.code(), 3);
    assert_eq!(MOZIM_PASS, 0);
    assert_eq!(MOZIM_FAIL, 1);
    assert_eq!(MOZIM_FAIL_NULL_POINTER, 2);
    assert_eq!(MOZIM_FAIL_INVALID_STR, 3);
}

#[test]
fn null_pointer_rejects_before_any_sink_work() {
    let mut sink = LogSink::new();
    let setup = begin_call(false, &mut sink, true, "");
    assert!(matches!(setup, CallSetup::NullArgument));
    assert_eq!(Outcome::FailNullPointer.code(), 2);
    // no acquisition, no installation, no logging happened for the call
    assert!(!sink.installed);
    assert_eq!(sink.consumers, 0);
    assert_eq!(sink.buffer.records.len(), 0);
}

#[test]
fn logger_failure_fails_the_call_with_a_message_and_no_log() {
    let mut sink = LogSink::new();
    let setup = begin_call(true, &mut sink, false, "cannot register twice");
    match setup {
        CallSetup::LoggerDown(rep) => {
            assert_eq!(rep.status, Outcome::Fail);
            assert!(rep.log_text.is_none());
            assert!(rep.err_kind.is_none());
            assert_eq!(
                rep.err_msg.as_deref(),
                Some("Failed to setup logger: Bug: Failed to log::set_logger: cannot register twice")
            );
        }
        _ => panic!("expected the logger-down report"),
    }
}

#[test]
fn successful_call_passes_value_and_window_log() {
    let mut sink = LogSink::new();
    let setup = begin_call(true, &mut sink, true, "");
    let window = match setup {
        CallSetup::Proceed(w) => w,
        _ => panic!("expected the call to proceed"),
    };
    sink.record(LogLevel::Debug, "engine".to_string(), "lease acquired".to_string());
    let (rep, value) = finish_call::<u32>(&mut sink, window, Ok(42));
    assert_eq!(rep.status, Outcome::Pass);
    assert_eq!(value, Some(42));
    assert_eq!(rep.log_text.as_deref(), Some("DEBUG engine: lease acquired"));
    assert!(rep.err_kind.is_none());
    assert!(rep.err_msg.is_none());
}

#[test]
fn failed_call_still_returns_the_lines_logged_before_the_failure() {
    let mut sink = LogSink::new();
    let setup = begin_call(true, &mut sink, true, "");
    let window = match setup {
        CallSetup::Proceed(w) => w,
        _ => panic!("expected the call to proceed"),
    };
    sink.record(LogLevel::Info, "engine".to_string(), "operation started".to_string());
    let failure = EngineError { kind: "Timeout".to_string(), msg: "no offer arrived".to_string() };
    let (rep, value) = finish_call::<u32>(&mut sink, window, Err(failure));
    assert_eq!(rep.status, Outcome::Fail);
    assert_eq!(rep.status.code(), 1);
    assert!(value.is_none());
    // the drain ran after the operation, so the line is in the report
    assert_eq!(rep.log_text.as_deref(), Some("INFO engine: operation started"));
    assert_eq!(rep.err_kind.as_deref(), Some("Timeout"));
    assert_eq!(rep.err_msg.as_deref(), Some("no offer arrived"));
}

#[test]
fn a_call_drains_only_its_own_window() {
    let mut sink = LogSink::new();
    sink.record(LogLevel::Warn, "stale".to_string(), "from before".to_string());
    let setup = begin_call(true, &mut sink, true, "");
    let window = match setup {
        CallSetup::Proceed(w) => w,
        _ => panic!("expected the call to proceed"),
    };
    sink.record(LogLevel::Info, "fresh".to_string(), "from this call".to_string());
    let (rep, _value) = finish_call::<()>(&mut sink, window, Ok(()));
    assert_eq!(rep.log_text.as_deref(), Some("INFO fresh: from this call"));
    // the stale record is still buffered for the drain whose window covers it
    assert_eq!(sink.buffer.records.len(), 1);
}
