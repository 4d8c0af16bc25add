use mozim_clib::buffer::LogBuffer;
use mozim_clib::record::{level_text, LogLevel};

#[test]
fn empty_drain_is_empty_text() {
    let mut b = LogBuffer::new();
    assert_eq!(b.drain_since(0), String::new());
    assert_eq!(b.next_stamp, 0);
}

#[test]
fn one_record_renders_level_target_message() {
    let mut b = LogBuffer::new();
    b.record(LogLevel::Info, "engine".to_string(), "operation started".to_string());
    let text = b.drain_since(0);
    assert_eq!(text, "INFO engine: operation started");
    assert_eq!(b.records.len(), 0);
    assert_eq!(b.next_stamp, 1);
}

#[test]
fn two_records_join_with_newline_oldest_first() {
    let mut b = LogBuffer::new();
    b.record(LogLevel::Debug, "engine".to_string(), "first".to_string());
    b.record(LogLevel::Error, "engine".to_string(), "second".to_string());
    let text = b.drain_since(0);
    assert_eq!(text, "DEBUG engine: first\nERROR engine: second");
}

#[test]
fn stamps_count_up_one_per_record() {
    let mut b = LogBuffer::new();
    let w0 = b.window_start();
    b.record(LogLevel::Trace, "a".to_string(), "x".to_string());
    let w1 = b.window_start();
    b.record(LogLevel::Trace, "a".to_string(), "y".to_string());
    assert_eq!(w0, 0);
    assert_eq!(w1, 1);
    assert_eq!(b.next_stamp, 2);
    assert_eq!(b.records[0].stamp, 0);
    assert_eq!(b.records[1].stamp, 1);
}

#[test]
fn drain_takes_only_the_window() {
    let mut b = LogBuffer::new();
    b.record(LogLevel::Warn, "old".to_string(), "before the window".to_string());
    let w = b.window_start();
    b.record(LogLevel::Info, "new".to_string(), "inside the window".to_string());
    let text = b.drain_since(w);
    assert_eq!(text, "INFO new: inside the window");
    // the record from before the window stays buffered, not lost
    assert_eq!(b.records.len(), 1);
    assert_eq!(b.records[0].message, "before the window");
}

#[test]
fn successive_drains_return_nothing_twice() {
    let mut b = LogBuffer::new();
    b.record(LogLevel::Info, "t".to_string(), "only line".to_string());
    let first = b.drain_since(0);
    let second = b.drain_since(0);
    assert_eq!(first, "INFO t: only line");
    assert_eq!(second, String::new());
}

#[test]
fn overlapping_windows_between_them_see_every_record() {
    let mut b = LogBuffer::new();
    let w1 = b.window_start();
    b.record(LogLevel::Info, "one".to_string(), "from the first call".to_string());
    let w2 = b.window_start();
    b.record(LogLevel::Info, "two".to_string(), "from the second call".to_string());
    // the later window drains first and takes only its own record ...
    let second_call = b.drain_since(w2);
    assert_eq!(second_call, "INFO two: from the second call");
    // ... and the earlier window's drain sweeps up the rest: none lost
    let first_call = b.drain_since(w1);
    assert_eq!(first_call, "INFO one: from the first call");
    assert_eq!(b.records.len(), 0);
}

#[test]
fn window_above_every_stamp_drains_nothing() {
    let mut b = LogBuffer::new();
    b.record(LogLevel::Info, "t".to_string(), "stays".to_string());
    let text = b.drain_since(5);
    assert_eq!(text, String::new());
    assert_eq!(b.records.len(), 1);
}

#[test]
fn exhausted_counter_drops_records_instead_of_restamping() {
    let mut b = LogBuffer::new();
    b.next_stamp = u64::MAX;
    b.record(LogLevel::Info, "t".to_string(), "never stamped".to_string());
    assert_eq!(b.records.len(), 0);
    assert_eq!(b.next_stamp, u64::MAX);
}

#[test]
fn level_labels_render_upper_case() {
    assert_eq!(level_text(LogLevel::Error), "ERROR");
    assert_eq!(level_text(LogLevel::Warn), "WARN");
    assert_eq!(level_text(LogLevel::Info), "INFO");
    assert_eq!(level_text(LogLevel::Debug), "DEBUG");
    assert_eq!(level_text(LogLevel::Trace), "TRACE");
}
