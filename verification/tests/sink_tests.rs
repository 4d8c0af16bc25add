use mozim_clib::record::LogLevel;
use mozim_clib::sink::{note_null_argument, LogSink};

#[test]
fn first_acquire_installs_and_counts_one_consumer() {
    let mut s = LogSink::new();
    assert!(s.needs_install());
    assert!(s.acquire(true, "").is_ok());
    assert!(s.installed);
    assert_eq!(s.consumers, 1);
    assert!(!s.needs_install());
}

#[test]
fn later_acquires_install_nothing_and_keep_the_buffer() {
    let mut s = LogSink::new();
    assert!(s.acquire(true, "").is_ok());
    s.record(LogLevel::Info, "t".to_string(), "kept across acquires".to_string());
    for _ in 0..5 {
        // install_ok is irrelevant once installed: nothing is re-registered
        assert!(s.acquire(false, "ignored").is_ok());
    }
    assert_eq!(s.consumers, 6);
    assert!(s.installed);
    // the buffer was not reset by any of the later acquisitions
    assert_eq!(s.buffer.records.len(), 1);
    assert_eq!(s.drain_since(0), "INFO t: kept across acquires");
}

#[test]
fn refused_installation_fails_with_a_bug_error() {
    let mut s = LogSink::new();
    let e = s.acquire(false, "logger already set").unwrap_err();
    assert_eq!(e.kind, "Bug");
    assert_eq!(e.msg, "Failed to log::set_logger: logger already set");
    assert!(!s.installed);
    assert_eq!(s.consumers, 0);
    // the failure is not cached: a later registration may still succeed
    assert!(s.acquire(true, "").is_ok());
    assert!(s.installed);
}

#[test]
fn null_argument_note_logs_one_error_line() {
    let mut s = LogSink::new();
    note_null_argument(&mut s, "lease", "mozim_dhcpv4_lease_get_lease_time");
    let text = s.drain_since(0);
    assert_eq!(
        text,
        "ERROR mozim_clib: Got NULL point of lease argument in \
         mozim_dhcpv4_lease_get_lease_time()"
    );
}
