use subkernel::satellite::session::KernelState;
use subkernel::satellite::session::Session;

#[test]
fn fresh_session_is_absent() {
    let session = Session::new();
    assert_eq!(session.kernel_state, KernelState::Absent);
    assert_eq!(session.log_buffer, "");
    assert!(session.last_exception.is_none());
    assert!(!session.running());
}

#[test]
fn running_states() {
    let mut session = Session::new();
    session.kernel_state = KernelState::Loaded;
    assert!(!session.running());
    session.kernel_state = KernelState::Running;
    assert!(session.running());
    session.kernel_state = KernelState::MsgAwait { max_time: 5 };
    assert!(session.running());
    session.kernel_state = KernelState::MsgSending;
    assert!(session.running());
    session.kernel_state = KernelState::Absent;
    assert!(!session.running());
}

#[test]
fn log_buffer_is_flushed_at_a_line_end() {
    let mut session = Session::new();
    assert!(session.flush_log_buffer().is_empty());
    session.log_buffer.push_str("one");
    assert!(session.flush_log_buffer().is_empty());
    assert_eq!(session.log_buffer, "one");
    session.log_buffer.push_str(" two\nthree\n");
    assert_eq!(session.flush_log_buffer(), vec!["one two", "three"]);
    assert_eq!(session.log_buffer, "");
    assert!(session.flush_log_buffer().is_empty());
}

#[test]
fn text_is_logged_line_by_line() {
    let mut session = Session::new();
    assert!(session.log("temperature ").is_empty());
    assert!(session.log("21\u{b0}").is_empty());
    assert_eq!(session.log("C\n"), vec!["temperature 21\u{b0}C"]);
    assert_eq!(session.log("a\r\n\nb\n"), vec!["a", "", "b"]);
    assert_eq!(session.log("\n"), vec![""]);
    assert!(session.log("").is_empty());
    assert!(session.log("tail\nrest").is_empty());
    assert_eq!(session.log_buffer, "tail\nrest");
    assert_eq!(session.log("\n"), vec!["tail", "rest"]);
}
