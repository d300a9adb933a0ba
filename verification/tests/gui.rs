use provola::{Config, Message, Reason, State, TestResult};

#[test]
fn starts_without_result() {
    let s = State::default();
    assert!(s.last_result.is_none());
    assert_eq!(s.result_label(), "-");
}

#[test]
fn result_message_is_shown() {
    let mut s = State::default();
    let reply = s.handle_message(Message::Result(TestResult::Pass(Reason::Unknown)));
    assert!(reply.is_none());
    assert_eq!(s.result_label(), "PASS");
    let reply = s.handle_message(Message::Result(TestResult::Fail(Reason::Unknown)));
    assert!(reply.is_none());
    assert_eq!(s.result_label(), "FAIL");
}

#[test]
fn watched_change_clears_and_reruns() {
    let mut s = State::default();
    s.handle_message(Message::Result(TestResult::Fail(Reason::Unknown)));
    let reply = s.handle_message(Message::WatchedChanged);
    assert!(matches!(reply, Some(Message::RunAll)));
    assert!(s.last_result.is_none());
    assert_eq!(s.result_label(), "-");
}

#[test]
fn other_messages_change_nothing() {
    let mut s = State::default();
    s.handle_message(Message::Result(TestResult::Pass(Reason::Unknown)));
    assert!(s.handle_message(Message::RunAll).is_none());
    assert!(s.handle_message(Message::Setup(Config::default())).is_none());
    assert_eq!(s.result_label(), "PASS");
}

#[test]
fn run_all_clears_result() {
    let mut s = State::default();
    s.handle_message(Message::Result(TestResult::Pass(Reason::Unknown)));
    assert!(matches!(s.run_all(), Message::RunAll));
    assert_eq!(s.result_label(), "-");
}

#[test]
fn frames_follow_latest_event() {
    // Result, then a frame with a message and a click, then a frame with a
    // message that decides nothing: the click is the latest deciding event.
    let mut s = State::default();
    s.handle_message(Message::Result(TestResult::Pass(Reason::Unknown)));
    assert_eq!(s.result_label(), "PASS");
    s.handle_message(Message::Result(TestResult::Fail(Reason::Unknown)));
    s.run_all();
    assert_eq!(s.result_label(), "-");
    s.handle_message(Message::RunAll);
    assert_eq!(s.result_label(), "-");
    s.handle_message(Message::Result(TestResult::Fail(Reason::Unknown)));
    s.handle_message(Message::Setup(Config::default()));
    assert_eq!(s.result_label(), "FAIL");
}

#[test]
fn frame_takes_message_then_click() {
    let mut s = State::default();
    let msg = Some(Message::Result(TestResult::Pass(Reason::Unknown)));
    assert_eq!(s.label_after_message(&msg), "PASS");
    assert!(s.frame(msg, false).is_empty());
    assert_eq!(s.result_label(), "PASS");

    let msg = Some(Message::WatchedChanged);
    assert_eq!(s.label_after_message(&msg), "-");
    let sent = s.frame(msg, true);
    assert_eq!(sent.len(), 2);
    assert!(sent.iter().all(|m| matches!(m, Message::RunAll)));
    assert_eq!(s.result_label(), "-");

    let msg = Some(Message::Result(TestResult::Fail(Reason::Unknown)));
    assert_eq!(s.label_after_message(&msg), "FAIL");
    let sent = s.frame(msg, true);
    assert_eq!(sent.len(), 1);
    assert_eq!(s.result_label(), "-");

    assert_eq!(s.label_after_message(&None), "-");
    assert!(s.frame(None, false).is_empty());
}
