use agent_session::channel::{
    kill_outcome, shutdown_outcome, KillFailure, PersistentChannel, SessionError,
};
use agent_session::envelope::{tool_result_envelope, user_message_envelope};

#[test]
fn send_before_attach_has_no_channel() {
    let ch: PersistentChannel<Vec<u8>, u32> = PersistentChannel::new();
    assert!(!ch.has_active_channel());
    assert!(matches!(ch.message_line("hi"), Err(SessionError::NoActiveChannel)));
    let v = serde_json::Value::Bool(true);
    assert!(matches!(ch.response_line("toolu_1", &v), Err(SessionError::NoActiveChannel)));
}

#[test]
fn process_alone_is_no_channel() {
    let mut ch: PersistentChannel<Vec<u8>, u32> = PersistentChannel::new();
    ch.attach_process(3);
    assert!(!ch.has_active_channel());
    assert!(matches!(ch.message_line("hi"), Err(SessionError::NoActiveChannel)));
}

#[test]
fn message_line_is_one_user_envelope() {
    let mut ch: PersistentChannel<Vec<u8>, u32> = PersistentChannel::new();
    ch.attach_stream(Vec::new());
    assert!(ch.has_active_channel());
    let line = ch.message_line("hi").ok().unwrap();
    assert_eq!(line, "{\"type\":\"user\",\"message\":{\"role\":\"user\",\"content\":\"hi\"}}\n");
    let stream = ch.stream_mut().unwrap();
    stream.extend_from_slice(line.as_bytes());
    assert_eq!(stream.iter().filter(|b| **b == b'\n').count(), 1);
}

#[test]
fn message_text_is_escaped() {
    let mut ch: PersistentChannel<Vec<u8>, u32> = PersistentChannel::new();
    ch.attach_stream(Vec::new());
    let line = ch.message_line("say \"hi\"\nnow").ok().unwrap();
    assert_eq!(
        line,
        "{\"type\":\"user\",\"message\":{\"role\":\"user\",\"content\":\"say \\\"hi\\\"\\nnow\"}}\n"
    );
    assert_eq!(line.matches('\n').count(), 1);
}

#[test]
fn response_line_is_tool_result_envelope() {
    let mut ch: PersistentChannel<Vec<u8>, u32> = PersistentChannel::new();
    ch.attach_stream(Vec::new());
    let v: serde_json::Value = serde_json::from_str("{\"answer\":\"yes\"}").unwrap();
    let line = ch.response_line("toolu_1", &v).ok().unwrap();
    assert_eq!(
        line,
        "{\"type\":\"user\",\"message\":{\"role\":\"user\",\"content\":[{\"type\":\"tool_result\",\"tool_use_id\":\"toolu_1\",\"content\":{\"answer\":\"yes\"}}]}}\n"
    );
}

#[test]
fn envelopes_from_encoded_parts() {
    assert_eq!(
        user_message_envelope("\"x\""),
        "{\"type\":\"user\",\"message\":{\"role\":\"user\",\"content\":\"x\"}}\n"
    );
    assert_eq!(
        tool_result_envelope("\"id\"", "[1,2]"),
        "{\"type\":\"user\",\"message\":{\"role\":\"user\",\"content\":[{\"type\":\"tool_result\",\"tool_use_id\":\"id\",\"content\":[1,2]}]}}\n"
    );
}

#[test]
fn shutdown_twice_succeeds_and_closes() {
    let mut ch: PersistentChannel<Vec<u8>, u32> = PersistentChannel::new();
    ch.attach_stream(Vec::new());
    ch.attach_process(42);
    let (stream, process) = ch.detach();
    assert!(stream.is_some());
    assert_eq!(process, Some(42));
    assert!(shutdown_outcome(Some(Ok(()))).is_ok());
    assert!(!ch.has_active_channel());
    let (stream, process) = ch.detach();
    assert!(stream.is_none());
    assert!(process.is_none());
    assert!(shutdown_outcome(None).is_ok());
    assert!(!ch.has_active_channel());
}

#[test]
fn shutdown_of_empty_channel_twice() {
    let mut ch: PersistentChannel<Vec<u8>, u32> = PersistentChannel::new();
    for _ in 0..2 {
        let (stream, process) = ch.detach();
        assert!(stream.is_none() && process.is_none());
        assert!(shutdown_outcome(None).is_ok());
        assert!(!ch.has_active_channel());
    }
}

#[test]
fn kill_of_exited_process_is_success() {
    assert!(kill_outcome(Ok(())).is_ok());
    assert!(kill_outcome(Err(KillFailure::InvalidInput)).is_ok());
    assert!(shutdown_outcome(Some(Err(KillFailure::InvalidInput))).is_ok());
}

#[test]
fn other_kill_failure_is_reported() {
    match kill_outcome(Err(KillFailure::Other("permission denied".to_string()))) {
        Err(SessionError::Io(m)) => assert_eq!(m, "permission denied"),
        _ => panic!("expected an I/O error"),
    }
    match shutdown_outcome(Some(Err(KillFailure::Other("boom".to_string())))) {
        Err(e) => assert_eq!(e.message(), "boom"),
        Ok(()) => panic!("expected an error"),
    }
}

#[test]
fn no_channel_message_text() {
    assert_eq!(
        SessionError::NoActiveChannel.message(),
        "No stdin available - persistent session not established"
    );
}

#[test]
fn control_characters_are_escaped() {
    let mut ch: PersistentChannel<Vec<u8>, u32> = PersistentChannel::new();
    ch.attach_stream(Vec::new());
    let line = ch.message_line("a\u{1}\tb\\").ok().unwrap();
    assert_eq!(
        line,
        "{\"type\":\"user\",\"message\":{\"role\":\"user\",\"content\":\"a\\u0001\\tb\\\\\"}}\n"
    );
}

#[test]
fn response_with_newline_in_value_stays_one_line() {
    let mut ch: PersistentChannel<Vec<u8>, u32> = PersistentChannel::new();
    ch.attach_stream(Vec::new());
    let v = serde_json::Value::String("two\nlines".to_string());
    let line = ch.response_line("t\"1", &v).ok().unwrap();
    assert_eq!(
        line,
        "{\"type\":\"user\",\"message\":{\"role\":\"user\",\"content\":[{\"type\":\"tool_result\",\"tool_use_id\":\"t\\\"1\",\"content\":\"two\\nlines\"}]}}\n"
    );
    assert_eq!(line.matches('\n').count(), 1);
    assert!(line.ends_with('\n'));
}
