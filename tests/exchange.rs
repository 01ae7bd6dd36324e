use chat_relay::exchange::{replay, Action, Error, Exchange, Phase};
use chat_relay::frame::{is_done, parse_frame, progress_payload, Frame, FrameFields};
use chat_relay::payload::ProgressPayload;

const HELLO: &str =
    r#"{"message":{"content":{"parts":["hello"]},"author":{"role":"assistant"}},"conversation_id":"c1"}"#;

fn frame(text: &str, role: &str, finish: &str) -> String {
    format!(
        r#"{{"message":{{"content":{{"parts":["{}"]}},"author":{{"role":"{}"}},"metadata":{{"finish_details":{{"type":"{}"}}}}}},"conversation_id":"c9"}}"#,
        text, role, finish
    )
}

fn payload(id: u64, detail: &str, role: &str, finish: &str, conv: &str, parent: &str) -> ProgressPayload {
    ProgressPayload {
        id,
        detail: detail.to_string(),
        role: role.to_string(),
        finish_reason: finish.to_string(),
        conversation_id: Some(conv.to_string()),
        parent_message_id: parent.to_string(),
    }
}

fn streaming(id: u64, message_id: &str) -> Exchange {
    let mut ex = Exchange::new(id, message_id.to_string());
    assert!(matches!(ex.on_status(200), Action::NextFrame));
    assert_eq!(ex.phase, Phase::Streaming);
    ex
}

#[test]
fn hello_frame_gives_expected_payload() {
    let mut ex = streaming(7, "m1");
    match ex.on_frame(HELLO) {
        Action::Publish(p) => assert_eq!(p, payload(7, "hello", "assistant", "", "c1", "m1")),
        other => panic!("unexpected action {:?}", other),
    }
    assert_eq!(ex.phase, Phase::Streaming);
}

#[test]
fn done_frame_completes_with_request_id() {
    let mut ex = streaming(42, "m");
    match ex.on_frame("[DONE]") {
        Action::Finish(Ok(v)) => assert_eq!(v, 42),
        other => panic!("unexpected action {:?}", other),
    }
    assert_eq!(ex.phase, Phase::Completed);
}

#[test]
fn nothing_published_after_done() {
    let frames = vec![frame("a", "assistant", ""), "[DONE]".to_string(), frame("b", "assistant", "")];
    let (events, result) = replay(3, "m".to_string(), 200, String::new(), &frames);
    assert_eq!(events, vec![payload(3, "a", "assistant", "", "c9", "m")]);
    assert!(matches!(result, Ok(3)));
}

#[test]
fn malformed_frames_are_skipped_in_order() {
    let frames = vec![
        "not json".to_string(),
        frame("He", "assistant", ""),
        "2023-03-01 12:00:00.000000".to_string(),
        frame("Hello", "assistant", ""),
        "{broken".to_string(),
        frame("Hello!", "assistant", "stop"),
        "[DONE]".to_string(),
    ];
    let (events, result) = replay(5, "mid".to_string(), 200, String::new(), &frames);
    assert_eq!(
        events,
        vec![
            payload(5, "He", "assistant", "", "c9", "mid"),
            payload(5, "Hello", "assistant", "", "c9", "mid"),
            payload(5, "Hello!", "assistant", "stop", "c9", "mid"),
        ]
    );
    assert!(matches!(result, Ok(5)));
}

#[test]
fn non_200_status_is_remote_error_with_body() {
    let frames = vec![frame("x", "assistant", "")];
    let (events, result) = replay(9, "m".to_string(), 401, "{\"detail\":\"expired\"}".to_string(), &frames);
    assert!(events.is_empty());
    match result {
        Err(Error::Custom { code, msg }) => {
            assert_eq!(code, 401);
            assert_eq!(msg, "{\"detail\":\"expired\"}");
        }
        other => panic!("unexpected result {:?}", other),
    }
}

#[test]
fn status_other_than_200_asks_for_error_body() {
    let mut ex = Exchange::new(1, "m".to_string());
    assert!(matches!(ex.on_status(500), Action::ReadErrorBody));
    assert_eq!(ex.phase, Phase::ReadingError { code: 500 });
    match ex.on_error_body("boom".to_string()) {
        Action::Finish(Err(Error::Custom { code, msg })) => {
            assert_eq!(code, 500);
            assert_eq!(msg, "boom");
        }
        other => panic!("unexpected action {:?}", other),
    }
    assert_eq!(ex.phase, Phase::Failed);
}

#[test]
fn transport_error_fails_exchange() {
    let mut ex = Exchange::new(1, "m".to_string());
    match ex.on_transport_error("dns".to_string()) {
        Action::Finish(Err(Error::Request(c))) => assert_eq!(c, "dns"),
        other => panic!("unexpected action {:?}", other),
    }
    assert_eq!(ex.phase, Phase::Failed);
}

#[test]
fn stream_error_fails_exchange() {
    let mut ex = streaming(1, "m");
    match ex.on_stream_error("reset".to_string()) {
        Action::Finish(Err(Error::Stream(c))) => assert_eq!(c, "reset"),
        other => panic!("unexpected action {:?}", other),
    }
    assert_eq!(ex.phase, Phase::Failed);
}

#[test]
fn stream_end_without_done_completes() {
    let mut ex = streaming(11, "m");
    assert!(matches!(ex.on_stream_end(), Action::Finish(Ok(11))));
    assert_eq!(ex.phase, Phase::Completed);
    let (events, result) = replay(11, "m".to_string(), 200, String::new(), &vec![frame("x", "assistant", "")]);
    assert_eq!(events.len(), 1);
    assert!(matches!(result, Ok(11)));
}

#[test]
fn replay_is_repeatable() {
    let frames = vec![frame("a", "assistant", ""), "junk".to_string(), frame("ab", "assistant", "stop"), "[DONE]".to_string()];
    let first = replay(8, "m8".to_string(), 200, String::new(), &frames);
    let second = replay(8, "m8".to_string(), 200, String::new(), &frames);
    assert_eq!(first.0, second.0);
    assert_eq!(first.0.len(), 2);
    assert!(matches!(first.1, Ok(8)));
    assert!(matches!(second.1, Ok(8)));
}

#[test]
fn distinct_requests_keep_their_own_ids() {
    let frames = vec![frame("a", "assistant", ""), frame("b", "assistant", ""), "[DONE]".to_string()];
    let (one, _) = replay(1, "m1".to_string(), 200, String::new(), &frames);
    let (two, _) = replay(2, "m2".to_string(), 200, String::new(), &frames);
    assert!(one.iter().all(|p| p.id == 1 && p.parent_message_id == "m1"));
    assert!(two.iter().all(|p| p.id == 2 && p.parent_message_id == "m2"));
    assert_eq!(one.len(), 2);
    assert_eq!(two.len(), 2);
}

#[test]
fn done_sentinel_is_exact() {
    assert!(is_done("[DONE]"));
    assert!(!is_done("[DONE] "));
    assert!(!is_done("[done]"));
    assert!(!is_done(""));
    assert!(matches!(parse_frame("[DONE]"), Frame::Done));
}

#[test]
fn non_json_frame_is_skipped() {
    assert!(matches!(parse_frame("keep-alive"), Frame::Skip));
    assert!(matches!(parse_frame(""), Frame::Skip));
}

#[test]
fn missing_fields_read_as_empty() {
    let mut ex = streaming(4, "m4");
    match ex.on_frame("{}") {
        Action::Publish(p) => assert_eq!(p, payload(4, "", "", "", "", "m4")),
        other => panic!("unexpected action {:?}", other),
    }
    match ex.on_frame(r#"{"message":{"content":{"parts":[3]},"author":{}}}"#) {
        Action::Publish(p) => assert_eq!(p, payload(4, "", "", "", "", "m4")),
        other => panic!("unexpected action {:?}", other),
    }
}

#[test]
fn frame_fields_are_read_from_their_paths() {
    match parse_frame(&frame("part", "assistant", "max_tokens")) {
        Frame::Fragment(f) => {
            assert_eq!(f.content.as_deref(), Some("part"));
            assert_eq!(f.role.as_deref(), Some("assistant"));
            assert_eq!(f.finish_reason.as_deref(), Some("max_tokens"));
            assert_eq!(f.conversation_id.as_deref(), Some("c9"));
        }
        other => panic!("unexpected frame {:?}", other),
    }
}

#[test]
fn payload_from_fields_fills_defaults() {
    let fields = FrameFields { content: Some("x".to_string()), role: None, finish_reason: None, conversation_id: None };
    assert_eq!(progress_payload(2, &"p".to_string(), fields), payload(2, "x", "", "", "", "p"));
}
