use llm_shadow_relay::config::AuditMode;
use llm_shadow_relay::error::AuditDecision;
use llm_shadow_relay::error::Error;
use llm_shadow_relay::protocol::{ChatCompletionChunk, Delta, StreamChoice};
use llm_shadow_relay::sse::SseEvent;
use llm_shadow_relay::stream::{stream_failure_payload, StreamAuditor, StreamFrame, StreamStep};

#[test]
fn sync_window_keeps_the_last_4000_characters() {
    let mut s = StreamAuditor::new(AuditMode::Sync, 1);
    assert_eq!(s.on_content(""), None);
    let mut all = String::new();
    for i in 0..900 {
        let piece = format!("{}é", i % 10);
        all.push_str(&piece);
        let w = s.on_content(&piece).unwrap();
        let chars: Vec<char> = all.chars().collect();
        let start = chars.len().saturating_sub(4000);
        let expected: String = chars[start..].iter().collect();
        assert_eq!(w, expected);
    }
    assert_eq!(s.on_done(), None);
}

#[test]
fn async_window_is_audited_when_done() {
    let mut s = StreamAuditor::new(AuditMode::Async, 10);
    assert_eq!(s.on_done(), None);
    assert_eq!(s.on_content(&"a".repeat(10000)), None);
    assert_eq!(s.on_content(&"b".repeat(10000)), None);
    let done = s.on_done().unwrap();
    assert_eq!(done.chars().count(), 16000);
    assert!(done.starts_with(&"a".repeat(6000)));
    assert!(done.ends_with(&"b".repeat(10000)));
}

#[test]
fn blocked_windows_end_the_stream_with_an_error() {
    let s = StreamAuditor::new(AuditMode::Sync, 1);
    assert_eq!(s.on_audit_decision(&AuditDecision::pass()), None);
    let p = s.on_audit_decision(&AuditDecision::block("nope", "high", 0)).unwrap();
    assert_eq!(p, r#"{"error":{"message":"nope","type":"llm_shadow_audit_blocked"}}"#);
    let mut d = AuditDecision::block("x", "high", 0);
    d.blocked_reason = None;
    let p = s.on_audit_decision(&d).unwrap();
    assert!(p.contains("Streaming response blocked by audit"));
    assert_eq!(
        stream_failure_payload("Stream error: boom"),
        r#"{"error":{"message":"Stream error: boom","type":"llm_shadow_stream_error"}}"#
    );
}

#[test]
fn sync_audits_once_every_batch_of_pieces() {
    let mut s = StreamAuditor::new(AuditMode::Sync, 3);
    assert_eq!(s.on_content("a"), None);
    assert_eq!(s.on_content(""), None);
    assert_eq!(s.on_content("b"), None);
    assert_eq!(s.on_content("c"), Some("abc".to_string()));
    assert_eq!(s.on_content("d"), None);
    assert_eq!(s.on_content("e"), None);
    assert_eq!(s.on_content("f"), Some("abcdef".to_string()));
    let mut every = StreamAuditor::new(AuditMode::Sync, 0);
    assert_eq!(every.on_content("x"), Some("x".to_string()));
    assert_eq!(every.on_content("y"), Some("xy".to_string()));
}

fn chunk(text: &str) -> ChatCompletionChunk {
    ChatCompletionChunk {
        id: "c".to_string(),
        object: "chat.completion.chunk".to_string(),
        created: 0,
        model: "m".to_string(),
        choices: vec![StreamChoice {
            index: 0,
            delta: Some(Delta { role: None, content: Some(text.to_string()), tool_calls: None }),
            finish_reason: None,
        }],
    }
}

fn message(data: &str) -> SseEvent {
    SseEvent::Message { event: None, data: data.to_string() }
}

fn frames(step: StreamStep) -> (Vec<(bool, String)>, bool, Option<String>) {
    match step {
        StreamStep::Emit { frames, finished, background } => (
            frames
                .into_iter()
                .map(|f| match f {
                    StreamFrame::Data(t) => (false, t),
                    StreamFrame::Error(t) => (true, t),
                })
                .collect(),
            finished,
            background,
        ),
        StreamStep::Audit { .. } => panic!("expected frames"),
    }
}

#[test]
fn stream_events_pass_on_in_order_and_end_at_done() {
    let mut s = StreamAuditor::new(AuditMode::Async, 1);
    assert_eq!(frames(s.on_event(message("d1"), Some(chunk("hello")))), (vec![(false, "d1".to_string())], false, None));
    assert_eq!(frames(s.on_event(message("junk"), None)), (vec![(false, "junk".to_string())], false, None));
    assert_eq!(
        frames(s.on_event(SseEvent::Done, None)),
        (vec![(false, "[DONE]".to_string())], true, Some("hello".to_string()))
    );
    let (f, finished, _) = frames(s.on_event(SseEvent::Error("Stream error: x".to_string()), None));
    assert!(finished);
    assert_eq!(f, vec![(true, stream_failure_payload("Stream error: x")), (false, "[DONE]".to_string())]);
}

#[test]
fn sync_data_is_held_until_its_window_is_allowed() {
    let mut s = StreamAuditor::new(AuditMode::Sync, 2);
    assert_eq!(frames(s.on_event(message("d1"), Some(chunk("a")))), (vec![], false, None));
    assert_eq!(frames(s.on_event(message("empty"), None)), (vec![], false, None));
    match s.on_event(message("d2"), Some(chunk("b"))) {
        StreamStep::Audit { window } => assert_eq!(window, "ab"),
        _ => panic!("expected an audit"),
    }
    assert_eq!(
        frames(s.on_audit_result(Ok(AuditDecision::pass()))),
        (vec![(false, "d1".to_string()), (false, "empty".to_string()), (false, "d2".to_string())], false, None)
    );
    assert_eq!(frames(s.on_event(message("meta"), None)), (vec![(false, "meta".to_string())], false, None));
    assert_eq!(frames(s.on_event(message("d3"), Some(chunk("c")))), (vec![], false, None));
    match s.on_event(SseEvent::Done, None) {
        StreamStep::Audit { window } => assert_eq!(window, "abc"),
        _ => panic!("expected the tail to be audited"),
    }
    assert_eq!(
        frames(s.on_audit_result(Err(Error::AuditFailed("down".to_string())))),
        (vec![(false, "d3".to_string()), (false, "[DONE]".to_string())], true, None)
    );
}

#[test]
fn a_blocked_window_stops_the_stream_before_its_data() {
    let mut s = StreamAuditor::new(AuditMode::Sync, 1);
    match s.on_event(message("d1"), Some(chunk("a"))) {
        StreamStep::Audit { window } => assert_eq!(window, "a"),
        _ => panic!("expected an audit"),
    }
    let (f, finished, _) = frames(s.on_audit_result(Ok(AuditDecision::block("bad", "high", 0))));
    assert!(finished);
    assert_eq!(f.len(), 2);
    assert!(f[0].0 && f[0].1.contains("bad"));
    assert_eq!(f[1], (false, "[DONE]".to_string()));
    let mut s = StreamAuditor::new(AuditMode::Sync, 1);
    s.on_event(message("d1"), Some(chunk("a")));
    let (f, finished, _) = frames(s.on_event(SseEvent::Error("Stream error: x".to_string()), None));
    assert!(finished);
    assert_eq!(f, vec![(true, stream_failure_payload("Stream error: x")), (false, "[DONE]".to_string())]);
}
