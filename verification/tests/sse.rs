use llm_shadow_relay::sse::{take_until_done, SseEvent, SseParser};

#[test]
fn test_sse_parser_basic() {
    let mut parser = SseParser::new();

    let events = parser.parse_bytes(b"data: hello\ndata: world\n\n");
    assert_eq!(events.len(), 1);
    if let SseEvent::Message { event, data } = &events[0] {
        assert!(event.is_none());
        assert_eq!(data, "hello\nworld\n");
    }
}

#[test]
fn test_sse_parser_event_type() {
    let mut parser = SseParser::new();

    let events = parser.parse_bytes(b"event: message\ndata: hello\n\n");
    assert_eq!(events.len(), 1);
    if let SseEvent::Message { event, data } = &events[0] {
        assert_eq!(event.as_ref().map(|s| s.as_str()), Some("message"));
        assert_eq!(data, "hello\n");
    }
}

#[test]
fn test_sse_parser_done() {
    let mut parser = SseParser::new();

    let events = parser.parse_bytes(b"data: [DONE]\n\n");
    assert_eq!(events.len(), 1);
    assert!(matches!(events[0], SseEvent::Done));
}

#[test]
fn test_sse_parser_preserves_partial_line_across_chunks() {
    let mut parser = SseParser::new();

    assert!(parser.parse_bytes(b"data: hel").is_empty());
    let events = parser.parse_bytes(b"lo\n\n");

    assert_eq!(events.len(), 1);
    assert_eq!(
        events[0],
        SseEvent::Message {
            event: None,
            data: "hello\n".to_string()
        }
    );
}

#[test]
fn test_sse_parser_preserves_partial_event_across_chunks() {
    let mut parser = SseParser::new();

    assert!(parser
        .parse_bytes(b"event: message\ndata: hello\n")
        .is_empty());
    let events = parser.parse_bytes(b"\n");

    assert_eq!(events.len(), 1);
    assert_eq!(
        events[0],
        SseEvent::Message {
            event: Some("message".to_string()),
            data: "hello\n".to_string()
        }
    );
}

#[test]
fn test_sse_parser_crlf_separator() {
    let mut parser = SseParser::new();

    let events = parser.parse_bytes(b"data: hello\r\n\r\n");

    assert_eq!(events.len(), 1);
    assert_eq!(
        events[0],
        SseEvent::Message {
            event: None,
            data: "hello\n".to_string()
        }
    );
}

#[test]
fn test_sse_parser_multiple_events_in_one_chunk() {
    let mut parser = SseParser::new();

    let events = parser.parse_bytes(b"data: one\n\ndata: two\n\n");

    assert_eq!(events.len(), 2);
    assert_eq!(
        events[0],
        SseEvent::Message {
            event: None,
            data: "one\n".to_string()
        }
    );
    assert_eq!(
        events[1],
        SseEvent::Message {
            event: None,
            data: "two\n".to_string()
        }
    );
}

#[test]
fn test_sse_parser_preserves_partial_utf8_across_chunks() {
    let mut parser = SseParser::new();
    let bytes = "data: 你好\n\n".as_bytes();
    let split_at = bytes
        .windows("你".len())
        .position(|window| window == "你".as_bytes())
        .unwrap()
        + 1;

    assert!(parser.parse_bytes(&bytes[..split_at]).is_empty());
    let events = parser.parse_bytes(&bytes[split_at..]);

    assert_eq!(events.len(), 1);
    assert_eq!(
        events[0],
        SseEvent::Message {
            event: None,
            data: "你好\n".to_string()
        }
    );
}

#[test]
fn test_sse_parser_reports_invalid_utf8_only_for_complete_event() {
    let mut parser = SseParser::new();

    assert!(parser.parse_bytes(b"data: \xff").is_empty());
    let events = parser.parse_bytes(b"\n\n");

    assert_eq!(events, vec![SseEvent::Error("Invalid UTF-8".to_string())]);
}

fn feed_all(chunks: &[&[u8]]) -> Vec<SseEvent> {
    let mut parser = SseParser::new();
    let mut out = Vec::new();
    for c in chunks {
        out.extend(parser.parse_bytes(c));
    }
    out
}

#[test]
fn sse_events_do_not_depend_on_chunking() {
    let stream: &[u8] =
        b"event: a\r\ndata: x\r\n\r\n: comment\ndata:  spaced\n\ndata: [DONE]  \n\r\rdata: tail";
    let whole = feed_all(&[stream]);
    for split in 0..=stream.len() {
        let pieces = feed_all(&[&stream[..split], &stream[split..]]);
        assert_eq!(pieces, whole, "split at {}", split);
    }
    let bytewise: Vec<&[u8]> = stream.chunks(1).collect();
    assert_eq!(feed_all(&bytewise), whole);
    assert_eq!(
        whole,
        vec![
            SseEvent::Message { event: Some("a".to_string()), data: "x\n".to_string() },
            SseEvent::Message { event: None, data: "spaced\n".to_string() },
            SseEvent::Done,
        ]
    );
}

#[test]
fn sse_comment_only_event_is_skipped() {
    let mut parser = SseParser::new();
    assert!(parser.parse_bytes(b": keep-alive\n\n").is_empty());
    assert!(parser.parse_bytes(b"retry: 10\n\n").is_empty());
}

#[test]
fn sse_event_without_data_is_reported() {
    let mut parser = SseParser::new();
    let events = parser.parse_bytes(b"event: ping\n\n");
    assert_eq!(
        events,
        vec![SseEvent::Message { event: Some("ping".to_string()), data: String::new() }]
    );
}

#[test]
fn sse_field_without_colon_and_lone_cr_lines() {
    let mut parser = SseParser::new();
    // A line "data" without a colon is a data field with an empty value.
    let events = parser.parse_bytes(b"data\n\n");
    assert_eq!(events, vec![SseEvent::Message { event: None, data: "\n".to_string() }]);
    // `\r\r` ends an event; inside it, a lone `\r` does not end a line.
    let events = parser.parse_bytes(b"data: a\rdata: b\r\r");
    assert_eq!(
        events,
        vec![SseEvent::Message { event: None, data: "a\rdata: b\n".to_string() }]
    );
}

#[test]
fn sse_stream_stops_at_done() {
    let events = vec![
        SseEvent::Message { event: None, data: "1\n".to_string() },
        SseEvent::Done,
        SseEvent::Message { event: None, data: "2\n".to_string() },
    ];
    let (kept, done) = take_until_done(events.clone());
    assert!(done);
    assert_eq!(kept, events[..2].to_vec());
    let (kept, done) = take_until_done(vec![events[0].clone()]);
    assert!(!done);
    assert_eq!(kept.len(), 1);
}
