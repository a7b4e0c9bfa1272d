use llm_shadow_relay::error::{decimal_text, error_object, error_payload, json_quoted, AuditDecision, Error};

#[test]
fn errors_map_to_statuses_and_bodies() {
    let cases = vec![
        (Error::Config("c".to_string()), 500),
        (Error::HttpRequest("h".to_string()), 502),
        (Error::InvalidRequest("i".to_string()), 400),
        (Error::UpstreamApi(429, "u".to_string()), 429),
        (Error::UpstreamApi(99, "u".to_string()), 502),
        (Error::UpstreamApi(1000, "u".to_string()), 502),
        (Error::AuditFailed("a".to_string()), 500),
        (Error::AuditBlocked("b".to_string()), 403),
        (Error::InvalidResponse("r".to_string()), 502),
        (Error::Json("j".to_string()), 500),
        (Error::Io("o".to_string()), 500),
    ];
    for (e, status) in cases {
        assert_eq!(e.status_and_message().0, status);
        let body: serde_json::Value = serde_json::from_str(&e.response_body()).unwrap();
        assert_eq!(body["error"]["type"], "llm_shadow_error");
        assert_eq!(body["error"]["message"], e.status_and_message().1);
    }
}

#[test]
fn error_descriptions() {
    assert_eq!(Error::UpstreamApi(503, "busy".to_string()).to_text(), "Upstream API error: 503 - busy");
    assert_eq!(Error::AuditBlocked("no".to_string()).to_text(), "Audit blocked: no");
    assert_eq!(decimal_text(0), "0");
    assert_eq!(decimal_text(u64::MAX), u64::MAX.to_string());
}

#[test]
fn pass_and_block_decisions() {
    let p = AuditDecision::pass();
    assert!(p.allowed);
    assert_eq!(p.risk_level, "none");
    let b = AuditDecision::block("why", "critical", 0.9f32.to_bits());
    assert!(!b.allowed);
    assert_eq!(b.blocked_reason.as_deref(), Some("why"));
    assert_eq!(f32::from_bits(b.risk_score_bits), 0.9);
}

#[test]
fn error_object_wraps_quoted_literals() {
    assert_eq!(error_object("\"m\"", "\"t\""), "{\"error\":{\"message\":\"m\",\"type\":\"t\"}}");
    assert_eq!(json_quoted("say \"hi\"\n"), "\"say \\\"hi\\\"\\n\"");
    assert_eq!(
        error_payload("bad\ttab", "kind"),
        "{\"error\":{\"message\":\"bad\\ttab\",\"type\":\"kind\"}}"
    );
}
