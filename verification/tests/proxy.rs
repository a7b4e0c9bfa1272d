use axum::http::StatusCode;
use llm_shadow_relay::config::{AuditMode, UpstreamConfig, UpstreamProtocol};
use llm_shadow_relay::error::{AuditDecision, Error};
use llm_shadow_relay::proxy::{
    audit_gate, audit_headers, check_anthropic_stream, decide_attempt, effective_model,
    extract_bearer_token, has_configured_api_key, header_value_or, parse_retry_after, plan_upstream_request,
    resolve_request_id, resolve_upstream_auth, resolve_upstream_timeout, retry_delay,
    should_forward_header, should_retry_status, stream_error_payload, AttemptDecision,
    AttemptOutcome,
};
use std::time::Duration;

fn upstream(protocol: UpstreamProtocol, api_key: Option<&str>) -> UpstreamConfig {
    UpstreamConfig {
        base_url: "https://upstream.example/v1".to_string(),
        api_key: api_key.map(ToOwned::to_owned),
        default_model: "test-model".to_string(),
        protocol,
        extra_headers: Vec::new(),
        pass_through_headers: true,
        timeout: None,
        max_retries: 2,
        retry_initial_ms: 250,
        retry_max_ms: 5000,
    }
}

fn headers(pairs: &[(&str, &str)]) -> Vec<(String, Option<String>)> {
    pairs
        .iter()
        .map(|(n, v)| (n.to_string(), Some(v.to_string())))
        .collect()
}

fn millis(ms: u64) -> Duration {
    Duration::from_millis(ms)
}

fn as_millis(d: Duration) -> Option<u128> {
    Some(d.as_millis())
}

#[test]
fn test_openai_auth_prefers_configured_key() {
    let headers = headers(&[("authorization", "Bearer client-key")]);
    let upstream = upstream(UpstreamProtocol::OpenAi, Some("configured-key"));

    let auth = resolve_upstream_auth(&upstream, Some(&headers));

    assert_eq!(auth.as_deref(), Some("Bearer configured-key"));
}

#[test]
fn test_openai_auth_passthrough_when_config_key_empty() {
    let headers = headers(&[("authorization", "Bearer client-key")]);
    let upstream = upstream(UpstreamProtocol::OpenAi, Some(""));

    let auth = resolve_upstream_auth(&upstream, Some(&headers));

    assert_eq!(auth.as_deref(), Some("Bearer client-key"));
}

#[test]
fn test_openai_auth_omitted_when_no_key_available() {
    let upstream = upstream(UpstreamProtocol::OpenAi, Some(""));

    let auth = resolve_upstream_auth(&upstream, None);

    assert!(auth.is_none());
}

#[test]
fn test_anthropic_auth_passthrough_from_x_api_key() {
    let headers = headers(&[("x-api-key", "client-ant-key")]);
    let upstream = upstream(UpstreamProtocol::Anthropic, None);

    let auth = resolve_upstream_auth(&upstream, Some(&headers));

    assert_eq!(auth.as_deref(), Some("client-ant-key"));
}

#[test]
fn test_anthropic_auth_passthrough_from_bearer_token() {
    let headers = headers(&[("authorization", "Bearer client-ant-key")]);
    let upstream = upstream(UpstreamProtocol::Anthropic, Some(""));

    let auth = resolve_upstream_auth(&upstream, Some(&headers));

    assert_eq!(auth.as_deref(), Some("client-ant-key"));
}

#[test]
fn test_upstream_timeout_defaults_to_server_timeout() {
    let upstream = upstream(UpstreamProtocol::OpenAi, None);

    assert_eq!(resolve_upstream_timeout(&upstream, 42), 42);
}

#[test]
fn test_upstream_timeout_override_wins() {
    let mut upstream = upstream(UpstreamProtocol::OpenAi, None);
    upstream.timeout = Some(7);

    assert_eq!(resolve_upstream_timeout(&upstream, 42), 7);
}

#[test]
fn test_should_retry_status_for_transient_failures() {
    assert!(should_retry_status(StatusCode::TOO_MANY_REQUESTS.as_u16()));
    assert!(should_retry_status(StatusCode::INTERNAL_SERVER_ERROR.as_u16()));
    assert!(should_retry_status(StatusCode::BAD_GATEWAY.as_u16()));
    assert!(should_retry_status(StatusCode::SERVICE_UNAVAILABLE.as_u16()));
    assert!(should_retry_status(StatusCode::GATEWAY_TIMEOUT.as_u16()));
    assert!(!should_retry_status(StatusCode::BAD_REQUEST.as_u16()));
    assert!(!should_retry_status(StatusCode::UNAUTHORIZED.as_u16()));
    assert!(!should_retry_status(StatusCode::FORBIDDEN.as_u16()));
}

#[test]
fn test_retry_delay_uses_exponential_backoff_with_cap() {
    let mut upstream = upstream(UpstreamProtocol::OpenAi, None);
    upstream.retry_initial_ms = 100;
    upstream.retry_max_ms = 250;

    assert_eq!(millis(retry_delay(&upstream, 0, None)), Duration::from_millis(100));
    assert_eq!(millis(retry_delay(&upstream, 1, None)), Duration::from_millis(200));
    assert_eq!(millis(retry_delay(&upstream, 2, None)), Duration::from_millis(250));
}

#[test]
fn test_retry_delay_prefers_retry_after_with_cap() {
    let mut upstream = upstream(UpstreamProtocol::OpenAi, None);
    upstream.retry_initial_ms = 100;
    upstream.retry_max_ms = 500;

    assert_eq!(
        millis(retry_delay(&upstream, 0, as_millis(Duration::from_secs(2)))),
        Duration::from_millis(500)
    );
    assert_eq!(
        millis(retry_delay(&upstream, 0, as_millis(Duration::from_millis(250)))),
        Duration::from_millis(250)
    );
}

#[test]
fn test_parse_retry_after_delta_seconds() {
    assert_eq!(parse_retry_after(" 3 ").map(Duration::from_secs), Some(Duration::from_secs(3)));
    assert_eq!(parse_retry_after("not-a-number").map(Duration::from_secs), None);
}

#[test]
fn test_should_forward_safe_client_headers() {
    assert!(should_forward_header("x-request-id"));
    assert!(should_forward_header("x-user-id"));
    assert!(should_forward_header("anthropic-beta"));
    assert!(should_forward_header("openai-organization"));
    assert!(should_forward_header("user-agent"));
}

#[test]
fn test_should_not_forward_hop_by_hop_or_managed_headers() {
    assert!(!should_forward_header("connection"));
    assert!(!should_forward_header("host"));
    assert!(!should_forward_header("content-length"));
    assert!(!should_forward_header("authorization"));
    assert!(!should_forward_header("x-api-key"));
    assert!(!should_forward_header("accept"));
    assert!(!should_forward_header("content-type"));
}

#[test]
fn test_stream_error_payload_shape() {
    let payload = stream_error_payload("stream failed", "llm_shadow_stream_error");
    let parsed: serde_json::Value = serde_json::from_str(&payload).unwrap();

    assert_eq!(parsed["error"]["message"], "stream failed");
    assert_eq!(parsed["error"]["type"], "llm_shadow_stream_error");
}

#[test]
fn test_resolve_request_id_uses_client_header() {
    assert_eq!(
        resolve_request_id(Some(" client-request-1 ".to_string())),
        "client-request-1"
    );
}

#[test]
fn test_resolve_request_id_generates_when_missing() {
    let request_id = resolve_request_id(None);

    assert!(uuid::Uuid::parse_str(&request_id).is_ok());
}

#[test]
fn request_id_blank_header_gets_a_fresh_id() {
    let a = resolve_request_id(Some("   ".to_string()));
    let b = resolve_request_id(Some("   ".to_string()));
    assert!(uuid::Uuid::parse_str(&a).is_ok());
    assert_ne!(a, b);
}

#[test]
fn stream_error_payload_escapes_text() {
    let payload = stream_error_payload("say \"hi\"\n", "t");
    assert_eq!(payload, r#"{"error":{"message":"say \"hi\"\n","type":"t"}}"#);
}

#[test]
fn bearer_token_forms() {
    assert_eq!(extract_bearer_token("  Bearer  abc  ").as_deref(), Some("abc"));
    assert_eq!(extract_bearer_token("bearer xyz").as_deref(), Some("xyz"));
    assert_eq!(extract_bearer_token("Bearer    "), None);
    assert_eq!(extract_bearer_token("Basic abc"), None);
    assert_eq!(extract_bearer_token("BEARER abc"), None);
}

#[test]
fn anthropic_auth_prefers_x_api_key_and_trims_configured_key() {
    let h = headers(&[("authorization", "Bearer from-bearer"), ("x-api-key", " ant ")]);
    let mut up = upstream(UpstreamProtocol::Anthropic, None);
    assert_eq!(resolve_upstream_auth(&up, Some(&h)).as_deref(), Some("ant"));
    up.api_key = Some("  configured  ".to_string());
    assert_eq!(resolve_upstream_auth(&up, Some(&h)).as_deref(), Some("configured"));
    let blank = headers(&[("x-api-key", "  "), ("authorization", "Basic x")]);
    up.api_key = None;
    assert_eq!(resolve_upstream_auth(&up, Some(&blank)), None);
}

#[test]
fn openai_auth_ignores_undecodable_header() {
    let h = vec![("authorization".to_string(), None)];
    let up = upstream(UpstreamProtocol::OpenAi, None);
    assert_eq!(resolve_upstream_auth(&up, Some(&h)), None);
}

#[test]
fn retry_after_parsing_follows_u64_syntax() {
    assert_eq!(parse_retry_after("+5"), Some(5));
    assert_eq!(parse_retry_after("007"), Some(7));
    assert_eq!(parse_retry_after("18446744073709551615"), Some(u64::MAX));
    assert_eq!(parse_retry_after("18446744073709551616"), None);
    assert_eq!(parse_retry_after("-1"), None);
    assert_eq!(parse_retry_after("+"), None);
    assert_eq!(parse_retry_after(""), None);
    assert_eq!(parse_retry_after("1 2"), None);
}

#[test]
fn retry_delay_saturates_for_large_attempts() {
    let mut up = upstream(UpstreamProtocol::OpenAi, None);
    up.retry_initial_ms = 3;
    up.retry_max_ms = u64::MAX;
    assert_eq!(retry_delay(&up, 64, None), u64::MAX);
    assert_eq!(retry_delay(&up, 63, None), u64::MAX);
    assert_eq!(retry_delay(&up, 10, None), 3 * 1024);
}

#[test]
fn attempts_retry_only_transient_failures_within_budget() {
    let mut up = upstream(UpstreamProtocol::OpenAi, None);
    up.retry_initial_ms = 100;
    up.retry_max_ms = 1000;
    assert!(matches!(decide_attempt(&up, 0, AttemptOutcome::Success), AttemptDecision::Deliver));
    let busy = |ra: Option<&str>| AttemptOutcome::Status {
        status: 429,
        retry_after: ra.map(|s| s.to_string()),
        body: "slow down".to_string(),
    };
    assert!(matches!(decide_attempt(&up, 0, busy(None)), AttemptDecision::Retry { delay_ms: 100 }));
    assert!(matches!(decide_attempt(&up, 1, busy(Some("0"))), AttemptDecision::Retry { delay_ms: 0 }));
    assert!(matches!(decide_attempt(&up, 1, busy(Some("9"))), AttemptDecision::Retry { delay_ms: 1000 }));
    match decide_attempt(&up, 2, busy(None)) {
        AttemptDecision::Fail(Error::UpstreamApi(429, m)) => assert_eq!(m, "slow down"),
        _ => panic!("expected failure"),
    }
    let bad = AttemptOutcome::Status { status: 400, retry_after: None, body: "no".to_string() };
    assert!(matches!(decide_attempt(&up, 0, bad), AttemptDecision::Fail(Error::UpstreamApi(400, _))));
    let t = AttemptOutcome::Transport { retryable: true, message: "timeout".to_string() };
    assert!(matches!(decide_attempt(&up, 1, t), AttemptDecision::Retry { delay_ms: 200 }));
    let t = AttemptOutcome::Transport { retryable: false, message: "tls".to_string() };
    assert!(matches!(decide_attempt(&up, 0, t), AttemptDecision::Fail(Error::HttpRequest(_))));
}

#[test]
fn upstream_plan_headers_and_endpoint() {
    let mut up = upstream(UpstreamProtocol::Anthropic, Some("k"));
    up.extra_headers = vec![("X-Tier".to_string(), "gold".to_string())];
    up.timeout = Some(9);
    let h = headers(&[("authorization", "Bearer client")]);
    let plan = plan_upstream_request(&up, Some(&h), 300, true);
    assert_eq!(plan.url, "https://upstream.example/v1/messages");
    assert_eq!(plan.timeout_secs, 9);
    assert!(plan.forward_client_headers);
    let names: Vec<(&str, &str)> =
        plan.headers.iter().map(|(a, b)| (a.as_str(), b.as_str())).collect();
    assert_eq!(
        names,
        vec![
            ("Content-Type", "application/json"),
            ("Accept", "text/event-stream"),
            ("anthropic-version", "2023-06-01"),
            ("x-api-key", "k"),
            ("X-Tier", "gold"),
        ]
    );
    let up = upstream(UpstreamProtocol::OpenAi, None);
    let plan = plan_upstream_request(&up, None, 300, false);
    assert_eq!(plan.url, "https://upstream.example/v1/chat/completions");
    assert_eq!(plan.timeout_secs, 300);
    assert!(!plan.forward_client_headers);
    assert_eq!(plan.headers.len(), 1);
}

#[test]
fn audit_gate_and_headers() {
    let pass = AuditDecision::pass();
    assert!(audit_gate(&pass, "x").is_ok());
    let blocked = AuditDecision::block("bad", "high", 0);
    match audit_gate(&blocked, "default") {
        Err(Error::AuditBlocked(m)) => assert_eq!(m, "bad"),
        _ => panic!("expected block"),
    }
    let mut no_reason = AuditDecision::block("bad", "high", 0);
    no_reason.blocked_reason = None;
    match audit_gate(&no_reason, "Audit blocked") {
        Err(Error::AuditBlocked(m)) => assert_eq!(m, "Audit blocked"),
        _ => panic!("expected block"),
    }
    assert!(audit_headers(AuditMode::Sync, false, Some(&pass), "0").is_empty());
    assert_eq!(
        audit_headers(AuditMode::Async, true, None, ""),
        vec![("X-Audit-Mode".to_string(), "async".to_string())]
    );
    let mut weird = AuditDecision::pass();
    weird.risk_level = "lo\nw".to_string();
    assert_eq!(
        audit_headers(AuditMode::Sync, true, Some(&weird), "0.25"),
        vec![
            ("X-Audit-Risk-Level".to_string(), "none".to_string()),
            ("X-Audit-Risk-Score".to_string(), "0.25".to_string()),
        ]
    );
}

#[test]
fn header_values_follow_http_rules() {
    assert_eq!(header_value_or("a\tb", "x"), "a\tb");
    assert_eq!(header_value_or("é", "x"), "é");
    assert_eq!(header_value_or("a\u{7f}", "x"), "x");
    assert_eq!(header_value_or("a\r", "x"), "x");
}

#[test]
fn anthropic_streaming_is_refused_and_models_default() {
    assert!(check_anthropic_stream(Some(false)).is_ok());
    assert!(check_anthropic_stream(None).is_ok());
    assert!(matches!(check_anthropic_stream(Some(true)), Err(Error::InvalidRequest(_))));
    assert_eq!(effective_model(&String::new(), &"gpt-4".to_string()), "gpt-4");
    assert_eq!(effective_model(&"m".to_string(), &"gpt-4".to_string()), "m");
}

#[test]
fn configured_api_key_must_not_be_blank() {
    assert!(has_configured_api_key(&upstream(UpstreamProtocol::OpenAi, Some("sk-1"))));
    assert!(!has_configured_api_key(&upstream(UpstreamProtocol::OpenAi, Some("   "))));
    assert!(!has_configured_api_key(&upstream(UpstreamProtocol::Anthropic, None)));
}

#[test]
fn backoff_never_shrinks_and_stays_capped() {
    let u = upstream(UpstreamProtocol::OpenAi, None);
    let delays: Vec<u64> = (0..70u32).map(|a| retry_delay(&u, a, None)).collect();
    assert_eq!(&delays[..6], &[250, 500, 1000, 2000, 4000, 5000]);
    for pair in delays.windows(2) {
        assert!(pair[0] <= pair[1]);
    }
    assert!(delays.iter().all(|d| *d <= 5000));
}

#[test]
fn generated_request_id_has_the_version_4_shape() {
    let id = resolve_request_id(None);
    let chars: Vec<char> = id.chars().collect();
    assert_eq!(chars.len(), 36);
    for (i, c) in chars.iter().enumerate() {
        if [8, 13, 18, 23].contains(&i) {
            assert_eq!(*c, '-');
        } else {
            assert!(c.is_ascii_digit() || ('a'..='f').contains(c));
        }
    }
    assert_eq!(chars[14], '4');
    assert!(['8', '9', 'a', 'b'].contains(&chars[19]));
    assert_eq!(uuid::Uuid::parse_str(&id).unwrap().get_version_num(), 4);
}

#[test]
fn retry_after_is_honoured_only_for_429() {
    let mut up = upstream(UpstreamProtocol::OpenAi, None);
    up.retry_initial_ms = 100;
    up.retry_max_ms = 10_000;
    let answer = |status: u16| AttemptOutcome::Status {
        status,
        retry_after: Some("3".to_string()),
        body: String::new(),
    };
    assert!(matches!(decide_attempt(&up, 0, answer(429)), AttemptDecision::Retry { delay_ms: 3000 }));
    assert!(matches!(decide_attempt(&up, 0, answer(503)), AttemptDecision::Retry { delay_ms: 100 }));
}
