use llm_shadow_relay::audit::{
    extract_json, json_candidate, parse_audit_decision, strictest_decision, AuditEngine, AuditRequestBody,
    AuditStep, ProviderKind,
    AUDIT_SCHEMA, DEFAULT_AUDIT_PROMPT,
};
use llm_shadow_relay::config::{AuditAgentConfig, AuditConfig, AuditMode, PolicyConfig};
use llm_shadow_relay::error::{AuditDecision, AuditFinding, Error};
use llm_shadow_relay::json::{get, JsonNumber, JsonValue};

fn to_json(v: &serde_json::Value) -> JsonValue {
    match v {
        serde_json::Value::Null => JsonValue::Null,
        serde_json::Value::Bool(b) => JsonValue::Bool(*b),
        serde_json::Value::Number(n) => {
            JsonValue::Number(JsonNumber { f32_bits: (n.as_f64().unwrap_or(0.0) as f32).to_bits() })
        }
        serde_json::Value::String(s) => JsonValue::Str(s.clone()),
        serde_json::Value::Array(a) => JsonValue::Array(a.iter().map(to_json).collect()),
        serde_json::Value::Object(o) => {
            JsonValue::Object(o.iter().map(|(k, v)| (k.clone(), to_json(v))).collect())
        }
    }
}

fn parse(text: &str) -> Option<JsonValue> {
    serde_json::from_str::<serde_json::Value>(text).ok().map(|v| to_json(&v))
}

fn extract(response: &str) -> Result<JsonValue, Error> {
    let inner = json_candidate(response).and_then(|c| parse(&c));
    extract_json(response, parse(response), inner)
}

fn config(provider: &str) -> AuditConfig {
    AuditConfig {
        provider: provider.to_string(),
        base_url: None,
        api_key: Some("sk-audit".to_string()),
        model: "gpt-4o-mini".to_string(),
        temperature_bits: 0.1f32.to_bits(),
        max_tokens: 2048,
        enabled: true,
        batch_size: 10,
        stream_audit: true,
        mode: AuditMode::Sync,
        system_prompt: None,
        agents: Vec::new(),
    }
}

fn engine(provider: &str) -> AuditEngine {
    AuditEngine::new(config(provider), PolicyConfig::default_policy())
}

#[test]
fn test_extract_json() {
    let response = r#"Here is the JSON: {"allowed": true, "risk_level": "none", "risk_score": 0.0, "findings": []}"#;
    let json = extract(response).ok().unwrap();
    assert!(get(&json, "allowed").is_some());
}

#[test]
fn extract_json_prefers_the_whole_answer_and_reports_failures() {
    assert!(matches!(extract("[1, 2]"), Ok(JsonValue::Array(_))));
    assert_eq!(json_candidate("x {a} y }"), Some("{a} y }".to_string()));
    assert_eq!(json_candidate("}{"), Some(String::new()));
    match extract("no json here") {
        Err(Error::AuditFailed(m)) => {
            assert_eq!(m, "Could not extract JSON from response: no json here")
        }
        _ => panic!("expected failure"),
    }
    let long = "x".repeat(300);
    match extract(&long) {
        Err(Error::AuditFailed(m)) => {
            assert_eq!(m, format!("Could not extract JSON from response: {}", &long[..200]))
        }
        _ => panic!("expected failure"),
    }
}

fn decision(text: &str) -> AuditDecision {
    parse_audit_decision(&parse(text).unwrap())
}

#[test]
fn decisions_are_read_with_defaults() {
    let d = decision(r#"{"allowed": false, "risk_level": "medium", "risk_score": 0.5,
        "findings": [{"category": "other", "severity": "low", "description": "d", "evidence": "e"},
                     {"category": "x"}, 3,
                     {"category": "c", "severity": "s", "description": "d2", "evidence": 1}]}"#);
    assert!(!d.allowed);
    assert_eq!(d.risk_level, "medium");
    assert_eq!(f32::from_bits(d.risk_score_bits), 0.5);
    assert_eq!(d.findings.len(), 2);
    assert_eq!(d.findings[0].evidence.as_deref(), Some("e"));
    assert_eq!(d.findings[1].evidence, None);
    let d = decision("[]");
    assert!(d.allowed);
    assert_eq!(d.risk_level, "none");
    assert_eq!(d.risk_score_bits, 0);
    assert!(d.findings.is_empty());
    assert!(d.blocked_reason.is_none());
}

fn finding(category: &str, severity: &str) -> AuditFinding {
    AuditFinding {
        category: category.to_string(),
        severity: severity.to_string(),
        description: "d".to_string(),
        evidence: None,
    }
}

fn with(level: &str, score: f32, findings: Vec<AuditFinding>) -> AuditDecision {
    AuditDecision {
        allowed: true,
        risk_level: level.to_string(),
        risk_score_bits: score.to_bits(),
        findings,
        blocked_reason: None,
    }
}

fn apply(e: &AuditEngine, d: &AuditDecision) -> AuditDecision {
    e.apply_policy(d, &f32::from_bits(d.risk_score_bits).to_string())
}

#[test]
fn policy_blocks_levels_then_findings_then_scores() {
    let e = engine("openai");
    let r = apply(&e, &with("high", 0.1, vec![finding("prompt_injection", "critical")]));
    assert!(!r.allowed);
    assert_eq!(r.blocked_reason.as_deref(), Some("Blocked by policy: risk level 'high' is in block list"));
    assert_eq!(r.risk_level, "high");

    let r = apply(&e, &with("low", 0.9, vec![finding("other", "critical"), finding("tool_call_insertion", "high")]));
    assert_eq!(
        r.blocked_reason.as_deref(),
        Some("Blocked by policy: tool_call_insertion finding with severity 'high'")
    );
    assert_eq!(r.risk_level, "high");
    assert_eq!(f32::from_bits(r.risk_score_bits), 0.9);

    let r = apply(&e, &with("low", 0.85, vec![finding("prompt_injection", "medium")]));
    assert_eq!(r.blocked_reason.as_deref(), Some("Blocked by policy: risk score 0.85 exceeds threshold"));
    assert_eq!(r.risk_level, "critical");

    let kept = with("medium", 0.5, vec![finding("prompt_injection", "low")]);
    let r = apply(&e, &kept);
    assert!(r.allowed);
    assert_eq!(r.risk_level, "medium");
    assert_eq!(r.findings.len(), 1);
}

#[test]
fn score_threshold_matches_float_comparison() {
    let e = engine("openai");
    let samples = [
        0.0f32, -0.0, 0.79999995, 0.8, 0.80000001, 0.9, 1.0, 5.0, -0.9, f32::INFINITY,
        f32::NEG_INFINITY, f32::NAN, -f32::NAN, f32::MAX, f32::MIN_POSITIVE,
    ];
    for s in samples {
        let r = apply(&e, &with("low", s, vec![]));
        assert_eq!(!r.allowed, s >= 0.8, "score {}", s);
    }
}

#[test]
fn custom_keywords_extend_the_system_prompt() {
    let mut policy = PolicyConfig::default_policy();
    policy.custom_keywords = vec!["alpha".to_string(), "beta".to_string()];
    let e = AuditEngine::new(config("openai"), policy);
    assert_eq!(
        e.system_prompt().as_str(),
        format!("{}\nAdditional keywords to flag: alpha, beta\n", DEFAULT_AUDIT_PROMPT)
    );
    assert_eq!(engine("openai").system_prompt().as_str(), DEFAULT_AUDIT_PROMPT);
    let mut c = config("openai");
    c.system_prompt = Some("custom".to_string());
    assert_eq!(AuditEngine::new(c, PolicyConfig::default_policy()).system_prompt(), "custom");
}

#[test]
fn audit_steps_skip_disabled_and_short_content() {
    let e = engine("openai");
    match e.response_audit_step("hello") {
        AuditStep::Ask { prompt } => {
            assert!(prompt.starts_with("Analyze the following LLM response"));
            assert!(prompt.contains("=== RESPONSE TO AUDIT ===\nhello\n\n=== END RESPONSE ==="));
            assert!(prompt.ends_with(&format!("{}\n", AUDIT_SCHEMA)));
        }
        AuditStep::Pass => panic!("expected a prompt"),
    }
    assert!(matches!(e.response_audit_step(""), AuditStep::Pass));
    assert!(matches!(e.request_audit_step("hi"), AuditStep::Ask { .. }));
    assert!(matches!(e.chunk_audit_step(&"x".repeat(49)), AuditStep::Pass));
    assert!(matches!(e.chunk_audit_step(&"x".repeat(50)), AuditStep::Ask { .. }));
    assert!(matches!(e.chunk_audit_step(&"é".repeat(25)), AuditStep::Ask { .. }));
    let mut c = config("openai");
    c.enabled = false;
    let off = AuditEngine::new(c, PolicyConfig::default_policy());
    assert!(matches!(off.request_audit_step("hi"), AuditStep::Pass));
    assert!(!off.is_enabled());
}

#[test]
fn audit_endpoints_and_credentials_follow_the_provider() {
    let e = engine("anthropic");
    assert_eq!(e.provider_kind(), ProviderKind::Anthropic);
    assert_eq!(e.audit_endpoint(), "https://api.openai.com/v1/messages");
    assert_eq!(e.audit_auth_header(), Some(("x-api-key".to_string(), "sk-audit".to_string())));
    let mut c = config("ollama");
    c.base_url = Some("http://localhost:11434/v1".to_string());
    c.api_key = Some(String::new());
    let e = AuditEngine::new(c, PolicyConfig::default_policy());
    assert_eq!(e.provider_kind(), ProviderKind::Ollama);
    assert_eq!(e.audit_endpoint(), "http://localhost:11434/v1/chat/completions");
    assert_eq!(e.audit_auth_header(), None);
    let e = engine("openai");
    assert_eq!(
        e.audit_auth_header(),
        Some(("Authorization".to_string(), "Bearer sk-audit".to_string()))
    );
    assert_eq!(engine("vllm").provider_kind(), ProviderKind::Other);
}

#[test]
fn audit_content_is_found_per_provider() {
    let reply = |t: &str| Ok(parse(t).unwrap());
    let openai = engine("openai");
    assert_eq!(
        openai.extract_audit_content(&reply(r#"{"choices":[{"message":{"content":"{}"}}]}"#)).ok(),
        Some("{}".to_string())
    );
    match openai.extract_audit_content(&reply(r#"{"choices":[]}"#)) {
        Err(Error::AuditFailed(m)) => {
            assert_eq!(m, "No content in OpenAI audit response (choices[0].message.content)")
        }
        _ => panic!("expected failure"),
    }
    let anthropic = engine("anthropic");
    assert_eq!(
        anthropic.extract_audit_content(&reply(r#"{"content":[{"type":"text","text":"ok"}]}"#)).ok(),
        Some("ok".to_string())
    );
    let local = engine("local");
    assert_eq!(
        local.extract_audit_content(&reply(r#"{"message":{"content":"m"},"content":"c"}"#)).ok(),
        Some("m".to_string())
    );
    assert_eq!(local.extract_audit_content(&reply(r#"{"content":"c"}"#)).ok(), Some("c".to_string()));
    match local.extract_audit_content(&Err("EOF".to_string())) {
        Err(Error::AuditFailed(m)) => assert_eq!(m, "Failed to parse audit API response: EOF"),
        _ => panic!("expected failure"),
    }
}

#[test]
fn audit_request_body_follows_the_provider() {
    let prompt = "check this";
    match engine("openai").audit_request_body(prompt) {
        AuditRequestBody::Chat { model, system, user, temperature_bits, max_tokens, json_object } => {
            assert_eq!(model, "gpt-4o-mini");
            assert_eq!(system, DEFAULT_AUDIT_PROMPT);
            assert_eq!(user, prompt);
            assert_eq!(temperature_bits, 0.1f32.to_bits());
            assert_eq!(max_tokens, 2048);
            assert!(json_object);
        }
        _ => panic!("expected a chat body"),
    }
    match engine("groq").audit_request_body(prompt) {
        AuditRequestBody::Chat { json_object, .. } => assert!(!json_object),
        _ => panic!("expected a chat body"),
    }
    match engine("local").audit_request_body(prompt) {
        AuditRequestBody::Ollama { prompt: p, num_predict, .. } => {
            assert_eq!(p, format!("System: {}\n\nUser: {}", DEFAULT_AUDIT_PROMPT, prompt));
            assert_eq!(num_predict, 2048);
        }
        _ => panic!("expected an ollama body"),
    }
    match engine("anthropic").audit_request_body(prompt) {
        AuditRequestBody::Anthropic { system, user, max_tokens, .. } => {
            assert_eq!(system, DEFAULT_AUDIT_PROMPT);
            assert_eq!(user, prompt);
            assert_eq!(max_tokens, 2048);
        }
        _ => panic!("expected an anthropic body"),
    }
}

#[test]
fn policy_log_all_follows_the_policy() {
    assert!(engine("openai").policy_log_all());
    let mut policy = PolicyConfig::default_policy();
    policy.log_all = false;
    assert!(!AuditEngine::new(config("openai"), policy).policy_log_all());
}

fn secondary(name: Option<&str>, provider: Option<&str>, model: Option<&str>) -> AuditAgentConfig {
    AuditAgentConfig {
        name: name.map(|s| s.to_string()),
        provider: provider.map(|s| s.to_string()),
        base_url: None,
        api_key: None,
        model: model.map(|s| s.to_string()),
        temperature_bits: None,
        max_tokens: Some(512),
        system_prompt: Some("be strict".to_string()),
    }
}

#[test]
fn secondary_agents_inherit_unset_fields() {
    let mut c = config("openai");
    c.agents = vec![
        secondary(Some("strict-local"), Some("ollama"), None),
        secondary(None, None, Some("other-model")),
    ];
    let e = AuditEngine::new(c, PolicyConfig::default_policy());
    assert_eq!(e.agent_name(0), Some("strict-local".to_string()));
    assert_eq!(e.agent_name(1), Some("audit-agent-2".to_string()));
    assert_eq!(e.agent_name(2), None);
    assert!(e.agent_engine(2).is_none());
    let first = e.agent_engine(0).unwrap();
    assert_eq!(first.provider_kind(), ProviderKind::Ollama);
    assert_eq!(first.config().model, "gpt-4o-mini");
    assert_eq!(first.config().max_tokens, 512);
    assert_eq!(first.config().api_key.as_deref(), Some("sk-audit"));
    assert_eq!(first.system_prompt(), "be strict");
    assert_eq!(first.additional_agent_count(), 0);
    let second = e.agent_engine(1).unwrap();
    assert_eq!(second.provider_kind(), ProviderKind::OpenAi);
    assert_eq!(second.config().model, "other-model");
    assert_eq!(second.config().temperature_bits, 0.1f32.to_bits());
}

#[test]
fn strictest_decision_enforces_any_block() {
    let ok = || Ok(AuditDecision::pass());
    let blocked = |r: &str| Ok(AuditDecision::block(r, "high", 0));
    let failed = || Err(Error::AuditFailed("down".to_string()));
    assert!(matches!(strictest_decision(ok(), vec![ok(), failed()]), Ok(d) if d.allowed));
    match strictest_decision(ok(), vec![failed(), blocked("second"), blocked("third")]) {
        Ok(d) => assert_eq!(d.blocked_reason.as_deref(), Some("second")),
        _ => panic!("expected a decision"),
    }
    match strictest_decision(blocked("primary"), vec![blocked("other")]) {
        Ok(d) => assert_eq!(d.blocked_reason.as_deref(), Some("primary")),
        _ => panic!("expected a decision"),
    }
    assert!(matches!(
        strictest_decision(failed(), vec![ok()]),
        Err(Error::AuditFailed(m)) if m == "down"
    ));
}
