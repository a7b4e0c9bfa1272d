use llm_shadow_relay::config::{
    default_audit_mode, default_block_levels, AuditConfig, AuditMode, Config, LoggingConfig,
    PolicyConfig, ServerConfig, UpstreamAgentConfig, UpstreamConfig, UpstreamProtocol,
};

fn agent(id: &str, base: &str, key: &str, model: &str, protocol: UpstreamProtocol) -> UpstreamAgentConfig {
    UpstreamAgentConfig {
        id: id.to_string(),
        base_url: base.to_string(),
        api_key: Some(key.to_string()),
        default_model: model.to_string(),
        protocol,
        extra_headers: Vec::new(),
        pass_through_headers: true,
        timeout: None,
        max_retries: 2,
        retry_initial_ms: 250,
        retry_max_ms: 5000,
    }
}

/// The configuration with two named upstream agents, as written field by field.
fn multi_upstream_agent_config() -> Config {
    let mut writer = agent(
        "writer",
        "https://api.anthropic.com/v1",
        "sk-ant-test",
        "haiku-3-20240307",
        UpstreamProtocol::Anthropic,
    );
    writer.extra_headers = vec![("X-Agent-Tier".to_string(), "writing".to_string())];
    writer.timeout = Some(120);
    Config {
        server: ServerConfig { listen: "127.0.0.1:8080".to_string(), timeout: 300, max_request_mb: 10 },
        upstream: UpstreamConfig {
            base_url: "https://api.openai.com/v1".to_string(),
            api_key: Some("sk-test".to_string()),
            default_model: "gpt-4".to_string(),
            protocol: UpstreamProtocol::OpenAi,
            extra_headers: Vec::new(),
            pass_through_headers: true,
            timeout: None,
            max_retries: 2,
            retry_initial_ms: 250,
            retry_max_ms: 5000,
        },
        agents: vec![
            agent("research", "https://api.openai.com/v1", "sk-research", "gpt-4o", UpstreamProtocol::OpenAi),
            writer,
        ],
        audit: AuditConfig {
            provider: "openai".to_string(),
            base_url: None,
            api_key: Some("sk-audit-test".to_string()),
            model: "gpt-4o-mini".to_string(),
            temperature_bits: 0.1f32.to_bits(),
            max_tokens: 2048,
            enabled: true,
            batch_size: 10,
            stream_audit: true,
            mode: AuditMode::Sync,
            system_prompt: None,
            agents: Vec::new(),
        },
        policy: PolicyConfig {
            block_risk_levels: vec!["critical".to_string(), "high".to_string()],
            ..PolicyConfig::default_policy()
        },
        logging: LoggingConfig::default_logging(),
    }
}

#[test]
fn test_build_upstream_agents_rejects_duplicate_ids() {
    let mut config = multi_upstream_agent_config();
    config.agents[1].id = config.agents[0].id.clone();

    let err = config.build_upstream_agents().err().unwrap();

    assert!(err.contains("Duplicate upstream agent id 'research'"));
}

#[test]
fn test_build_upstream_agents_rejects_blank_ids() {
    let mut config = multi_upstream_agent_config();
    config.agents[0].id = "  ".to_string();

    let err = config.build_upstream_agents().err().unwrap();

    assert_eq!(err, "Upstream agent id cannot be empty");
}

#[test]
fn test_build_upstream_agents_trims_registry_keys() {
    let mut config = multi_upstream_agent_config();
    config.agents[0].id = " research ".to_string();

    let agents = config.build_upstream_agents().ok().unwrap();

    assert!(agents.contains_key("research"));
    assert!(!agents.contains_key(" research "));
}

#[test]
fn upstream_agent_converts_to_upstream_config() {
    let config = multi_upstream_agent_config();
    let upstream = config.agents[1].to_upstream_config();
    assert_eq!(upstream.default_model, "haiku-3-20240307");
    assert_eq!(upstream.timeout, Some(120));
    assert_eq!(upstream.protocol, UpstreamProtocol::Anthropic);
    assert_eq!(upstream.extra_headers, vec![("X-Agent-Tier".to_string(), "writing".to_string())]);
}

#[test]
fn registry_lookup_and_validation() {
    let config = multi_upstream_agent_config();
    assert!(config.validate().is_ok());
    let agents = config.build_upstream_agents().ok().unwrap();
    assert_eq!(agents.len(), 2);
    assert_eq!(agents.get("writer").unwrap().base_url, "https://api.anthropic.com/v1");
    assert!(agents.get("missing").is_none());
    let mut dup = multi_upstream_agent_config();
    dup.agents[1].id = " research".to_string();
    assert_eq!(dup.validate().err().unwrap(), "Duplicate upstream agent id 'research'");
    let mut none = multi_upstream_agent_config();
    none.agents.clear();
    assert_eq!(none.build_upstream_agents().ok().unwrap().len(), 0);
}

#[test]
fn first_id_problem_wins() {
    let mut config = multi_upstream_agent_config();
    config.agents.push(agent("", "u", "k", "m", UpstreamProtocol::OpenAi));
    config.agents.push(agent("research", "u", "k", "m", UpstreamProtocol::OpenAi));
    assert_eq!(config.validate().err().unwrap(), "Upstream agent id cannot be empty");
}

#[test]
fn defaults_match_documentation() {
    let server = ServerConfig::default_config();
    assert_eq!(server.listen, "127.0.0.1:8080");
    assert_eq!(server.timeout, 300);
    assert_eq!(server.max_request_mb, 10);
    assert_eq!(default_block_levels(), vec!["critical".to_string(), "high".to_string()]);
    assert_eq!(default_audit_mode(), AuditMode::Sync);
    assert_eq!(AuditMode::Async.as_text(), "async");
    let logging = LoggingConfig::default_logging();
    assert_eq!(logging.level, "info");
    assert!(!logging.log_bodies);
}

#[test]
fn registry_lists_ids_in_configured_order() {
    let mut config = multi_upstream_agent_config();
    config.agents[1].id = "  writer ".to_string();
    let agents = config.build_upstream_agents().ok().unwrap();
    assert_eq!(agents.ids(), vec!["research".to_string(), "writer".to_string()]);
}
