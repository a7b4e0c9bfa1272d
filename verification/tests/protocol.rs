use llm_shadow_relay::protocol::{
    anthropic_response_to_openai, anthropic_to_openai, extract_anthropic_request_content,
    extract_anthropic_text, extract_request_content, openai_to_anthropic,
    openai_to_anthropic_request, anthropic_upstream_body, AnthropicContentBlock, AnthropicMsg, AnthropicRequest,
    AnthropicResponse, AnthropicUsage, ChatCompletionChunk, ChatCompletionRequest,
    ChatCompletionResponse, Choice, ContentExtractor, Delta, OpenAiMessage, StreamChoice, Usage,
};

fn message(role: &str, content: &str) -> OpenAiMessage {
    OpenAiMessage {
        role: role.to_string(),
        content: content.to_string(),
        name: None,
        tool_calls: None,
        tool_call_id: None,
    }
}

fn choice(content: &str, finish: Option<&str>) -> Choice {
    Choice { index: 0, message: message("assistant", content), finish_reason: finish.map(|s| s.to_string()) }
}

#[test]
fn test_extract_text() {
    let response = ChatCompletionResponse {
        id: "test".to_string(),
        object: "chat.completion".to_string(),
        created: 1234567890,
        model: "gpt-4".to_string(),
        choices: vec![Choice {
            index: 0,
            message: OpenAiMessage {
                role: "assistant".to_string(),
                content: "Hello, world!".to_string(),
                name: None,
                tool_calls: None,
                tool_call_id: None,
            },
            finish_reason: Some("stop".to_string()),
        }],
        usage: None,
        system_fingerprint: None,
    };

    assert_eq!(ContentExtractor::extract_text(&response), "Hello, world!");
}

fn response(choices: Vec<Choice>, usage: Option<Usage>) -> ChatCompletionResponse {
    ChatCompletionResponse {
        id: "r1".to_string(),
        object: "chat.completion".to_string(),
        created: 1,
        model: "m".to_string(),
        choices,
        usage,
        system_fingerprint: None,
    }
}

#[test]
fn extract_text_joins_choices_with_newlines() {
    let r = response(vec![choice("a", None), choice("", None), choice("c", None)], None);
    assert_eq!(ContentExtractor::extract_text(&r), "a\n\nc");
    assert_eq!(ContentExtractor::extract_text(&response(vec![], None)), "");
}

#[test]
fn extract_from_chunk_concatenates_delta_contents() {
    let delta = |c: Option<&str>| Delta { role: None, content: c.map(|s| s.to_string()), tool_calls: None };
    let chunk = ChatCompletionChunk {
        id: "c".to_string(),
        object: "chat.completion.chunk".to_string(),
        created: 0,
        model: "m".to_string(),
        choices: vec![
            StreamChoice { index: 0, delta: Some(delta(Some("Hel"))), finish_reason: None },
            StreamChoice { index: 1, delta: None, finish_reason: None },
            StreamChoice { index: 2, delta: Some(delta(None)), finish_reason: None },
            StreamChoice { index: 3, delta: Some(delta(Some("lo"))), finish_reason: None },
        ],
    };
    assert_eq!(ContentExtractor::extract_from_chunk(&chunk), "Hello");
}

fn anthropic_request(system: Option<&str>, model: &str) -> AnthropicRequest {
    AnthropicRequest {
        model: model.to_string(),
        max_tokens: 1024,
        messages: vec![
            AnthropicMsg { role: "user".to_string(), content: "Hi".to_string() },
            AnthropicMsg { role: "assistant".to_string(), content: "Hello".to_string() },
        ],
        system: system.map(|s| s.to_string()),
        stream: Some(false),
        temperature_bits: Some(0.5f32.to_bits()),
    }
}

#[test]
fn anthropic_request_converts_to_canonical() {
    let r = anthropic_to_openai(anthropic_request(Some("Be brief"), ""), "anthropic-default");
    assert_eq!(r.model, "anthropic-default");
    assert_eq!(r.messages.len(), 3);
    assert_eq!(r.messages[0].role, "system");
    assert_eq!(r.messages[0].content, "Be brief");
    assert_eq!(r.messages[2].role, "assistant");
    assert_eq!(r.max_tokens, Some(1024));
    assert_eq!(r.stream, Some(false));
    assert_eq!(r.temperature_bits.map(f32::from_bits), Some(0.5));
    let r = anthropic_to_openai(anthropic_request(None, "haiku-3"), "d");
    assert_eq!(r.model, "haiku-3");
    assert_eq!(r.messages.len(), 2);
}

#[test]
fn canonical_response_converts_to_anthropic() {
    let r = response(
        vec![choice("one", Some("length")), choice("two", Some("stop"))],
        Some(Usage { prompt_tokens: 3, completion_tokens: 4, total_tokens: 7 }),
    );
    let a = openai_to_anthropic(r);
    assert_eq!(a.id, "r1");
    assert_eq!(a.resp_type, "message");
    assert_eq!(a.role, "assistant");
    assert_eq!(a.content.len(), 2);
    assert_eq!(a.content[1].text.as_deref(), Some("two"));
    assert_eq!(a.stop_reason.as_deref(), Some("end_turn"));
    assert_eq!((a.usage.input_tokens, a.usage.output_tokens), (3, 4));
    assert_eq!(extract_anthropic_text(&a), "one\ntwo");
    let a = openai_to_anthropic(response(vec![choice("x", Some("content_filter"))], None));
    assert_eq!(a.stop_reason.as_deref(), Some("content_filter"));
    assert_eq!((a.usage.input_tokens, a.usage.output_tokens), (0, 0));
    let a = openai_to_anthropic(response(vec![choice("x", Some("tool_calls")), choice("y", None)], None));
    assert_eq!(a.stop_reason, None);
}

#[test]
fn anthropic_text_skips_blocks_without_text() {
    let a = AnthropicResponse {
        id: "a".to_string(),
        resp_type: "message".to_string(),
        role: "assistant".to_string(),
        content: vec![
            AnthropicContentBlock { block_type: "text".to_string(), text: Some("a".to_string()) },
            AnthropicContentBlock { block_type: "tool_use".to_string(), text: None },
            AnthropicContentBlock { block_type: "text".to_string(), text: Some("b".to_string()) },
        ],
        model: "m".to_string(),
        stop_reason: Some("max_tokens".to_string()),
        stop_sequence: None,
        usage: AnthropicUsage { input_tokens: u32::MAX, output_tokens: 1 },
    };
    assert_eq!(extract_anthropic_text(&a), "a\nb");
    let c = anthropic_response_to_openai(&a);
    assert_eq!(c.choices.len(), 1);
    assert_eq!(c.choices[0].message.content, "ab");
    assert_eq!(c.choices[0].message.role, "assistant");
    assert_eq!(c.choices[0].finish_reason.as_deref(), Some("length"));
    assert_eq!(c.usage.unwrap().total_tokens, u32::MAX);
}

#[test]
fn request_content_reads_user_and_system_messages() {
    let req = ChatCompletionRequest {
        model: "m".to_string(),
        messages: vec![message("system", "S"), message("assistant", "A"), message("user", "U")],
        temperature_bits: None,
        top_p_bits: None,
        max_tokens: None,
        stream: None,
        stop: None,
        presence_penalty_bits: None,
        frequency_penalty_bits: None,
        user: None,
    };
    assert_eq!(extract_request_content(&req), "S\nU");
    let a = openai_to_anthropic_request(&req);
    assert_eq!(a.system.as_deref(), Some("S"));
    assert_eq!(a.messages.len(), 2);
    assert_eq!(a.messages[0].role, "assistant");
    assert_eq!(a.max_tokens, 4096);
    let ar = anthropic_request(Some("Sys"), "m");
    assert_eq!(extract_anthropic_request_content(&ar), "Sys\nHi");
    assert_eq!(extract_anthropic_request_content(&anthropic_request(None, "m")), "Hi");
}

#[test]
fn anthropic_request_round_trip_keeps_the_request() {
    let mut req = anthropic_request(Some("be brief"), "");
    req.temperature_bits = Some(0.5f32.to_bits());
    let canonical = anthropic_to_openai(req, "fallback-model");
    let back = openai_to_anthropic_request(&canonical);
    let sent = anthropic_request(Some("be brief"), "");
    assert_eq!(back.model, "fallback-model");
    assert_eq!(back.max_tokens, sent.max_tokens);
    assert_eq!(back.system, sent.system);
    assert_eq!(back.messages.len(), sent.messages.len());
    for (b, o) in back.messages.iter().zip(sent.messages.iter()) {
        assert_eq!(b.role, o.role);
        assert_eq!(b.content, o.content);
    }
    assert_eq!(back.stream, sent.stream);
    assert_eq!(back.temperature_bits, Some(0.5f32.to_bits()));
}

#[test]
fn anthropic_response_round_trip_keeps_id_usage_and_stop_reason() {
    let resp = AnthropicResponse {
        id: "msg_1".to_string(),
        resp_type: "message".to_string(),
        role: "assistant".to_string(),
        content: vec![
            AnthropicContentBlock { block_type: "text".to_string(), text: Some("Hello, ".to_string()) },
            AnthropicContentBlock { block_type: "tool_use".to_string(), text: None },
            AnthropicContentBlock { block_type: "text".to_string(), text: Some("world".to_string()) },
        ],
        model: "haiku-3".to_string(),
        stop_reason: Some("max_tokens".to_string()),
        stop_sequence: None,
        usage: AnthropicUsage { input_tokens: 7, output_tokens: 9 },
    };
    let canonical = anthropic_response_to_openai(&resp);
    assert_eq!(canonical.choices[0].finish_reason.as_deref(), Some("length"));
    let back = openai_to_anthropic(canonical);
    assert_eq!(back.id, "msg_1");
    assert_eq!(back.model, "haiku-3");
    assert_eq!(back.stop_reason.as_deref(), Some("max_tokens"));
    assert_eq!(back.usage.input_tokens, 7);
    assert_eq!(back.usage.output_tokens, 9);
    assert_eq!(back.content.len(), 1);
    assert_eq!(back.content[0].text.as_deref(), Some("Hello, world"));
}

#[test]
fn canonical_response_round_trip_keeps_content_and_finish_reason() {
    let resp = response(vec![choice("all done", Some("tool_calls"))], Some(Usage {
        prompt_tokens: 3,
        completion_tokens: 4,
        total_tokens: 99,
    }));
    let anthropic = openai_to_anthropic(resp);
    assert_eq!(anthropic.stop_reason.as_deref(), Some("tool_use"));
    let back = anthropic_response_to_openai(&anthropic);
    assert_eq!(back.choices.len(), 1);
    assert_eq!(back.choices[0].message.content, "all done");
    assert_eq!(back.choices[0].finish_reason.as_deref(), Some("tool_calls"));
    let usage = back.usage.unwrap();
    assert_eq!((usage.prompt_tokens, usage.completion_tokens, usage.total_tokens), (3, 4, 7));
}

#[test]
fn renaming_a_name_of_the_other_side_does_not_come_back() {
    let resp = response(vec![choice("x", Some("end_turn"))], None);
    let back = anthropic_response_to_openai(&openai_to_anthropic(resp));
    assert_eq!(back.choices[0].finish_reason.as_deref(), Some("stop"));
}

#[test]
fn upstream_body_switches_streaming_on() {
    let canonical = anthropic_to_openai(anthropic_request(Some("sys"), "m"), "d");
    let streamed = anthropic_upstream_body(&canonical, true);
    assert_eq!(streamed.stream, Some(true));
    assert_eq!(streamed.system.as_deref(), Some("sys"));
    assert_eq!(streamed.model, "m");
    let plain = anthropic_upstream_body(&canonical, false);
    assert_eq!(plain.stream, canonical.stream);
}
