//! Protocol types and conversions between the OpenAI-style canonical format
//! and the Anthropic format.
//!
//! The library's types hold the fields that its logic reads or writes.
//! Floating-point parameters (temperature, top_p, penalties) are carried as
//! the IEEE-754 bit pattern of their `f32` value and passed through
//! unchanged.
use vstd::prelude::*;
use crate::config::copy_opt_string;
use crate::text::{join, join_strings, concat_all, concat_strings, chars_of, chars_eq_str, string_views};

verus! {

/// OpenAI-style message.
#[derive(Debug)]
pub struct OpenAiMessage {
    pub role: String,
    pub content: String,
    pub name: Option<String>,
    pub tool_calls: Option<Vec<ToolCall>>,
    pub tool_call_id: Option<String>,
}

/// Tool call representation.
#[derive(Debug)]
pub struct ToolCall {
    pub id: String,
    pub call_type: String,
    pub function: FunctionCall,
}

/// The function named by a tool call.
#[derive(Debug)]
pub struct FunctionCall {
    pub name: String,
    pub arguments: String,
}

/// Chat completion request in the canonical (OpenAI) format.
#[derive(Debug)]
pub struct ChatCompletionRequest {
    pub model: String,
    pub messages: Vec<OpenAiMessage>,
    pub temperature_bits: Option<u32>,
    pub top_p_bits: Option<u32>,
    pub max_tokens: Option<u32>,
    pub stream: Option<bool>,
    pub stop: Option<Vec<String>>,
    pub presence_penalty_bits: Option<u32>,
    pub frequency_penalty_bits: Option<u32>,
    pub user: Option<String>,
}

/// Chat completion response in the canonical (OpenAI) format.
#[derive(Debug)]
pub struct ChatCompletionResponse {
    pub id: String,
    pub object: String,
    pub created: i64,
    pub model: String,
    pub choices: Vec<Choice>,
    pub usage: Option<Usage>,
    pub system_fingerprint: Option<String>,
}

/// One choice of a response.
#[derive(Debug)]
pub struct Choice {
    pub index: u32,
    pub message: OpenAiMessage,
    pub finish_reason: Option<String>,
}

/// Token usage of a response.
#[derive(Debug, Clone, Copy)]
pub struct Usage {
    pub prompt_tokens: u32,
    pub completion_tokens: u32,
    pub total_tokens: u32,
}

/// Streaming chunk (OpenAI format).
#[derive(Debug)]
pub struct ChatCompletionChunk {
    pub id: String,
    pub object: String,
    pub created: i64,
    pub model: String,
    pub choices: Vec<StreamChoice>,
}

/// One choice of a streaming chunk.
#[derive(Debug)]
pub struct StreamChoice {
    pub index: u32,
    pub delta: Option<Delta>,
    pub finish_reason: Option<String>,
}

/// The change a streaming chunk brings to a choice.
#[derive(Debug)]
pub struct Delta {
    pub role: Option<String>,
    pub content: Option<String>,
    pub tool_calls: Option<Vec<ToolCall>>,
}

/// Anthropic-style message (role and string content).
#[derive(Debug)]
pub struct AnthropicMsg {
    pub role: String,
    pub content: String,
}

/// Anthropic chat completion request.
#[derive(Debug)]
pub struct AnthropicRequest {
    pub model: String,
    pub max_tokens: u32,
    pub messages: Vec<AnthropicMsg>,
    pub system: Option<String>,
    pub stream: Option<bool>,
    pub temperature_bits: Option<u32>,
}

/// Anthropic chat completion response.
#[derive(Debug)]
pub struct AnthropicResponse {
    pub id: String,
    pub resp_type: String,
    pub role: String,
    pub content: Vec<AnthropicContentBlock>,
    pub model: String,
    pub stop_reason: Option<String>,
    pub stop_sequence: Option<String>,
    pub usage: AnthropicUsage,
}

/// Anthropic content block.
#[derive(Debug)]
pub struct AnthropicContentBlock {
    pub block_type: String,
    pub text: Option<String>,
}

/// Anthropic token usage.
#[derive(Debug, Clone, Copy)]
pub struct AnthropicUsage {
    pub input_tokens: u32,
    pub output_tokens: u32,
}

// ---------------------------------------------------------------------------
// Content extraction
// ---------------------------------------------------------------------------

/// The message contents of the choices, in order.
pub open spec fn choice_contents(choices: Seq<Choice>) -> Seq<Seq<char>> {
    choices.map_values(|c: Choice| c.message.content@)
}

/// The text contents of the deltas of a chunk's choices, in order, skipping
/// choices without a delta or without content.
pub open spec fn delta_contents(choices: Seq<StreamChoice>) -> Seq<Seq<char>>
    decreases choices.len(),
{
    if choices.len() == 0 {
        Seq::empty()
    } else {
        let rest = delta_contents(choices.drop_last());
        match choices.last().delta {
            Some(d) => match d.content {
                Some(c) => rest.push(c@),
                None => rest,
            },
            None => rest,
        }
    }
}

/// The texts of the content blocks that have one, in order.
pub open spec fn block_texts(blocks: Seq<AnthropicContentBlock>) -> Seq<Seq<char>>
    decreases blocks.len(),
{
    if blocks.len() == 0 {
        Seq::empty()
    } else {
        let rest = block_texts(blocks.drop_last());
        match blocks.last().text {
            Some(t) => rest.push(t@),
            None => rest,
        }
    }
}

/// Content extraction utilities.
pub struct ContentExtractor;

impl ContentExtractor {
    /// All text content of a response for auditing: the choices' message
    /// contents joined by newlines.
    pub fn extract_text(response: &ChatCompletionResponse) -> (s: String)
        ensures
            s@ == join(choice_contents(response.choices@), "\n"@),
    {
        let mut parts: Vec<String> = Vec::new();
        let mut i: usize = 0;
        while i < response.choices.len()
            invariant
                i <= response.choices@.len(),
                string_views(parts@) == choice_contents(response.choices@).take(
                    i as int,
                ),
            decreases response.choices@.len() - i,
        {
            let t = Self::extract_from_message(&response.choices[i].message);
            let ghost before = parts@;
            parts.push(t);
            assert(string_views(parts@) =~= string_views(before).push(t@));
            assert(string_views(parts@) =~= choice_contents(response.choices@).take(
                i + 1,
            ));
            i = i + 1;
        }
        assert(choice_contents(response.choices@).take(i as int) =~= choice_contents(
            response.choices@,
        ));
        join_strings(&parts, "\n")
    }

    /// All text content of a streaming chunk: the deltas' contents, concatenated.
    pub fn extract_from_chunk(chunk: &ChatCompletionChunk) -> (s: String)
        ensures
            s@ == concat_all(delta_contents(chunk.choices@)),
    {
        let mut parts: Vec<String> = Vec::new();
        let mut i: usize = 0;
        while i < chunk.choices.len()
            invariant
                i <= chunk.choices@.len(),
                string_views(parts@) == delta_contents(chunk.choices@.take(i as int)),
            decreases chunk.choices@.len() - i,
        {
            assert(chunk.choices@.take(i + 1).drop_last() =~= chunk.choices@.take(i as int));
            assert(chunk.choices@.take(i + 1).last() == chunk.choices@[i as int]);
            match &chunk.choices[i].delta {
                Some(d) => match &d.content {
                    Some(c) => {
                        parts.push(c.clone());
                        assert(string_views(parts@) =~= delta_contents(
                            chunk.choices@.take(i as int),
                        ).push(c@));
                    },
                    None => {},
                },
                None => {},
            }
            i = i + 1;
        }
        assert(chunk.choices@.take(i as int) =~= chunk.choices@);
        concat_strings(&parts)
    }

    /// The text of a message: its content.
    pub fn extract_from_message(message: &OpenAiMessage) -> (s: String)
        ensures
            s@ == message.content@,
    {
        message.content.clone()
    }
}

/// Text from an Anthropic response for auditing: the texts of its content
/// blocks, joined by newlines.
pub fn extract_anthropic_text(resp: &AnthropicResponse) -> (s: String)
    ensures
        s@ == join(block_texts(resp.content@), "\n"@),
{
    let mut parts: Vec<String> = Vec::new();
    let mut i: usize = 0;
    while i < resp.content.len()
        invariant
            i <= resp.content@.len(),
            string_views(parts@) == block_texts(resp.content@.take(i as int)),
        decreases resp.content@.len() - i,
    {
        assert(resp.content@.take(i + 1).drop_last() =~= resp.content@.take(i as int));
        assert(resp.content@.take(i + 1).last() == resp.content@[i as int]);
        match &resp.content[i].text {
            Some(t) => {
                parts.push(t.clone());
                assert(string_views(parts@) =~= block_texts(
                    resp.content@.take(i as int),
                ).push(t@));
            },
            None => {},
        }
        i = i + 1;
    }
    assert(resp.content@.take(i as int) =~= resp.content@);
    join_strings(&parts, "\n")
}

/// A role whose messages the request audit reads: `user` or `system`.
pub open spec fn is_audited_role(role: Seq<char>) -> bool {
    role == "user"@ || role == "system"@
}

/// Whether a role's messages are read by the request audit.
pub fn audited_role(role: &String) -> (r: bool)
    ensures
        r == is_audited_role(role@),
{
    let c = chars_of(role.as_str());
    chars_eq_str(c.as_slice(), "user") || chars_eq_str(c.as_slice(), "system")
}

/// The contents of the user and system messages, in order.
pub open spec fn audited_contents(messages: Seq<OpenAiMessage>) -> Seq<Seq<char>>
    decreases messages.len(),
{
    if messages.len() == 0 {
        Seq::empty()
    } else {
        let rest = audited_contents(messages.drop_last());
        if is_audited_role(messages.last().role@) {
            rest.push(messages.last().content@)
        } else {
            rest
        }
    }
}

/// The contents of the user and system messages of an Anthropic request, in order.
pub open spec fn audited_anthropic_contents(messages: Seq<AnthropicMsg>) -> Seq<Seq<char>>
    decreases messages.len(),
{
    if messages.len() == 0 {
        Seq::empty()
    } else {
        let rest = audited_anthropic_contents(messages.drop_last());
        if is_audited_role(messages.last().role@) {
            rest.push(messages.last().content@)
        } else {
            rest
        }
    }
}

/// The text of a request that the request audit reads: the contents of its
/// user and system messages, joined by newlines.
pub fn extract_request_content(request: &ChatCompletionRequest) -> (s: String)
    ensures
        s@ == join(audited_contents(request.messages@), "\n"@),
{
    let mut parts: Vec<String> = Vec::new();
    let mut i: usize = 0;
    while i < request.messages.len()
        invariant
            i <= request.messages@.len(),
            string_views(parts@) == audited_contents(request.messages@.take(i as int)),
        decreases request.messages@.len() - i,
    {
        assert(request.messages@.take(i + 1).drop_last() =~= request.messages@.take(i as int));
        assert(request.messages@.take(i + 1).last() == request.messages@[i as int]);
        let m = &request.messages[i];
        if audited_role(&m.role) {
            parts.push(m.content.clone());
            assert(string_views(parts@) =~= audited_contents(
                request.messages@.take(i as int),
            ).push(m.content@));
        }
        i = i + 1;
    }
    assert(request.messages@.take(i as int) =~= request.messages@);
    join_strings(&parts, "\n")
}

/// The text of an Anthropic request that the request audit reads: its
/// system prompt, if any, then the contents of its user and system
/// messages, joined by newlines.
pub fn extract_anthropic_request_content(request: &AnthropicRequest) -> (s: String)
    ensures
        s@ == join(
            (match request.system {
                Some(sys) => seq![sys@],
                None => Seq::empty(),
            }) + audited_anthropic_contents(request.messages@),
            "\n"@,
        ),
{
    let mut parts: Vec<String> = Vec::new();
    let ghost head: Seq<Seq<char>> = match &request.system {
        Some(sys) => seq![sys@],
        None => Seq::empty(),
    };
    match &request.system {
        Some(sys) => {
            parts.push(sys.clone());
        },
        None => {},
    }
    assert(string_views(parts@) =~= head);
    let mut i: usize = 0;
    while i < request.messages.len()
        invariant
            i <= request.messages@.len(),
            head == (match request.system {
                Some(sys) => seq![sys@],
                None => Seq::<Seq<char>>::empty(),
            }),
            string_views(parts@) == head + audited_anthropic_contents(
                request.messages@.take(i as int),
            ),
        decreases request.messages@.len() - i,
    {
        assert(request.messages@.take(i + 1).drop_last() =~= request.messages@.take(i as int));
        assert(request.messages@.take(i + 1).last() == request.messages@[i as int]);
        let m = &request.messages[i];
        if audited_role(&m.role) {
            let ghost before = parts@;
            parts.push(m.content.clone());
            assert(string_views(parts@) =~= string_views(before).push(m.content@));
            assert(string_views(parts@) =~= head + audited_anthropic_contents(
                request.messages@.take(i as int),
            ).push(m.content@));
        }
        i = i + 1;
    }
    assert(request.messages@.take(i as int) =~= request.messages@);
    join_strings(&parts, "\n")
}

// ---------------------------------------------------------------------------
// Conversions
// ---------------------------------------------------------------------------

/// A message with only a role and a content.
pub open spec fn plain_message(m: OpenAiMessage, role: Seq<char>, content: Seq<char>) -> bool {
    &&& m.role@ == role
    &&& m.content@ == content
    &&& m.name is None
    &&& m.tool_calls is None
    &&& m.tool_call_id is None
}

fn make_message(role: String, content: String) -> (m: OpenAiMessage)
    ensures
        plain_message(m, role@, content@),
{
    OpenAiMessage { role, content, name: None, tool_calls: None, tool_call_id: None }
}

/// The number of messages that the system prompt of `req` adds in front of
/// its messages in the canonical format: 1 with a system prompt, else 0.
pub open spec fn system_offset(req: AnthropicRequest) -> int {
    if req.system is Some {
        1
    } else {
        0
    }
}

/// `r` is the canonical form of the Anthropic request `req`: the model, or
/// `default_model` when the request names none; the system prompt, if any,
/// as a first `system` message; then each message with its role and
/// content; `max_tokens`, `stream` and the temperature carried over; every
/// other option unset.
pub open spec fn canonical_request_of(req: AnthropicRequest, default_model: Seq<char>, r: ChatCompletionRequest) -> bool {
    &&& r.model@ == (if req.model@.len() == 0 {
        default_model
    } else {
        req.model@
    })
    &&& r.messages@.len() == system_offset(req) + req.messages@.len()
    &&& req.system matches Some(sys) ==> plain_message(r.messages@[0], "system"@, sys@)
    &&& forall|i: int|
        #![trigger req.messages@[i]]
        0 <= i < req.messages@.len() ==> plain_message(
            r.messages@[system_offset(req) + i],
            req.messages@[i].role@,
            req.messages@[i].content@,
        )
    &&& r.temperature_bits == req.temperature_bits
    &&& r.max_tokens == Some(req.max_tokens)
    &&& r.stream == req.stream
    &&& r.top_p_bits is None
    &&& r.stop is None
    &&& r.presence_penalty_bits is None
    &&& r.frequency_penalty_bits is None
    &&& r.user is None
}

/// Converts an Anthropic request to the canonical format (see
/// [`canonical_request_of`]).
pub fn anthropic_to_openai(req: AnthropicRequest, default_model: &str) -> (r: ChatCompletionRequest)
    ensures
        canonical_request_of(req, default_model@, r),
{
    let model = if req.model.as_str().is_empty() {
        default_model.to_string()
    } else {
        req.model.clone()
    };
    let mut messages: Vec<OpenAiMessage> = Vec::new();
    let off: usize = match &req.system {
        Some(system) => {
            messages.push(make_message("system".to_string(), system.clone()));
            1
        },
        None => 0,
    };
    let mut i: usize = 0;
    while i < req.messages.len()
        invariant
            i <= req.messages@.len(),
            off == system_offset(req),
            messages@.len() == off + i,
            req.system matches Some(sys) ==> plain_message(messages@[0], "system"@, sys@),
            forall|k: int|
                #![trigger req.messages@[k]]
                0 <= k < i ==> plain_message(
                    messages@[off + k],
                    req.messages@[k].role@,
                    req.messages@[k].content@,
                ),
        decreases req.messages@.len() - i,
    {
        let m = &req.messages[i];
        messages.push(make_message(m.role.clone(), m.content.clone()));
        i = i + 1;
    }
    ChatCompletionRequest {
        model,
        messages,
        temperature_bits: req.temperature_bits,
        top_p_bits: None,
        max_tokens: Some(req.max_tokens),
        stream: req.stream,
        stop: None,
        presence_penalty_bits: None,
        frequency_penalty_bits: None,
        user: None,
    }
}

/// The Anthropic stop reason for an OpenAI finish reason: `stop` becomes
/// `end_turn`, `length` becomes `max_tokens`, `tool_calls` becomes
/// `tool_use`, and any other reason is kept.
pub open spec fn stop_reason_for(finish: Seq<char>) -> Seq<char> {
    if finish == "stop"@ {
        "end_turn"@
    } else if finish == "length"@ {
        "max_tokens"@
    } else if finish == "tool_calls"@ {
        "tool_use"@
    } else {
        finish
    }
}

/// The OpenAI finish reason for an Anthropic stop reason: the inverse of
/// [`stop_reason_for`] on the reasons it renames.
pub open spec fn finish_reason_for(stop: Seq<char>) -> Seq<char> {
    if stop == "end_turn"@ {
        "stop"@
    } else if stop == "max_tokens"@ {
        "length"@
    } else if stop == "tool_use"@ {
        "tool_calls"@
    } else {
        stop
    }
}

fn map_finish_reason(r: &String) -> (s: String)
    ensures
        s@ == stop_reason_for(r@),
{
    let c = chars_of(r.as_str());
    if chars_eq_str(c.as_slice(), "stop") {
        "end_turn".to_string()
    } else if chars_eq_str(c.as_slice(), "length") {
        "max_tokens".to_string()
    } else if chars_eq_str(c.as_slice(), "tool_calls") {
        "tool_use".to_string()
    } else {
        r.clone()
    }
}

fn map_stop_reason(r: &String) -> (s: String)
    ensures
        s@ == finish_reason_for(r@),
{
    let c = chars_of(r.as_str());
    if chars_eq_str(c.as_slice(), "end_turn") {
        "stop".to_string()
    } else if chars_eq_str(c.as_slice(), "max_tokens") {
        "length".to_string()
    } else if chars_eq_str(c.as_slice(), "tool_use") {
        "tool_calls".to_string()
    } else {
        r.clone()
    }
}

/// `r` is the Anthropic form of the canonical response `resp`: one `text`
/// block per choice with the choice's message content; the stop reason of
/// the last choice, renamed; the usage's prompt and completion tokens (0
/// and 0 without usage); id and model carried over.
pub open spec fn anthropic_response_of(resp: ChatCompletionResponse, r: AnthropicResponse) -> bool {
    &&& r.id@ == resp.id@
    &&& r.resp_type@ == "message"@
    &&& r.role@ == "assistant"@
    &&& r.model@ == resp.model@
    &&& r.content@.len() == resp.choices@.len()
    &&& forall|i: int|
        0 <= i < resp.choices@.len() ==> {
            &&& (#[trigger] r.content@[i]).block_type@ == "text"@
            &&& r.content@[i].text matches Some(t) && t@ == resp.choices@[i].message.content@
        }
    &&& match r.stop_reason {
        Some(s) => resp.choices@.len() > 0 && (resp.choices@.last().finish_reason matches Some(
            f,
        ) && s@ == stop_reason_for(f@)),
        None => resp.choices@.len() == 0 || resp.choices@.last().finish_reason is None,
    }
    &&& r.stop_sequence is None
    &&& r.usage.input_tokens == (match resp.usage {
        Some(u) => u.prompt_tokens,
        None => 0,
    })
    &&& r.usage.output_tokens == (match resp.usage {
        Some(u) => u.completion_tokens,
        None => 0,
    })
}

/// Converts a canonical response to the Anthropic format (see
/// [`anthropic_response_of`]).
pub fn openai_to_anthropic(resp: ChatCompletionResponse) -> (r: AnthropicResponse)
    ensures
        anthropic_response_of(resp, r),
{
    let mut content: Vec<AnthropicContentBlock> = Vec::new();
    let mut stop_reason: Option<String> = None;
    let mut i: usize = 0;
    while i < resp.choices.len()
        invariant
            i <= resp.choices@.len(),
            content@.len() == i,
            forall|k: int|
                0 <= k < i ==> {
                    &&& (#[trigger] content@[k]).block_type@ == "text"@
                    &&& content@[k].text matches Some(t) && t@ == resp.choices@[k].message.content@
                },
            match stop_reason {
                Some(s) => i > 0 && (resp.choices@[i - 1].finish_reason matches Some(f) && s@
                    == stop_reason_for(f@)),
                None => i == 0 || resp.choices@[i - 1].finish_reason is None,
            },
        decreases resp.choices@.len() - i,
    {
        let choice = &resp.choices[i];
        content.push(
            AnthropicContentBlock {
                block_type: "text".to_string(),
                text: Some(choice.message.content.clone()),
            },
        );
        stop_reason = match &choice.finish_reason {
            Some(r) => Some(map_finish_reason(r)),
            None => None,
        };
        i = i + 1;
    }
    let (input_tokens, output_tokens) = match resp.usage {
        Some(u) => (u.prompt_tokens, u.completion_tokens),
        None => (0, 0),
    };
    AnthropicResponse {
        id: resp.id,
        resp_type: "message".to_string(),
        role: "assistant".to_string(),
        content,
        model: resp.model,
        stop_reason,
        stop_sequence: None,
        usage: AnthropicUsage { input_tokens, output_tokens },
    }
}

/// The `max_tokens` sent to an Anthropic upstream when the canonical
/// request sets none.
pub open spec fn default_anthropic_max_tokens() -> u32 {
    4096
}

/// The contents of the system messages, in order.
pub open spec fn system_contents(messages: Seq<OpenAiMessage>) -> Seq<Seq<char>>
    decreases messages.len(),
{
    if messages.len() == 0 {
        Seq::empty()
    } else {
        let rest = system_contents(messages.drop_last());
        if messages.last().role@ == "system"@ {
            rest.push(messages.last().content@)
        } else {
            rest
        }
    }
}

/// The messages that are not system messages, in order.
pub open spec fn conversation(messages: Seq<OpenAiMessage>) -> Seq<OpenAiMessage>
    decreases messages.len(),
{
    if messages.len() == 0 {
        Seq::empty()
    } else {
        let rest = conversation(messages.drop_last());
        if messages.last().role@ == "system"@ {
            rest
        } else {
            rest.push(messages.last())
        }
    }
}

/// `r` is the Anthropic form of the canonical request `req`: the system
/// messages' contents joined by newlines become the system prompt (none
/// without system messages), the other messages keep their role and
/// content, `max_tokens` defaults to 4096, and the model, `stream` and
/// temperature are carried over.
pub open spec fn anthropic_request_of(req: ChatCompletionRequest, r: AnthropicRequest) -> bool {
    &&& anthropic_request_fields(req, r)
    &&& r.stream == req.stream
}

/// What [`anthropic_request_of`] says of every field but `stream`.
pub open spec fn anthropic_request_fields(req: ChatCompletionRequest, r: AnthropicRequest) -> bool {
    &&& r.model@ == req.model@
    &&& r.max_tokens == (match req.max_tokens {
        Some(m) => m,
        None => default_anthropic_max_tokens(),
    })
    &&& r.system matches Some(s) ==> s@ == join(system_contents(req.messages@), "\n"@)
    &&& r.system is None <==> system_contents(req.messages@).len() == 0
    &&& r.messages@.len() == conversation(req.messages@).len()
    &&& forall|i: int|
        0 <= i < r.messages@.len() ==> {
            &&& (#[trigger] r.messages@[i]).role@ == conversation(req.messages@)[i].role@
            &&& r.messages@[i].content@ == conversation(req.messages@)[i].content@
        }
    &&& r.temperature_bits == req.temperature_bits
}

/// Converts a canonical request to the Anthropic format for an Anthropic
/// upstream (see [`anthropic_request_of`]).
pub fn openai_to_anthropic_request(req: &ChatCompletionRequest) -> (r: AnthropicRequest)
    ensures
        anthropic_request_of(*req, r),
{
    let mut systems: Vec<String> = Vec::new();
    let mut messages: Vec<AnthropicMsg> = Vec::new();
    let mut i: usize = 0;
    while i < req.messages.len()
        invariant
            i <= req.messages@.len(),
            string_views(systems@) == system_contents(req.messages@.take(i as int)),
            messages@.len() == conversation(req.messages@.take(i as int)).len(),
            forall|k: int|
                0 <= k < messages@.len() ==> {
                    &&& (#[trigger] messages@[k]).role@ == conversation(
                        req.messages@.take(i as int),
                    )[k].role@
                    &&& messages@[k].content@ == conversation(req.messages@.take(i as int))[k].content@
                },
        decreases req.messages@.len() - i,
    {
        assert(req.messages@.take(i + 1).drop_last() =~= req.messages@.take(i as int));
        assert(req.messages@.take(i + 1).last() == req.messages@[i as int]);
        let m = &req.messages[i];
        let role = chars_of(m.role.as_str());
        if chars_eq_str(role.as_slice(), "system") {
            systems.push(m.content.clone());
            assert(string_views(systems@) =~= system_contents(
                req.messages@.take(i as int),
            ).push(m.content@));
        } else {
            messages.push(AnthropicMsg { role: m.role.clone(), content: m.content.clone() });
        }
        i = i + 1;
    }
    assert(req.messages@.take(i as int) =~= req.messages@);
    let system = if systems.len() == 0 {
        None
    } else {
        Some(join_strings(&systems, "\n"))
    };
    let max_tokens = match req.max_tokens {
        Some(m) => m,
        None => 4096,
    };
    AnthropicRequest {
        model: req.model.clone(),
        max_tokens,
        messages,
        system,
        stream: req.stream,
        temperature_bits: req.temperature_bits,
    }
}

/// `r` is the canonical form of the Anthropic response `resp`: one choice
/// with index 0, an `assistant` message whose content is the texts of the
/// content blocks concatenated, and the stop reason renamed back; usage
/// from the input and output tokens, with their sum (saturating) as total;
/// object `chat.completion`; creation time 0, since the Anthropic format
/// carries none.
pub open spec fn canonical_response_of(resp: AnthropicResponse, r: ChatCompletionResponse) -> bool {
    &&& r.id@ == resp.id@
    &&& r.object@ == "chat.completion"@
    &&& r.created == 0
    &&& r.model@ == resp.model@
    &&& r.choices@.len() == 1
    &&& r.choices@[0].index == 0
    &&& plain_message(r.choices@[0].message, "assistant"@, concat_all(block_texts(resp.content@)))
    &&& match r.choices@[0].finish_reason {
        Some(f) => resp.stop_reason matches Some(s) && f@ == finish_reason_for(s@),
        None => resp.stop_reason is None,
    }
    &&& r.usage matches Some(u) && u.prompt_tokens == resp.usage.input_tokens
        && u.completion_tokens == resp.usage.output_tokens && u.total_tokens == (if resp.usage.input_tokens
        + resp.usage.output_tokens <= u32::MAX {
        (resp.usage.input_tokens + resp.usage.output_tokens) as u32
    } else {
        u32::MAX
    })
    &&& r.system_fingerprint is None
}

/// The Anthropic body of a canonical request sent upstream: as
/// [`openai_to_anthropic_request`] gives it, with streaming switched on when
/// the relay streams the answer.
pub fn anthropic_upstream_body(req: &ChatCompletionRequest, stream: bool) -> (r: AnthropicRequest)
    ensures
        anthropic_request_fields(*req, r),
        r.stream == (if stream {
            Some(true)
        } else {
            req.stream
        }),
{
    let mut r = openai_to_anthropic_request(req);
    if stream {
        r.stream = Some(true);
    }
    r
}

/// Converts an Anthropic response to the canonical format (see
/// [`canonical_response_of`]).
pub fn anthropic_response_to_openai(resp: &AnthropicResponse) -> (r: ChatCompletionResponse)
    ensures
        canonical_response_of(*resp, r),
{
    let mut parts: Vec<String> = Vec::new();
    let mut i: usize = 0;
    while i < resp.content.len()
        invariant
            i <= resp.content@.len(),
            string_views(parts@) == block_texts(resp.content@.take(i as int)),
        decreases resp.content@.len() - i,
    {
        assert(resp.content@.take(i + 1).drop_last() =~= resp.content@.take(i as int));
        assert(resp.content@.take(i + 1).last() == resp.content@[i as int]);
        match &resp.content[i].text {
            Some(t) => {
                parts.push(t.clone());
                assert(string_views(parts@) =~= block_texts(
                    resp.content@.take(i as int),
                ).push(t@));
            },
            None => {},
        }
        i = i + 1;
    }
    assert(resp.content@.take(i as int) =~= resp.content@);
    let content = concat_strings(&parts);
    let finish_reason = match &resp.stop_reason {
        Some(s) => Some(map_stop_reason(s)),
        None => None,
    };
    let total = resp.usage.input_tokens.saturating_add(resp.usage.output_tokens);
    let mut choices: Vec<Choice> = Vec::new();
    choices.push(
        Choice {
            index: 0,
            message: make_message("assistant".to_string(), content),
            finish_reason,
        },
    );
    ChatCompletionResponse {
        id: resp.id.clone(),
        object: "chat.completion".to_string(),
        created: 0,
        model: resp.model.clone(),
        choices,
        usage: Some(
            Usage {
                prompt_tokens: resp.usage.input_tokens,
                completion_tokens: resp.usage.output_tokens,
                total_tokens: total,
            },
        ),
        system_fingerprint: None,
    }
}

// ---------------------------------------------------------------------------
// Laws of the conversions
// ---------------------------------------------------------------------------

/// Renaming a finish reason to a stop reason and back gives the finish
/// reason again, unless it already carries one of the Anthropic names that
/// the renaming produces; and the other way round.
pub proof fn lemma_reason_renaming_inverse(finish: Seq<char>, stop: Seq<char>)
    ensures
        finish != "end_turn"@ && finish != "max_tokens"@ && finish != "tool_use"@
            ==> finish_reason_for(stop_reason_for(finish)) == finish,
        stop != "stop"@ && stop != "length"@ && stop != "tool_calls"@
            ==> stop_reason_for(finish_reason_for(stop)) == stop,
{
    reveal_strlit("stop");
    reveal_strlit("length");
    reveal_strlit("tool_calls");
    reveal_strlit("end_turn");
    reveal_strlit("max_tokens");
    reveal_strlit("tool_use");
    assert("stop"@ != "end_turn"@ && "stop"@ != "max_tokens"@ && "stop"@ != "tool_use"@) by {
        assert("stop"@.len() == 4);
    }
    assert("length"@ != "end_turn"@ && "length"@ != "max_tokens"@ && "length"@ != "tool_use"@) by {
        assert("length"@.len() == 6);
    }
    assert("tool_calls"@ != "end_turn"@ && "tool_calls"@ != "tool_use"@) by {
        assert("tool_calls"@.len() == 10);
    }
    assert("tool_calls"@ != "max_tokens"@) by {
        assert("tool_calls"@[0] != "max_tokens"@[0]);
    }
    assert("stop"@ != "length"@ && "stop"@ != "tool_calls"@ && "length"@ != "tool_calls"@);
    assert("end_turn"@ != "max_tokens"@ && "end_turn"@ != "tool_use"@ && "max_tokens"@ != "tool_use"@) by {
        assert("end_turn"@.len() == 8);
        assert("max_tokens"@.len() == 10);
        assert("end_turn"@[0] != "tool_use"@[0]);
    }
}

/// In a message list that holds at most one system message, at its front,
/// the system contents are that message's content and the conversation is
/// the rest.
proof fn lemma_split_leading_system(msgs: Seq<OpenAiMessage>, off: int)
    requires
        off == 0 || off == 1,
        off <= msgs.len(),
        off == 1 ==> msgs[0].role@ == "system"@,
        forall|i: int| off <= i < msgs.len() ==> (#[trigger] msgs[i]).role@ != "system"@,
    ensures
        system_contents(msgs) == (if off == 1 {
            seq![msgs[0].content@]
        } else {
            Seq::<Seq<char>>::empty()
        }),
        conversation(msgs) == msgs.subrange(off, msgs.len() as int),
    decreases msgs.len(),
{
    if msgs.len() == off {
        if off == 1 {
            assert(msgs.drop_last() =~= Seq::<OpenAiMessage>::empty());
            assert(system_contents(msgs.drop_last()) =~= Seq::<Seq<char>>::empty());
            assert(conversation(msgs.drop_last()) =~= Seq::<OpenAiMessage>::empty());
        }
        assert(msgs.subrange(off, msgs.len() as int) =~= Seq::<OpenAiMessage>::empty());
    } else {
        let init = msgs.drop_last();
        assert(off == 1 ==> init[0] == msgs[0]);
        assert forall|i: int| off <= i < init.len() implies (#[trigger] init[i]).role@ != "system"@ by {
            assert(init[i] == msgs[i]);
        }
        lemma_split_leading_system(init, off);
        assert(msgs.last() == msgs[msgs.len() - 1]);
        assert(msgs.subrange(off, msgs.len() as int) =~= init.subrange(off, init.len() as int).push(
            msgs.last(),
        ));
    }
}

/// Converting an Anthropic request to the canonical format and back gives
/// the request again (with the default model where it named none), when
/// none of its messages has the role `system`: the model, `max_tokens`,
/// the system prompt, each message's role and content, `stream` and the
/// temperature come back unchanged.
pub proof fn lemma_anthropic_request_round_trip(
    req: AnthropicRequest,
    default_model: Seq<char>,
    canonical: ChatCompletionRequest,
    back: AnthropicRequest,
)
    requires
        forall|i: int| 0 <= i < req.messages@.len() ==> (#[trigger] req.messages@[i]).role@ != "system"@,
        canonical_request_of(req, default_model, canonical),
        anthropic_request_of(canonical, back),
    ensures
        back.model@ == (if req.model@.len() == 0 {
            default_model
        } else {
            req.model@
        }),
        back.max_tokens == req.max_tokens,
        back.system is Some <==> req.system is Some,
        req.system matches Some(s) ==> back.system->0@ == s@,
        back.messages@.len() == req.messages@.len(),
        forall|i: int|
            0 <= i < req.messages@.len() ==> (#[trigger] back.messages@[i]).role@
                == req.messages@[i].role@ && back.messages@[i].content@ == req.messages@[i].content@,
        back.stream == req.stream,
        back.temperature_bits == req.temperature_bits,
{
    reveal_strlit("system");
    let msgs = canonical.messages@;
    let off = system_offset(req);
    assert forall|i: int| off <= i < msgs.len() implies (#[trigger] msgs[i]).role@ != "system"@ by {
        let j = i - off;
        assert(req.messages@[j].role@ != "system"@);
        assert(msgs[off + j] == msgs[i]);
    }
    lemma_split_leading_system(msgs, off);
    if off == 1 {
        assert(join(seq![msgs[0].content@], "\n"@) == msgs[0].content@);
    }
    assert forall|i: int| 0 <= i < req.messages@.len() implies (#[trigger] back.messages@[i]).role@
        == req.messages@[i].role@ && back.messages@[i].content@ == req.messages@[i].content@ by {
        assert(conversation(msgs)[i] == msgs[off + i]);
        assert(req.messages@[i].role@ != "system"@);
    }
}

/// Converting an Anthropic response to the canonical format and back keeps
/// its id, model and token counts and its stop reason (unless that reason
/// carries one of the OpenAI finish names `stop`, `length`, `tool_calls`),
/// and gives one `text` block holding the texts of its blocks, concatenated.
pub proof fn lemma_anthropic_response_round_trip(
    resp: AnthropicResponse,
    canonical: ChatCompletionResponse,
    back: AnthropicResponse,
)
    requires
        resp.stop_reason matches Some(s) ==> s@ != "stop"@ && s@ != "length"@ && s@ != "tool_calls"@,
        canonical_response_of(resp, canonical),
        anthropic_response_of(canonical, back),
    ensures
        back.id@ == resp.id@,
        back.model@ == resp.model@,
        back.usage.input_tokens == resp.usage.input_tokens,
        back.usage.output_tokens == resp.usage.output_tokens,
        back.stop_reason is Some <==> resp.stop_reason is Some,
        resp.stop_reason matches Some(s) ==> back.stop_reason->0@ == s@,
        back.content@.len() == 1,
        back.content@[0].block_type@ == "text"@,
        back.content@[0].text matches Some(t) && t@ == concat_all(block_texts(resp.content@)),
{
    assert(canonical.choices@.last() == canonical.choices@[0]);
    match resp.stop_reason {
        Some(s) => {
            lemma_reason_renaming_inverse(Seq::empty(), s@);
        },
        None => {},
    }
}

/// Converting a canonical response with one choice to the Anthropic format
/// and back keeps its id and model, the choice's content, its finish reason
/// (unless that reason carries one of the Anthropic names `end_turn`,
/// `max_tokens`, `tool_use`) and the prompt and completion token counts.
pub proof fn lemma_canonical_response_round_trip(
    resp: ChatCompletionResponse,
    anthropic: AnthropicResponse,
    back: ChatCompletionResponse,
)
    requires
        resp.choices@.len() == 1,
        resp.choices@[0].finish_reason matches Some(f) ==> f@ != "end_turn"@ && f@ != "max_tokens"@
            && f@ != "tool_use"@,
        anthropic_response_of(resp, anthropic),
        canonical_response_of(anthropic, back),
    ensures
        back.id@ == resp.id@,
        back.model@ == resp.model@,
        back.choices@.len() == 1,
        back.choices@[0].message.content@ == resp.choices@[0].message.content@,
        back.choices@[0].finish_reason is Some <==> resp.choices@[0].finish_reason is Some,
        resp.choices@[0].finish_reason matches Some(f) ==> back.choices@[0].finish_reason->0@ == f@,
        back.usage matches Some(u) && u.prompt_tokens == (match resp.usage {
            Some(v) => v.prompt_tokens,
            None => 0,
        }) && u.completion_tokens == (match resp.usage {
            Some(v) => v.completion_tokens,
            None => 0,
        }),
{
    assert(resp.choices@.last() == resp.choices@[0]);
    let blocks = anthropic.content@;
    assert(blocks.drop_last() =~= Seq::<AnthropicContentBlock>::empty());
    assert(block_texts(blocks.drop_last()) =~= Seq::<Seq<char>>::empty());
    assert(block_texts(blocks) =~= seq![resp.choices@[0].message.content@]);
    assert(block_texts(blocks).drop_last() =~= Seq::<Seq<char>>::empty());
    let bt = block_texts(blocks);
    assert(bt.last() == resp.choices@[0].message.content@);
    assert(concat_all(bt.drop_last()) =~= Seq::<char>::empty());
    assert(Seq::<char>::empty() + resp.choices@[0].message.content@ =~= resp.choices@[0].message.content@);
    assert(concat_all(block_texts(blocks)) =~= resp.choices@[0].message.content@);
    match resp.choices@[0].finish_reason {
        Some(f) => {
            lemma_reason_renaming_inverse(f@, Seq::empty());
        },
        None => {},
    }
}

} // verus!
