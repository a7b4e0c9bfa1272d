# LLM Shadow Relay

An audited LLM API proxy: it sits between clients and LLM providers, audits
requests and responses with a trusted model, and enforces a policy on the
audit's decisions.  It speaks both the OpenAI and the Anthropic formats, on
either side.

## Layout

- `src/` — the verified library (Verus):
  - `sse.rs` — the incremental Server-Sent-Events parser; its events do not
    depend on how the byte stream is cut into chunks.
  - `protocol.rs` — the canonical (OpenAI) and Anthropic message types, the
    conversions between them, and the text each audit reads.
  - `audit.rs` — the audit engine: prompts, request bodies and endpoints of
    the audit model, reading its answers, the blocking policy, and the
    decision enforced when secondary audit agents audit beside it.
  - `stream.rs` — the audit state of one streamed response, and what is
    sent to the client for each upstream event.
  - `flow.rs` — the course of one non-streamed request: audited, forwarded,
    then answered as the audit mode and the answer's audit say.
  - `proxy.rs` — upstream authentication, header forwarding, timeouts,
    retries and backoff, request ids, and the answers given to clients.
  - `config.rs` — configuration types and the registry of named upstreams.
  - `error.rs`, `json.rs`, `text.rs`, `webui.rs` — errors and their HTTP
    form, JSON documents as the library reads them, text helpers, and the
    embedded web console.
- `tests/` — tests of the library.
- `app/` — the server: configuration loading, HTTP routes, outbound calls,
  and the JSON forms of the library's types.
