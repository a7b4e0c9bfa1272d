//! Error and audit decision types.
use vstd::prelude::*;
use crate::text::{concat3, push_str, string_from_chars};

verus! {

/// The lower-case hexadecimal digit of `n` (from 0 to 15).
pub open spec fn hex_digit(n: int) -> char {
    if n < 10 {
        (48 + n) as char
    } else {
        (87 + n) as char
    }
}

/// How `serde_json` writes one character inside a string literal: a quote
/// and a backslash behind a backslash; backspace, tab, line feed, form
/// feed and carriage return as `\b`, `\t`, `\n`, `\f`, `\r`; any other
/// character below U+0020 as `\u00` and two lower-case hexadecimal digits;
/// every other character as itself.
pub open spec fn json_escape(c: char) -> Seq<char> {
    let u = c as u32;
    if c == '"' {
        seq!['\\', '"']
    } else if c == '\\' {
        seq!['\\', '\\']
    } else if u == 0x08 {
        seq!['\\', 'b']
    } else if u == 0x09 {
        seq!['\\', 't']
    } else if u == 0x0a {
        seq!['\\', 'n']
    } else if u == 0x0c {
        seq!['\\', 'f']
    } else if u == 0x0d {
        seq!['\\', 'r']
    } else if u < 0x20 {
        seq!['\\', 'u', '0', '0', hex_digit(u as int / 16), hex_digit(u as int % 16)]
    } else {
        seq![c]
    }
}

/// The escaped characters of `s`, in order.
pub open spec fn json_escaped(s: Seq<char>) -> Seq<char>
    decreases s.len(),
{
    if s.len() == 0 {
        Seq::empty()
    } else {
        json_escaped(s.drop_last()) + json_escape(s.last())
    }
}

/// The JSON text of a string value, as `serde_json` writes it: the escaped
/// characters between double quotes.
pub open spec fn json_string_literal(s: Seq<char>) -> Seq<char> {
    seq!['"'] + json_escaped(s) + seq!['"']
}

/// The JSON string literal for `s`.
///
/// Trusted: `serde_json::to_string` on a `&str` writes `"`, then each
/// character as its escape table gives it (see [`json_escape`]), then `"`.
/// Writing into a `String` cannot fail, so the `Err` arm is never taken.
#[verifier::external_body]
pub fn json_quoted(s: &str) -> (r: String)
    ensures
        r@ == json_string_literal(s@),
{
    match serde_json::to_string(s) {
        Ok(t) => t,
        Err(_) => String::new(),
    }
}

/// The JSON error object `{"error":{"message":<m>,"type":<t>}}` around the
/// JSON string literals `m` and `t`, written compactly with the keys in
/// this order, as `serde_json` writes such an object.
pub open spec fn error_object_text(quoted_message: Seq<char>, quoted_type: Seq<char>) -> Seq<char> {
    "{\"error\":{\"message\":"@ + quoted_message + ",\"type\":"@ + quoted_type + "}}"@
}

/// The JSON error object that the relay answers with, for `message` and
/// `error_type`.
pub open spec fn error_payload_text(message: Seq<char>, error_type: Seq<char>) -> Seq<char> {
    error_object_text(json_string_literal(message), json_string_literal(error_type))
}

/// Writes the JSON error object around two JSON string literals.
pub fn error_object(quoted_message: &str, quoted_type: &str) -> (r: String)
    ensures
        r@ == error_object_text(quoted_message@, quoted_type@),
{
    let mut v: Vec<char> = Vec::new();
    push_str(&mut v, "{\"error\":{\"message\":");
    push_str(&mut v, quoted_message);
    push_str(&mut v, ",\"type\":");
    push_str(&mut v, quoted_type);
    push_str(&mut v, "}}");
    string_from_chars(v.as_slice())
}

/// Writes the JSON error object for `message` and `error_type`.
pub fn error_payload(message: &str, error_type: &str) -> (r: String)
    ensures
        r@ == error_payload_text(message@, error_type@),
{
    let m = json_quoted(message);
    let t = json_quoted(error_type);
    error_object(m.as_str(), t.as_str())
}

/// Main error type of the relay.  Errors that come from other libraries
/// (configuration loading, HTTP, JSON, I/O) carry their message.
#[derive(Debug)]
pub enum Error {
    /// Configuration error
    Config(String),
    /// HTTP request error
    HttpRequest(String),
    /// Invalid client request
    InvalidRequest(String),
    /// Upstream API error (status code and message)
    UpstreamApi(u16, String),
    /// Audit failed
    AuditFailed(String),
    /// Audit blocked (content rejected)
    AuditBlocked(String),
    /// Invalid response from upstream
    InvalidResponse(String),
    /// JSON serialization error
    Json(String),
    /// IO error
    Io(String),
}

/// The decimal digits of `n`.
pub open spec fn decimal(n: nat) -> Seq<char>
    decreases n,
{
    if n < 10 {
        seq![digit_char(n)]
    } else {
        decimal(n / 10).push(digit_char(n % 10))
    }
}

/// The character of a digit.
pub open spec fn digit_char(d: nat) -> char {
    if d == 0 {
        '0'
    } else if d == 1 {
        '1'
    } else if d == 2 {
        '2'
    } else if d == 3 {
        '3'
    } else if d == 4 {
        '4'
    } else if d == 5 {
        '5'
    } else if d == 6 {
        '6'
    } else if d == 7 {
        '7'
    } else if d == 8 {
        '8'
    } else {
        '9'
    }
}

fn digit(d: u64) -> (c: char)
    requires
        d < 10,
    ensures
        c == digit_char(d as nat),
{
    if d == 0 {
        '0'
    } else if d == 1 {
        '1'
    } else if d == 2 {
        '2'
    } else if d == 3 {
        '3'
    } else if d == 4 {
        '4'
    } else if d == 5 {
        '5'
    } else if d == 6 {
        '6'
    } else if d == 7 {
        '7'
    } else if d == 8 {
        '8'
    } else {
        '9'
    }
}

/// The decimal text of `n`, as `Display` writes an unsigned integer.
pub fn decimal_text(n: u64) -> (s: String)
    ensures
        s@ == decimal(n as nat),
    decreases n,
{
    if n < 10 {
        let v: Vec<char> = vec![digit(n)];
        string_from_chars(v.as_slice())
    } else {
        let head = decimal_text(n / 10);
        let mut v: Vec<char> = crate::text::chars_of(head.as_str());
        v.push(digit(n % 10));
        string_from_chars(v.as_slice())
    }
}

/// The status code an error answers with: the upstream status when it is a
/// valid HTTP status (100 to 999), else 502 for upstream, HTTP and response
/// problems; 400 for invalid requests; 403 for blocked content; 500 for the
/// rest.
pub open spec fn error_status(e: Error) -> u16 {
    match e {
        Error::Config(_) => 500,
        Error::HttpRequest(_) => 502,
        Error::InvalidRequest(_) => 400,
        Error::UpstreamApi(s, _) => if 100 <= s < 1000 {
            s
        } else {
            502
        },
        Error::AuditFailed(_) => 500,
        Error::AuditBlocked(_) => 403,
        Error::InvalidResponse(_) => 502,
        Error::Json(_) => 500,
        Error::Io(_) => 500,
    }
}

/// The message an error carries.
pub open spec fn error_detail(e: Error) -> Seq<char> {
    match e {
        Error::Config(m) => m@,
        Error::HttpRequest(m) => m@,
        Error::InvalidRequest(m) => m@,
        Error::UpstreamApi(_, m) => m@,
        Error::AuditFailed(m) => m@,
        Error::AuditBlocked(m) => m@,
        Error::InvalidResponse(m) => m@,
        Error::Json(m) => m@,
        Error::Io(m) => m@,
    }
}

/// The one-line description of an error, as its `Display` reads.
pub open spec fn error_text(e: Error) -> Seq<char> {
    match e {
        Error::Config(m) => "Configuration error: "@ + m@,
        Error::HttpRequest(m) => "HTTP request failed: "@ + m@,
        Error::InvalidRequest(m) => "Invalid request: "@ + m@,
        Error::UpstreamApi(s, m) => "Upstream API error: "@ + decimal(s as nat) + " - "@ + m@,
        Error::AuditFailed(m) => "Audit failed: "@ + m@,
        Error::AuditBlocked(m) => "Audit blocked: "@ + m@,
        Error::InvalidResponse(m) => "Invalid response: "@ + m@,
        Error::Json(m) => "JSON error: "@ + m@,
        Error::Io(m) => "IO error: "@ + m@,
    }
}

impl Error {
    /// The status code and message of the HTTP answer for this error.
    pub fn status_and_message(&self) -> (r: (u16, String))
        ensures
            r.0 == error_status(*self),
            r.1@ == error_detail(*self),
    {
        match self {
            Error::Config(m) => (500, m.clone()),
            Error::HttpRequest(m) => (502, m.clone()),
            Error::InvalidRequest(m) => (400, m.clone()),
            Error::UpstreamApi(s, m) => {
                let status = if 100 <= *s && *s < 1000 {
                    *s
                } else {
                    502
                };
                (status, m.clone())
            },
            Error::AuditFailed(m) => (500, m.clone()),
            Error::AuditBlocked(m) => (403, m.clone()),
            Error::InvalidResponse(m) => (502, m.clone()),
            Error::Json(m) => (500, m.clone()),
            Error::Io(m) => (500, m.clone()),
        }
    }

    /// The JSON body of the HTTP answer for this error.
    pub fn response_body(&self) -> (r: String)
        ensures
            r@ == error_payload_text(error_detail(*self), "llm_shadow_error"@),
    {
        let (_, m) = self.status_and_message();
        error_payload(m.as_str(), "llm_shadow_error")
    }

    /// The one-line description of this error.
    pub fn to_text(&self) -> (r: String)
        ensures
            r@ == error_text(*self),
    {
        proof {
            reveal_strlit("");
        }
        assert(forall|x: Seq<char>| x + ""@ =~= x);
        match self {
            Error::Config(m) => concat3("Configuration error: ", m.as_str(), ""),
            Error::HttpRequest(m) => concat3("HTTP request failed: ", m.as_str(), ""),
            Error::InvalidRequest(m) => concat3("Invalid request: ", m.as_str(), ""),
            Error::UpstreamApi(s, m) => {
                let d = decimal_text(*s as u64);
                let head = concat3("Upstream API error: ", d.as_str(), " - ");
                concat3(head.as_str(), m.as_str(), "")
            },
            Error::AuditFailed(m) => concat3("Audit failed: ", m.as_str(), ""),
            Error::AuditBlocked(m) => concat3("Audit blocked: ", m.as_str(), ""),
            Error::InvalidResponse(m) => concat3("Invalid response: ", m.as_str(), ""),
            Error::Json(m) => concat3("JSON error: ", m.as_str(), ""),
            Error::Io(m) => concat3("IO error: ", m.as_str(), ""),
        }
    }
}

/// A finding of the audit model.
#[derive(Debug)]
pub struct AuditFinding {
    pub category: String,
    pub severity: String,
    pub description: String,
    pub evidence: Option<String>,
}

/// An audit decision.  The risk score is carried as the IEEE-754 bit
/// pattern of its `f32` value.
#[derive(Debug)]
pub struct AuditDecision {
    pub allowed: bool,
    pub risk_level: String,
    pub risk_score_bits: u32,
    pub findings: Vec<AuditFinding>,
    pub blocked_reason: Option<String>,
}

impl AuditDecision {
    /// A decision that allows the content: risk `none`, score 0, no
    /// findings, no reason.
    pub fn pass() -> (d: Self)
        ensures
            d.allowed,
            d.risk_level@ == "none"@,
            d.risk_score_bits == 0,
            d.findings@.len() == 0,
            d.blocked_reason is None,
    {
        AuditDecision {
            allowed: true,
            risk_level: "none".to_string(),
            risk_score_bits: 0,
            findings: Vec::new(),
            blocked_reason: None,
        }
    }

    /// A decision that blocks the content for `reason`.
    pub fn block(reason: &str, risk_level: &str, risk_score_bits: u32) -> (d: Self)
        ensures
            !d.allowed,
            d.risk_level@ == risk_level@,
            d.risk_score_bits == risk_score_bits,
            d.findings@.len() == 0,
            d.blocked_reason matches Some(r) && r@ == reason@,
    {
        AuditDecision {
            allowed: false,
            risk_level: risk_level.to_string(),
            risk_score_bits,
            findings: Vec::new(),
            blocked_reason: Some(reason.to_string()),
        }
    }
}

} // verus!
