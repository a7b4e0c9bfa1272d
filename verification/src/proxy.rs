//! Decisions of the proxy: upstream authentication, header forwarding,
//! timeouts and retries, request ids, and what a client is answered.
//!
//! Inbound request headers are given as (lower-case name, text) pairs in
//! the order the client sent them; the text is `None` when the value is not
//! visible ASCII text.
use vstd::prelude::*;
use crate::config::{UpstreamConfig, UpstreamProtocol, UpstreamRegistry, same_upstream};
use crate::error::{Error, AuditDecision, error_payload, error_payload_text};
use crate::text::{
    chars_of, chars_eq_str, starts_with_chars, trimmed, trim, string_from_chars, sub_chars, concat3,
};

verus! {

// ---------------------------------------------------------------------------
// Headers and authentication
// ---------------------------------------------------------------------------

/// The text of the first header named `name`, as `HeaderMap::get` followed
/// by `HeaderValue::to_str` reads it.
pub open spec fn header_text(h: Seq<(String, Option<String>)>, name: Seq<char>) -> Option<Seq<char>>
    decreases h.len(),
{
    if h.len() == 0 {
        None
    } else if h[0].0@ == name {
        match h[0].1 {
            Some(v) => Some(v@),
            None => None,
        }
    } else {
        header_text(h.drop_first(), name)
    }
}

/// The text of the first header named `name`.
pub fn find_header(h: &Vec<(String, Option<String>)>, name: &str) -> (r: Option<String>)
    ensures
        match r {
            Some(v) => header_text(h@, name@) == Some(v@),
            None => header_text(h@, name@) is None,
        },
{
    let want = chars_of(name);
    let mut i: usize = 0;
    assert(h@.skip(0) =~= h@);
    while i < h.len()
        invariant
            i <= h@.len(),
            want@ == name@,
            header_text(h@, name@) == header_text(h@.skip(i as int), name@),
        decreases h@.len() - i,
    {
        assert(h@.skip(i as int).drop_first() =~= h@.skip(i + 1));
        assert(h@.skip(i as int)[0] == h@[i as int]);
        let have = chars_of(h[i].0.as_str());
        if crate::text::chars_eq(have.as_slice(), want.as_slice()) {
            return match &h[i].1 {
                Some(v) => Some(v.clone()),
                None => None,
            };
        }
        i = i + 1;
    }
    assert(h@.skip(i as int) =~= Seq::<(String, Option<String>)>::empty());
    None
}

/// `s` begins with `p`.
pub open spec fn starts_with(s: Seq<char>, p: Seq<char>) -> bool {
    p.len() <= s.len() && s.take(p.len() as int) == p
}

/// The token of an `Authorization` header of the form `Bearer <token>` or
/// `bearer <token>`, with surrounding white space removed; none when the
/// header has another form or the token is empty.
pub open spec fn bearer_token(header: Seq<char>) -> Option<Seq<char>> {
    let t = trim(header);
    if starts_with(t, "Bearer "@) || starts_with(t, "bearer "@) {
        let token = trim(t.skip(7));
        if token.len() > 0 {
            Some(token)
        } else {
            None
        }
    } else {
        None
    }
}

/// `Some(trim(v))` when that is not empty.
pub open spec fn nonblank(v: Option<Seq<char>>) -> Option<Seq<char>> {
    match v {
        Some(t) => if trim(t).len() > 0 {
            Some(trim(t))
        } else {
            None
        },
        None => None,
    }
}

/// The credential sent upstream.  A configured, non-blank key wins: as
/// `Bearer <key>` for OpenAI, as the bare key for Anthropic.  Otherwise the
/// client's own credential is passed through: its `authorization` header
/// for OpenAI; for Anthropic its `x-api-key` header, or else the token of
/// its `Bearer` authorization.  Values are trimmed, and blank ones count as
/// absent.
pub open spec fn upstream_auth(
    api_key: Option<Seq<char>>,
    protocol: UpstreamProtocol,
    inbound: Option<Seq<(String, Option<String>)>>,
) -> Option<Seq<char>> {
    match nonblank(api_key) {
        Some(k) => Some(
            match protocol {
                UpstreamProtocol::OpenAi => "Bearer "@ + k,
                UpstreamProtocol::Anthropic => k,
            },
        ),
        None => match inbound {
            None => None,
            Some(h) => match protocol {
                UpstreamProtocol::OpenAi => nonblank(header_text(h, "authorization"@)),
                UpstreamProtocol::Anthropic => match nonblank(header_text(h, "x-api-key"@)) {
                    Some(k) => Some(k),
                    None => match header_text(h, "authorization"@) {
                        Some(a) => bearer_token(a),
                        None => None,
                    },
                },
            },
        },
    }
}

/// `v`, trimmed, when that is not blank.
fn nonblank_exec(v: Option<String>) -> (r: Option<String>)
    ensures
        match r {
            Some(t) => nonblank(match v {
                Some(x) => Some(x@),
                None => None,
            }) == Some(t@),
            None => nonblank(match v {
                Some(x) => Some(x@),
                None => None,
            }) is None,
        },
{
    match v {
        Some(x) => {
            let c = chars_of(x.as_str());
            let t = trimmed(c.as_slice());
            if t.len() > 0 {
                Some(string_from_chars(t.as_slice()))
            } else {
                None
            }
        },
        None => None,
    }
}

/// Whether an upstream has a configured, non-blank API key, which then
/// takes the place of any client credential.
pub fn has_configured_api_key(upstream: &UpstreamConfig) -> (r: bool)
    ensures
        r == (nonblank(
            match upstream.api_key {
                Some(k) => Some(k@),
                None => None,
            },
        ) is Some),
{
    let key = match &upstream.api_key {
        Some(k) => Some(k.clone()),
        None => None,
    };
    nonblank_exec(key).is_some()
}

/// The token of a `Bearer` authorization header.
pub fn extract_bearer_token(header: &str) -> (r: Option<String>)
    ensures
        match r {
            Some(t) => bearer_token(header@) == Some(t@),
            None => bearer_token(header@) is None,
        },
{
    let c = chars_of(header);
    let t = trimmed(c.as_slice());
    let upper = chars_of("Bearer ");
    let lower = chars_of("bearer ");
    proof {
        reveal_strlit("Bearer ");
        reveal_strlit("bearer ");
    }
    if starts_with_chars(t.as_slice(), upper.as_slice()) || starts_with_chars(
        t.as_slice(),
        lower.as_slice(),
    ) {
        let rest = sub_chars(t.as_slice(), 7, t.len());
        assert(rest@ =~= t@.skip(7));
        let token = trimmed(rest.as_slice());
        if token.len() > 0 {
            Some(string_from_chars(token.as_slice()))
        } else {
            None
        }
    } else {
        None
    }
}

/// The credential sent upstream.
pub fn resolve_upstream_auth(
    upstream: &UpstreamConfig,
    inbound_headers: Option<&Vec<(String, Option<String>)>>,
) -> (r: Option<String>)
    ensures
        match r {
            Some(v) => upstream_auth(
                match upstream.api_key {
                    Some(k) => Some(k@),
                    None => None,
                },
                upstream.protocol,
                match inbound_headers {
                    Some(h) => Some(h@),
                    None => None,
                },
            ) == Some(v@),
            None => upstream_auth(
                match upstream.api_key {
                    Some(k) => Some(k@),
                    None => None,
                },
                upstream.protocol,
                match inbound_headers {
                    Some(h) => Some(h@),
                    None => None,
                },
            ) is None,
        },
{
    let key = crate::config::copy_opt_string(&upstream.api_key);
    proof {
        reveal_strlit("");
    }
    assert(forall|x: Seq<char>| x + ""@ =~= x);
    match nonblank_exec(key) {
        Some(k) => {
            return Some(
                match upstream.protocol {
                    UpstreamProtocol::OpenAi => concat3("Bearer ", k.as_str(), ""),
                    UpstreamProtocol::Anthropic => k,
                },
            );
        },
        None => {},
    }
    let headers = match inbound_headers {
        Some(h) => h,
        None => {
            return None;
        },
    };
    match upstream.protocol {
        UpstreamProtocol::OpenAi => nonblank_exec(find_header(headers, "authorization")),
        UpstreamProtocol::Anthropic => match nonblank_exec(find_header(headers, "x-api-key")) {
            Some(k) => Some(k),
            None => match find_header(headers, "authorization") {
                Some(a) => extract_bearer_token(a.as_str()),
                None => None,
            },
        },
    }
}

/// A header the relay manages itself, or a hop-by-hop header.
pub open spec fn managed_header(name: Seq<char>) -> bool {
    ||| name == "host"@
    ||| name == "connection"@
    ||| name == "keep-alive"@
    ||| name == "proxy-authenticate"@
    ||| name == "proxy-authorization"@
    ||| name == "te"@
    ||| name == "trailer"@
    ||| name == "transfer-encoding"@
    ||| name == "upgrade"@
    ||| name == "content-length"@
    ||| name == "content-type"@
    ||| name == "accept"@
    ||| name == "authorization"@
    ||| name == "x-api-key"@
}

/// A client header that is safe to pass upstream: not managed, and either
/// an `x-` or `anthropic-` header or one of `user-agent`, `accept-language`,
/// `openai-organization` and `openai-project`.
pub open spec fn forwarded_header(name: Seq<char>) -> bool {
    &&& !managed_header(name)
    &&& {
        ||| starts_with(name, "x-"@)
        ||| starts_with(name, "anthropic-"@)
        ||| name == "user-agent"@
        ||| name == "accept-language"@
        ||| name == "openai-organization"@
        ||| name == "openai-project"@
    }
}

/// The four named client headers that are passed upstream.
pub open spec fn is_named_safe_header(name: Seq<char>) -> bool {
    name == "user-agent"@ || name == "accept-language"@ || name == "openai-organization"@ || name
        == "openai-project"@
}

/// `user-agent`, `accept-language`, `openai-organization` and
/// `openai-project` are passed upstream; the headers the relay manages
/// and the hop-by-hop headers never are.
pub proof fn lemma_forwarded_header_names(name: Seq<char>)
    ensures
        is_named_safe_header(name) ==> forwarded_header(name),
        (name == "host"@ || name == "connection"@ || name == "keep-alive"@ || name
            == "proxy-authenticate"@ || name == "proxy-authorization"@ || name == "te"@ || name
            == "trailer"@ || name == "transfer-encoding"@ || name == "upgrade"@ || name
            == "content-length"@ || name == "content-type"@ || name == "accept"@ || name
            == "authorization"@ || name == "x-api-key"@) ==> !forwarded_header(name),
{
    reveal_strlit("user-agent");
    reveal_strlit("accept-language");
    reveal_strlit("openai-organization");
    reveal_strlit("openai-project");
    reveal_strlit("host");
    reveal_strlit("connection");
    reveal_strlit("keep-alive");
    reveal_strlit("proxy-authenticate");
    reveal_strlit("proxy-authorization");
    reveal_strlit("te");
    reveal_strlit("trailer");
    reveal_strlit("transfer-encoding");
    reveal_strlit("upgrade");
    reveal_strlit("content-length");
    reveal_strlit("content-type");
    reveal_strlit("accept");
    reveal_strlit("authorization");
    reveal_strlit("x-api-key");
    assert("host"@.len() == 4 && "connection"@.len() == 10 && "keep-alive"@.len() == 10);
    assert("proxy-authenticate"@.len() == 18 && "proxy-authorization"@.len() == 19 && "te"@.len() == 2);
    assert("trailer"@.len() == 7 && "transfer-encoding"@.len() == 17 && "upgrade"@.len() == 7);
    assert("content-length"@.len() == 14 && "content-type"@.len() == 12 && "accept"@.len() == 6);
    assert("authorization"@.len() == 13 && "x-api-key"@.len() == 9);
    assert("connection"@[0] == 'c' && "keep-alive"@[0] == 'k' && "proxy-authorization"@[0] == 'p');
    assert("content-length"@[0] == 'c');
    if name == "user-agent"@ {
        assert(name.len() == 10 && name[0] == 'u');
    } else if name == "accept-language"@ {
        assert(name.len() == 15);
    } else if name == "openai-organization"@ {
        assert(name.len() == 19 && name[0] == 'o');
    } else if name == "openai-project"@ {
        assert(name.len() == 14 && name[0] == 'o');
    }
}

/// Whether a client header (by its lower-case name) is passed upstream.
pub fn should_forward_header(name: &str) -> (r: bool)
    ensures
        r == forwarded_header(name@),
        is_named_safe_header(name@) ==> r,
        (name@ == "host"@ || name@ == "connection"@ || name@ == "keep-alive"@ || name@
            == "proxy-authenticate"@ || name@ == "proxy-authorization"@ || name@ == "te"@ || name@
            == "trailer"@ || name@ == "transfer-encoding"@ || name@ == "upgrade"@ || name@
            == "content-length"@ || name@ == "content-type"@ || name@ == "accept"@ || name@
            == "authorization"@ || name@ == "x-api-key"@) ==> !r,
{
    proof {
        lemma_forwarded_header_names(name@);
    }
    let n = chars_of(name);
    let s = n.as_slice();
    if chars_eq_str(s, "host") || chars_eq_str(s, "connection") || chars_eq_str(s, "keep-alive")
        || chars_eq_str(s, "proxy-authenticate") || chars_eq_str(s, "proxy-authorization")
        || chars_eq_str(s, "te") || chars_eq_str(s, "trailer") || chars_eq_str(
        s,
        "transfer-encoding",
    ) || chars_eq_str(s, "upgrade") || chars_eq_str(s, "content-length") || chars_eq_str(
        s,
        "content-type",
    ) || chars_eq_str(s, "accept") || chars_eq_str(s, "authorization") || chars_eq_str(
        s,
        "x-api-key",
    ) {
        return false;
    }
    let x = chars_of("x-");
    let a = chars_of("anthropic-");
    starts_with_chars(s, x.as_slice()) || starts_with_chars(s, a.as_slice()) || chars_eq_str(
        s,
        "user-agent",
    ) || chars_eq_str(s, "accept-language") || chars_eq_str(s, "openai-organization")
        || chars_eq_str(s, "openai-project")
}

/// A header value that `http::HeaderValue::from_str` accepts: every byte is
/// a tab or at least a space and not DEL.  Characters beyond ASCII encode
/// to bytes of 128 and above, which are accepted.
pub open spec fn valid_header_text(s: Seq<char>) -> bool {
    forall|i: int|
        0 <= i < s.len() ==> #[trigger] s[i] == '\t' || ((s[i] as u32) >= 32 && (s[i] as u32)
            != 127)
}

/// `value` when it can be sent as a header value, else `fallback`.
pub fn header_value_or(value: &str, fallback: &str) -> (r: String)
    ensures
        r@ == (if valid_header_text(value@) {
            value@
        } else {
            fallback@
        }),
{
    let c = chars_of(value);
    let mut i: usize = 0;
    while i < c.len()
        invariant
            i <= c@.len(),
            c@ == value@,
            forall|k: int|
                0 <= k < i ==> #[trigger] c@[k] == '\t' || ((c@[k] as u32) >= 32 && (c@[k] as u32)
                    != 127),
        decreases c@.len() - i,
    {
        let ch = c[i];
        let u = ch as u32;
        if !(ch == '\t' || (u >= 32 && u != 127)) {
            return fallback.to_string();
        }
        i = i + 1;
    }
    value.to_string()
}

// ---------------------------------------------------------------------------
// Timeouts and retries
// ---------------------------------------------------------------------------

/// The upstream's timeout in seconds, or the server's when it sets none.
pub fn resolve_upstream_timeout(upstream: &UpstreamConfig, default_timeout: u64) -> (t: u64)
    ensures
        t == (match upstream.timeout {
            Some(x) => x,
            None => default_timeout,
        }),
{
    match upstream.timeout {
        Some(x) => x,
        None => default_timeout,
    }
}

/// The transient statuses that are retried: 429, 500, 502, 503 and 504.
pub open spec fn retryable_status(status: u16) -> bool {
    status == 429 || status == 500 || status == 502 || status == 503 || status == 504
}

/// Whether an upstream status is retried.
pub fn should_retry_status(status: u16) -> (r: bool)
    ensures
        r == retryable_status(status),
{
    status == 429 || status == 500 || status == 502 || status == 503 || status == 504
}

/// `2^n`.
pub open spec fn pow2(n: nat) -> nat
    decreases n,
{
    if n == 0 {
        1
    } else {
        2 * pow2((n - 1) as nat)
    }
}

/// The backoff multiplier of an attempt: `2^attempt`, or `u64::MAX` once
/// the shift no longer fits (attempt 64 and above).
pub open spec fn backoff_multiplier(attempt: u32) -> int {
    if attempt < 64 {
        pow2(attempt as nat) as int
    } else {
        u64::MAX as int
    }
}

/// The delay before the next attempt, in milliseconds: the upstream's
/// `Retry-After` when it gave one, else `initial * multiplier` (saturating);
/// never more than the configured maximum.
pub open spec fn retry_delay_ms(upstream: UpstreamConfig, attempt: u32, retry_after_ms: Option<u128>) -> int {
    match retry_after_ms {
        Some(d) => if d <= upstream.retry_max_ms {
            d as int
        } else {
            upstream.retry_max_ms as int
        },
        None => {
            let p = upstream.retry_initial_ms * backoff_multiplier(attempt);
            let s = if p <= u64::MAX {
                p
            } else {
                u64::MAX as int
            };
            if s <= upstream.retry_max_ms {
                s
            } else {
                upstream.retry_max_ms as int
            }
        },
    }
}

proof fn lemma_pow2_mono(a: nat, b: nat)
    requires
        a <= b,
    ensures
        pow2(a) <= pow2(b),
    decreases b,
{
    if a < b {
        lemma_pow2_mono(a, (b - 1) as nat);
    }
}

proof fn lemma_pow2_le(n: nat)
    requires
        n < 63,
    ensures
        pow2(n) <= 0x4000_0000_0000_0000,
{
    reveal_with_fuel(pow2, 63);
    assert(pow2(62) == 0x4000_0000_0000_0000);
    lemma_pow2_mono(n, 62);
}

/// The delay before retrying after attempt number `attempt` (from 0), in
/// milliseconds.
pub fn retry_delay(upstream: &UpstreamConfig, attempt: u32, retry_after_ms: Option<u128>) -> (d: u64)
    ensures
        d == retry_delay_ms(*upstream, attempt, retry_after_ms),
        d <= upstream.retry_max_ms,
{
    match retry_after_ms {
        Some(delay) => {
            if delay <= upstream.retry_max_ms as u128 {
                delay as u64
            } else {
                upstream.retry_max_ms
            }
        },
        None => {
            let multiplier: u64 = if attempt < 64 {
                let mut m: u64 = 1;
                let mut k: u32 = 0;
                while k < attempt
                    invariant
                        k <= attempt < 64,
                        m == pow2(k as nat),
                    decreases attempt - k,
                {
                    proof {
                        lemma_pow2_le(k as nat);
                    }
                    m = m * 2;
                    k = k + 1;
                }
                m
            } else {
                u64::MAX
            };
            let delay_ms = match upstream.retry_initial_ms.checked_mul(multiplier) {
                Some(p) => p,
                None => u64::MAX,
            };
            if delay_ms <= upstream.retry_max_ms {
                delay_ms
            } else {
                upstream.retry_max_ms
            }
        },
    }
}

/// Without a `Retry-After`, the backoff never shrinks from one attempt to a
/// later one, and never exceeds the configured maximum.
pub proof fn lemma_backoff_monotone(upstream: UpstreamConfig, a: u32, b: u32)
    requires
        a <= b,
    ensures
        retry_delay_ms(upstream, a, None) <= retry_delay_ms(upstream, b, None),
        retry_delay_ms(upstream, b, None) <= upstream.retry_max_ms,
{
    let ma = backoff_multiplier(a);
    let mb = backoff_multiplier(b);
    if b < 64 {
        lemma_pow2_mono(a as nat, b as nat);
    } else if a < 64 {
        if a < 63 {
            lemma_pow2_le(a as nat);
        } else {
            lemma_pow2_le(62);
            assert(pow2(63) == 2 * pow2(62));
        }
    }
    assert(ma <= mb);
    assert(0 <= ma);
    let i = upstream.retry_initial_ms as int;
    assert(i * ma <= i * mb) by (nonlinear_arith)
        requires
            0 <= i,
            ma <= mb,
    ;
}

/// A decimal digit.
pub open spec fn is_digit(c: char) -> bool {
    '0' <= c && c <= '9'
}

/// The value of a string of decimal digits.
pub open spec fn digits_value(s: Seq<char>) -> nat
    decreases s.len(),
{
    if s.len() == 0 {
        0
    } else {
        digits_value(s.drop_last()) * 10 + ((s.last() as u32) - ('0' as u32)) as nat
    }
}

/// `s` without a leading `+`.
pub open spec fn sign_stripped(s: Seq<char>) -> Seq<char> {
    if s.len() > 0 && s[0] == '+' {
        s.drop_first()
    } else {
        s
    }
}

/// Every character of `d` is a decimal digit.
pub open spec fn all_digits(d: Seq<char>) -> bool {
    forall|i: int| 0 <= i < d.len() ==> is_digit(#[trigger] d[i])
}

/// What `u64::from_str` accepts: an optional `+`, then one or more decimal
/// digits whose value fits in a `u64`.
pub open spec fn parse_u64(s: Seq<char>) -> Option<u64> {
    let d = sign_stripped(s);
    if d.len() > 0 && all_digits(d) && digits_value(d) <= u64::MAX {
        Some(digits_value(d) as u64)
    } else {
        None
    }
}

proof fn lemma_digits_value_monotone(s: Seq<char>, k: int)
    requires
        0 <= k <= s.len(),
        forall|i: int| 0 <= i < s.len() ==> is_digit(#[trigger] s[i]),
    ensures
        digits_value(s.take(k)) <= digits_value(s),
    decreases s.len() - k,
{
    if k < s.len() {
        lemma_digits_value_monotone(s, k + 1);
        assert(s.take(k + 1).drop_last() =~= s.take(k));
    } else {
        assert(s.take(k) =~= s);
    }
}

/// The value of a `Retry-After` header in seconds: the header, trimmed,
/// read as a `u64`.
pub fn parse_retry_after(value: &str) -> (r: Option<u64>)
    ensures
        r == parse_u64(trim(value@)),
{
    let c = chars_of(value);
    let t = trimmed(c.as_slice());
    let start: usize = if t.len() > 0 && t[0] == '+' {
        1
    } else {
        0
    };
    let d = sub_chars(t.as_slice(), start, t.len());
    assert(d@ =~= sign_stripped(t@));
    if d.len() == 0 {
        assert(parse_u64(trim(value@)) is None);
        return None;
    }
    let mut acc: u64 = 0;
    let mut i: usize = 0;
    while i < d.len()
        invariant
            i <= d@.len(),
            d@ == sign_stripped(trim(value@)),
            acc == digits_value(d@.take(i as int)),
            forall|k: int| 0 <= k < i ==> is_digit(#[trigger] d@[k]),
        decreases d@.len() - i,
    {
        let ch = d[i];
        assert(d@.take(i + 1).drop_last() =~= d@.take(i as int));
        assert(d@.take(i + 1).last() == ch);
        if !('0' <= ch && ch <= '9') {
            assert(!is_digit(d@[i as int]));
            assert(!all_digits(d@));
            assert(parse_u64(trim(value@)) is None);
            return None;
        }
        let digit = (ch as u32) - ('0' as u32);
        let next = match acc.checked_mul(10) {
            Some(m) => m.checked_add(digit as u64),
            None => None,
        };
        match next {
            Some(n) => {
                acc = n;
            },
            None => {
                proof {
                    // Every digit string at least this long is too large.
                    assert(digits_value(d@.take(i + 1)) > u64::MAX);
                    if all_digits(d@) {
                        lemma_digits_value_monotone(d@, i + 1);
                    }
                }
                assert(parse_u64(trim(value@)) is None);
                return None;
            },
        }
        i = i + 1;
    }
    assert(d@.take(i as int) =~= d@);
    Some(acc)
}

// ---------------------------------------------------------------------------
// Upstream requests
// ---------------------------------------------------------------------------

/// The outcome of one attempt at an upstream request.
pub enum AttemptOutcome {
    /// The upstream answered with a success status.
    Success,
    /// The upstream answered with a failure status, its `Retry-After`
    /// header text (if any) and its body text.
    Status { status: u16, retry_after: Option<String>, body: String },
    /// The request failed before an answer; `retryable` when it timed out
    /// or could not connect.
    Transport { retryable: bool, message: String },
}

/// What to do after an attempt.
pub enum AttemptDecision {
    /// Hand the upstream answer on.
    Deliver,
    /// Wait this many milliseconds, then try again.
    Retry { delay_ms: u64 },
    /// Give up with this error.
    Fail(Error),
}

/// The `Retry-After` of an answer, in milliseconds.
pub open spec fn retry_after_ms_of(retry_after: Option<String>) -> Option<u128> {
    match retry_after {
        Some(t) => match parse_u64(trim(t@)) {
            Some(secs) => Some((secs * 1000) as u128),
            None => None,
        },
        None => None,
    }
}

/// The `Retry-After` that the backoff honours: that of a 429 answer.  Any
/// other answer is retried after the exponential backoff.
pub open spec fn honoured_retry_after(status: u16, retry_after: Option<String>) -> Option<u128> {
    if status == 429 {
        retry_after_ms_of(retry_after)
    } else {
        None
    }
}

/// Decides what follows attempt number `attempt` (from 0): success is
/// delivered; a retryable status or a timeout/connect failure is retried
/// while fewer than `max_retries` retries were made, after `retry_delay`
/// (honouring the `Retry-After` of a 429 answer); anything else fails with
/// the upstream's status and body, or with the transport error.
pub fn decide_attempt(upstream: &UpstreamConfig, attempt: u32, outcome: AttemptOutcome) -> (d: AttemptDecision)
    ensures
        match outcome {
            AttemptOutcome::Success => d is Deliver,
            AttemptOutcome::Status { status, retry_after, body } => if retryable_status(status)
                && attempt < upstream.max_retries {
                d == AttemptDecision::Retry {
                    delay_ms: retry_delay_ms(*upstream, attempt, honoured_retry_after(status, retry_after))
                        as u64,
                }
            } else {
                d matches AttemptDecision::Fail(Error::UpstreamApi(s, m)) && s == status && m@
                    == body@
            },
            AttemptOutcome::Transport { retryable, message } => if retryable && attempt
                < upstream.max_retries {
                d == AttemptDecision::Retry {
                    delay_ms: retry_delay_ms(*upstream, attempt, None) as u64,
                }
            } else {
                d matches AttemptDecision::Fail(Error::HttpRequest(m)) && m@ == message@
            },
        },
{
    match outcome {
        AttemptOutcome::Success => AttemptDecision::Deliver,
        AttemptOutcome::Status { status, retry_after, body } => {
            if should_retry_status(status) && attempt < upstream.max_retries {
                let after: Option<u128> = if status != 429 {
                    None
                } else {
                    match &retry_after {
                        Some(t) => match parse_retry_after(t.as_str()) {
                            Some(secs) => Some(secs as u128 * 1000),
                            None => None,
                        },
                        None => None,
                    }
                };
                AttemptDecision::Retry { delay_ms: retry_delay(upstream, attempt, after) }
            } else {
                AttemptDecision::Fail(Error::UpstreamApi(status, body))
            }
        },
        AttemptOutcome::Transport { retryable, message } => {
            if retryable && attempt < upstream.max_retries {
                AttemptDecision::Retry { delay_ms: retry_delay(upstream, attempt, None) }
            } else {
                AttemptDecision::Fail(Error::HttpRequest(message))
            }
        },
    }
}

/// How to send a request upstream.
pub struct UpstreamPlan {
    /// The endpoint URL
    pub url: String,
    /// Timeout in seconds
    pub timeout_secs: u64,
    /// Whether the client's safe headers are passed through first
    pub forward_client_headers: bool,
    /// The headers the relay sets, in order, after any client headers
    pub headers: Vec<(String, String)>,
}

/// The endpoint of an upstream: `<base>/chat/completions` for OpenAI,
/// `<base>/messages` for Anthropic.
pub open spec fn upstream_endpoint(upstream: UpstreamConfig) -> Seq<char> {
    match upstream.protocol {
        UpstreamProtocol::OpenAi => upstream.base_url@ + "/chat/completions"@,
        UpstreamProtocol::Anthropic => upstream.base_url@ + "/messages"@,
    }
}

/// The headers the relay sets on an upstream request: the JSON content
/// type; `Accept: text/event-stream` when streaming; the Anthropic API
/// version for Anthropic; the credential, if any, as `Authorization`
/// (OpenAI) or `x-api-key` (Anthropic); then the configured extra headers.
pub open spec fn relay_headers(
    upstream: UpstreamConfig,
    auth: Option<Seq<char>>,
    stream: bool,
) -> Seq<(Seq<char>, Seq<char>)> {
    let base = seq![("Content-Type"@, "application/json"@)];
    let a = if stream {
        base.push(("Accept"@, "text/event-stream"@))
    } else {
        base
    };
    let b = if upstream.protocol == UpstreamProtocol::Anthropic {
        a.push(("anthropic-version"@, "2023-06-01"@))
    } else {
        a
    };
    let c = match auth {
        Some(v) => b.push(
            (
                match upstream.protocol {
                    UpstreamProtocol::OpenAi => "Authorization"@,
                    UpstreamProtocol::Anthropic => "x-api-key"@,
                },
                v,
            ),
        ),
        None => b,
    };
    c + upstream.extra_headers@.map_values(|p: (String, String)| (p.0@, p.1@))
}

/// The header that carries the upstream credential: `Authorization` for
/// OpenAI, `x-api-key` for Anthropic.
pub open spec fn credential_header(protocol: UpstreamProtocol) -> Seq<char> {
    match protocol {
        UpstreamProtocol::OpenAi => "Authorization"@,
        UpstreamProtocol::Anthropic => "x-api-key"@,
    }
}

/// The relay's headers carry a resolved credential under `Authorization`
/// for an OpenAI upstream and under `x-api-key` for an Anthropic one, and
/// always declare a JSON body.
pub proof fn lemma_relay_headers_carry_credential(upstream: UpstreamConfig, auth: Option<Seq<char>>, stream: bool)
    ensures
        auth matches Some(v) ==> relay_headers(upstream, auth, stream).contains(
            (credential_header(upstream.protocol), v),
        ),
        relay_headers(upstream, auth, stream).contains(("Content-Type"@, "application/json"@)),
{
    let h = relay_headers(upstream, auth, stream);
    let base = seq![("Content-Type"@, "application/json"@)];
    let a = if stream {
        base.push(("Accept"@, "text/event-stream"@))
    } else {
        base
    };
    let b = if upstream.protocol == UpstreamProtocol::Anthropic {
        a.push(("anthropic-version"@, "2023-06-01"@))
    } else {
        a
    };
    assert(h[0] == ("Content-Type"@, "application/json"@));
    if let Some(v) = auth {
        assert(h[b.len() as int] == (credential_header(upstream.protocol), v));
    }
}

/// The views of a list of header pairs.
pub open spec fn pair_views(v: Seq<(String, String)>) -> Seq<(Seq<char>, Seq<char>)> {
    v.map_values(|p: (String, String)| (p.0@, p.1@))
}

fn push_pair(v: &mut Vec<(String, String)>, a: &str, b: &str)
    ensures
        pair_views(final(v)@) == pair_views(old(v)@).push((a@, b@)),
{
    let ghost before = v@;
    v.push((a.to_string(), b.to_string()));
    assert(pair_views(v@) =~= pair_views(before).push((a@, b@)));
}

/// Plans an upstream request: endpoint, timeout, and headers.
pub fn plan_upstream_request(
    upstream: &UpstreamConfig,
    inbound_headers: Option<&Vec<(String, Option<String>)>>,
    default_timeout: u64,
    stream: bool,
) -> (p: UpstreamPlan)
    ensures
        p.url@ == upstream_endpoint(*upstream),
        p.timeout_secs == (match upstream.timeout {
            Some(x) => x,
            None => default_timeout,
        }),
        p.forward_client_headers == (upstream.pass_through_headers && inbound_headers is Some),
        pair_views(p.headers@) == relay_headers(
            *upstream,
            upstream_auth(
                match upstream.api_key {
                    Some(k) => Some(k@),
                    None => None,
                },
                upstream.protocol,
                match inbound_headers {
                    Some(h) => Some(h@),
                    None => None,
                },
            ),
            stream,
        ),
        upstream_auth(
            match upstream.api_key {
                Some(k) => Some(k@),
                None => None,
            },
            upstream.protocol,
            match inbound_headers {
                Some(h) => Some(h@),
                None => None,
            },
        ) matches Some(v) ==> pair_views(p.headers@).contains((credential_header(upstream.protocol), v)),
        pair_views(p.headers@).contains(("Content-Type"@, "application/json"@)),
{
    let url = match upstream.protocol {
        UpstreamProtocol::OpenAi => concat3(upstream.base_url.as_str(), "/chat/completions", ""),
        UpstreamProtocol::Anthropic => concat3(upstream.base_url.as_str(), "/messages", ""),
    };
    proof {
        reveal_strlit("");
    }
    assert(forall|x: Seq<char>| x + ""@ =~= x);
    let auth = resolve_upstream_auth(upstream, inbound_headers);
    proof {
        lemma_relay_headers_carry_credential(
            *upstream,
            match &auth {
                Some(v) => Some(v@),
                None => None,
            },
            stream,
        );
    }
    let mut headers: Vec<(String, String)> = Vec::new();
    push_pair(&mut headers, "Content-Type", "application/json");
    if stream {
        push_pair(&mut headers, "Accept", "text/event-stream");
    }
    if upstream.protocol == UpstreamProtocol::Anthropic {
        push_pair(&mut headers, "anthropic-version", "2023-06-01");
    }
    match &auth {
        Some(v) => {
            let name = match upstream.protocol {
                UpstreamProtocol::OpenAi => "Authorization",
                UpstreamProtocol::Anthropic => "x-api-key",
            };
            push_pair(&mut headers, name, v.as_str());
        },
        None => {},
    }
    let ghost prefix = pair_views(headers@);
    let mut i: usize = 0;
    while i < upstream.extra_headers.len()
        invariant
            i <= upstream.extra_headers@.len(),
            pair_views(headers@) == prefix + pair_views(upstream.extra_headers@.take(i as int)),
        decreases upstream.extra_headers@.len() - i,
    {
        let (k, v) = &upstream.extra_headers[i];
        let ghost before = headers@;
        headers.push((k.clone(), v.clone()));
        assert(pair_views(headers@) =~= pair_views(before).push((k@, v@)));
        assert(pair_views(upstream.extra_headers@.take(i + 1)) =~= pair_views(
            upstream.extra_headers@.take(i as int),
        ).push((k@, v@)));
        i = i + 1;
    }
    assert(upstream.extra_headers@.take(i as int) =~= upstream.extra_headers@);
    assert(upstream_auth(
        match upstream.api_key {
            Some(k) => Some(k@),
            None => None,
        },
        upstream.protocol,
        match inbound_headers {
            Some(h) => Some(h@),
            None => None,
        },
    ) == match &auth {
        Some(v) => Some(v@),
        None => None,
    });
    proof {
        let a = match &auth {
            Some(v) => Some(v@),
            None => None,
        };
        assert(pair_views(headers@) == relay_headers(*upstream, a, stream));
        assert(pair_views(headers@).contains(("Content-Type"@, "application/json"@)));
        if let Some(v) = &auth {
            assert(pair_views(headers@) == relay_headers(*upstream, Some(v@), stream));
            assert(pair_views(headers@).contains((credential_header(upstream.protocol), v@)));
        }
    }
    UpstreamPlan {
        url,
        timeout_secs: resolve_upstream_timeout(upstream, default_timeout),
        forward_client_headers: upstream.pass_through_headers && inbound_headers.is_some(),
        headers,
    }
}

/// The message for a route to an agent that is not configured.
pub open spec fn unknown_agent_message(id: Seq<char>) -> Seq<char> {
    "Unknown upstream agent '"@ + id + "'"@
}

/// The upstream of a named agent, or an invalid-request error when no
/// agent has that id.
pub fn resolve_agent_upstream(agents: &UpstreamRegistry, agent_id: &str) -> (r: Result<
    UpstreamConfig,
    Error,
>)
    ensures
        match r {
            Ok(u) => agents.spec_map().dom().contains(agent_id@) && same_upstream(
                u,
                agents.spec_map()[agent_id@],
            ),
            Err(e) => !agents.spec_map().dom().contains(agent_id@) && (e matches Error::InvalidRequest(
                m,
            ) && m@ == unknown_agent_message(agent_id@)),
        },
{
    match agents.get(agent_id) {
        Some(u) => Ok(u.copy()),
        None => Err(Error::InvalidRequest(concat3("Unknown upstream agent '", agent_id, "'"))),
    }
}

// ---------------------------------------------------------------------------
// Answers to the client
// ---------------------------------------------------------------------------

/// The JSON payload of an SSE `error` event.
pub fn stream_error_payload(message: &str, error_type: &str) -> (r: String)
    ensures
        r@ == error_payload_text(message@, error_type@),
{
    error_payload(message, error_type)
}

/// The outcome of an audit gate: content that the decision does not allow
/// is refused with its blocked reason, or `default_reason` when it gives
/// none.
pub fn audit_gate(decision: &AuditDecision, default_reason: &str) -> (r: Result<(), Error>)
    ensures
        decision.allowed ==> r is Ok,
        !decision.allowed ==> (r matches Err(Error::AuditBlocked(m)) && m@ == (match decision.blocked_reason {
            Some(b) => b@,
            None => default_reason@,
        })),
{
    if decision.allowed {
        Ok(())
    } else {
        let reason = match &decision.blocked_reason {
            Some(b) => b.clone(),
            None => default_reason.to_string(),
        };
        Err(Error::AuditBlocked(reason))
    }
}

/// Refuses an upstream answer whose status is not a success, with its
/// status and body.
pub fn check_upstream_status(status: u16, success: bool, body: &str) -> (r: Result<(), Error>)
    ensures
        success ==> r is Ok,
        !success ==> (r matches Err(Error::UpstreamApi(s, m)) && s == status && m@ == body@),
{
    if success {
        Ok(())
    } else {
        Err(Error::UpstreamApi(status, body.to_string()))
    }
}

/// The audit headers of an answer: in async mode `X-Audit-Mode: async`; in
/// sync mode the decision's risk level (or `none` when it cannot be sent as
/// a header) and score text (or `0`).  None when the policy does not
/// include headers.
pub fn audit_headers(
    mode: crate::config::AuditMode,
    include_headers: bool,
    decision: Option<&AuditDecision>,
    score_text: &str,
) -> (r: Vec<(String, String)>)
    ensures
        !include_headers ==> r@.len() == 0,
        include_headers && mode == crate::config::AuditMode::Async ==> pair_views(r@) == seq![
            ("X-Audit-Mode"@, "async"@),
        ],
        include_headers && mode == crate::config::AuditMode::Sync ==> match decision {
            Some(d) => pair_views(r@) == seq![
                ("X-Audit-Risk-Level"@, if valid_header_text(d.risk_level@) {
                    d.risk_level@
                } else {
                    "none"@
                }),
                ("X-Audit-Risk-Score"@, if valid_header_text(score_text@) {
                    score_text@
                } else {
                    "0"@
                }),
            ],
            None => r@.len() == 0,
        },
{
    let mut r: Vec<(String, String)> = Vec::new();
    if !include_headers {
        return r;
    }
    match mode {
        crate::config::AuditMode::Async => {
            push_pair(&mut r, "X-Audit-Mode", "async");
            assert(pair_views(r@) =~= seq![("X-Audit-Mode"@, "async"@)]);
        },
        crate::config::AuditMode::Sync => match decision {
            Some(d) => {
                let level = header_value_or(d.risk_level.as_str(), "none");
                let score = header_value_or(score_text, "0");
                push_pair(&mut r, "X-Audit-Risk-Level", level.as_str());
                push_pair(&mut r, "X-Audit-Risk-Score", score.as_str());
            },
            None => {},
        },
    }
    r
}

/// Refuses streaming on the Anthropic endpoints.
pub fn check_anthropic_stream(stream: Option<bool>) -> (r: Result<(), Error>)
    ensures
        (stream == Some(true)) ==> (r matches Err(Error::InvalidRequest(m)) && m@
            == "Streaming is not yet supported for Anthropic endpoints. Use /v1/chat/completions for streaming."@),
        (stream != Some(true)) ==> r is Ok,
{
    match stream {
        Some(true) => Err(
            Error::InvalidRequest(
                "Streaming is not yet supported for Anthropic endpoints. Use /v1/chat/completions for streaming.".to_string(),
            ),
        ),
        _ => Ok(()),
    }
}

/// The model a request is sent with: its own, or the upstream's default
/// when it names none.
pub fn effective_model(model: &String, default_model: &String) -> (r: String)
    ensures
        r@ == (if model@.len() == 0 {
            default_model@
        } else {
            model@
        }),
{
    if model.as_str().is_empty() {
        default_model.clone()
    } else {
        model.clone()
    }
}

// ---------------------------------------------------------------------------
// Request ids
// ---------------------------------------------------------------------------

/// A lower-case hexadecimal digit.
pub open spec fn is_lower_hex(c: char) -> bool {
    ('0' <= c && c <= '9') || ('a' <= c && c <= 'f')
}

/// The hyphenated lower-case text of a version-4 UUID:
/// `xxxxxxxx-xxxx-4xxx-Vxxx-xxxxxxxxxxxx`, where each `x` is a hexadecimal
/// digit and `V` is one of `8`, `9`, `a`, `b`.
pub open spec fn uuid_v4_text(s: Seq<char>) -> bool {
    &&& s.len() == 36
    &&& forall|i: int|
        0 <= i < 36 ==> (if i == 8 || i == 13 || i == 18 || i == 23 {
            #[trigger] s[i] == '-'
        } else {
            is_lower_hex(s[i])
        })
    &&& s[14] == '4'
    &&& (s[19] == '8' || s[19] == '9' || s[19] == 'a' || s[19] == 'b')
}

/// A fresh request id.
///
/// Trusted: `uuid::Uuid::new_v4` draws a random UUID and sets its version
/// nibble to 4 and its variant bits to `10`; its `Display` writes the
/// hyphenated lower-case form.  The digits are random, so only that shape
/// is stated.
#[verifier::external_body]
fn new_request_id() -> (r: String)
    ensures
        uuid_v4_text(r@),
{
    uuid::Uuid::new_v4().to_string()
}

/// The request id of a request: the client's `x-request-id`, trimmed, when
/// it is not blank; otherwise a fresh UUID.
pub fn resolve_request_id(header: Option<String>) -> (r: String)
    ensures
        nonblank(
            match header {
                Some(h) => Some(h@),
                None => None,
            },
        ) matches Some(t) ==> r@ == t,
        nonblank(
            match header {
                Some(h) => Some(h@),
                None => None,
            },
        ) is None ==> uuid_v4_text(r@),
{
    match nonblank_exec(header) {
        Some(t) => t,
        None => new_request_id(),
    }
}

// ---------------------------------------------------------------------------
// Health
// ---------------------------------------------------------------------------

/// Health check response.
#[derive(Debug)]
pub struct HealthResponse {
    pub status: String,
    pub audit_enabled: bool,
    pub audit_agents: usize,
    pub upstream: String,
    pub upstream_agents: usize,
    pub default_upstream_timeout: u64,
}

impl HealthResponse {
    /// A `healthy` report with the given facts.
    pub fn healthy(
        audit_enabled: bool,
        audit_agents: usize,
        upstream: &String,
        upstream_agents: usize,
        default_upstream_timeout: u64,
    ) -> (h: Self)
        ensures
            h.status@ == "healthy"@,
            h.audit_enabled == audit_enabled,
            h.audit_agents == audit_agents,
            h.upstream@ == upstream@,
            h.upstream_agents == upstream_agents,
            h.default_upstream_timeout == default_upstream_timeout,
    {
        HealthResponse {
            status: "healthy".to_string(),
            audit_enabled,
            audit_agents,
            upstream: upstream.clone(),
            upstream_agents,
            default_upstream_timeout,
        }
    }
}

} // verus!
