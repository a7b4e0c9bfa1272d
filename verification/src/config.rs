//! Configuration types for the relay.
//!
//! Floating-point settings (audit temperatures) are carried as the IEEE-754
//! bit pattern of their `f32` value: the library passes them through and
//! never computes with them.
use vstd::prelude::*;
use crate::text::{chars_of, string_from_chars, trimmed, concat3};

verus! {

/// Server settings.
#[derive(Debug)]
pub struct ServerConfig {
    /// Listen address (e.g., "127.0.0.1:8080")
    pub listen: String,
    /// Timeout for upstream requests in seconds
    pub timeout: u64,
    /// Maximum request body size in MB
    pub max_request_mb: usize,
}

impl ServerConfig {
    /// The default server settings: `127.0.0.1:8080`, 300 s, 10 MB.
    pub fn default_config() -> (c: Self)
        ensures
            c.listen@ == "127.0.0.1:8080"@,
            c.timeout == 300,
            c.max_request_mb == 10,
    {
        ServerConfig { listen: "127.0.0.1:8080".to_string(), timeout: 300, max_request_mb: 10 }
    }
}

/// Upstream API protocol.
#[derive(Debug, Clone, Copy, PartialEq, Eq, Structural)]
pub enum UpstreamProtocol {
    OpenAi,
    Anthropic,
}

impl UpstreamProtocol {
    /// The default protocol, OpenAI.
    pub fn default_protocol() -> (p: Self)
        ensures
            p == UpstreamProtocol::OpenAi,
    {
        UpstreamProtocol::OpenAi
    }
}

/// Connection settings of an upstream API.
#[derive(Debug)]
pub struct UpstreamConfig {
    /// Upstream API base URL (e.g., "https://api.openai.com/v1")
    pub base_url: String,
    /// API key for upstream (optional, can be overridden per request)
    pub api_key: Option<String>,
    /// Default model to use
    pub default_model: String,
    /// Upstream API protocol
    pub protocol: UpstreamProtocol,
    /// Additional headers to pass to upstream, as (name, value) pairs
    pub extra_headers: Vec<(String, String)>,
    /// Whether to pass safe client headers through to upstream
    pub pass_through_headers: bool,
    /// Timeout for upstream calls in seconds
    pub timeout: Option<u64>,
    /// Maximum retry attempts for retryable upstream failures
    pub max_retries: u32,
    /// Initial retry backoff in milliseconds
    pub retry_initial_ms: u64,
    /// Maximum retry backoff in milliseconds
    pub retry_max_ms: u64,
}

/// Named upstream agent: the connection fields of an upstream plus the id
/// used in `/v1/agents/{id}/...` routes.
#[derive(Debug)]
pub struct UpstreamAgentConfig {
    /// Stable agent id used by `/v1/agents/{id}/...` routes
    pub id: String,
    pub base_url: String,
    pub api_key: Option<String>,
    pub default_model: String,
    pub protocol: UpstreamProtocol,
    pub extra_headers: Vec<(String, String)>,
    pub pass_through_headers: bool,
    pub timeout: Option<u64>,
    pub max_retries: u32,
    pub retry_initial_ms: u64,
    pub retry_max_ms: u64,
}

/// Default number of upstream retries.
pub fn default_upstream_max_retries() -> (r: u32)
    ensures
        r == 2,
{
    2
}

/// Default initial retry backoff, in milliseconds.
pub fn default_upstream_retry_initial_ms() -> (r: u64)
    ensures
        r == 250,
{
    250
}

/// Default maximum retry backoff, in milliseconds.
pub fn default_upstream_retry_max_ms() -> (r: u64)
    ensures
        r == 5000,
{
    5000
}

/// Default for the boolean switches that are on unless configured off.
pub fn default_true() -> (r: bool)
    ensures
        r,
{
    true
}

/// Default maximum tokens of an audit answer.
pub fn default_audit_max_tokens() -> (r: u32)
    ensures
        r == 2048,
{
    2048
}

/// Default number of streamed chunks per audit batch.
pub fn default_batch_size() -> (r: usize)
    ensures
        r == 10,
{
    10
}

/// Default audit mode.
pub fn default_audit_mode() -> (m: AuditMode)
    ensures
        m == AuditMode::Sync,
{
    AuditMode::Sync
}

/// The risk levels that block by default: `critical` and `high`.
pub fn default_block_levels() -> (v: Vec<String>)
    ensures
        v@.len() == 2,
        v@[0]@ == "critical"@,
        v@[1]@ == "high"@,
{
    let mut v: Vec<String> = Vec::new();
    v.push("critical".to_string());
    v.push("high".to_string());
    v
}

/// Default log level.
pub fn default_log_level() -> (s: String)
    ensures
        s@ == "info"@,
{
    "info".to_string()
}

/// Default for logging request and response bodies: off.
pub fn default_log_bodies() -> (r: bool)
    ensures
        !r,
{
    false
}

/// An exact copy of an optional string.
pub fn copy_opt_string(o: &Option<String>) -> (r: Option<String>)
    ensures
        r == *o,
{
    match o {
        Some(s) => Some(s.clone()),
        None => None,
    }
}

/// An exact copy of a list of strings.
pub fn copy_strings(v: &Vec<String>) -> (r: Vec<String>)
    ensures
        r@ == v@,
{
    let mut r: Vec<String> = Vec::new();
    let mut i: usize = 0;
    while i < v.len()
        invariant
            i <= v@.len(),
            r@ == v@.take(i as int),
        decreases v@.len() - i,
    {
        r.push(v[i].clone());
        assert(r@ =~= v@.take(i + 1));
        i = i + 1;
    }
    assert(r@ =~= v@);
    r
}

/// An exact copy of a list of (name, value) pairs.
pub fn copy_pairs(v: &Vec<(String, String)>) -> (r: Vec<(String, String)>)
    ensures
        r@ == v@,
{
    let mut r: Vec<(String, String)> = Vec::new();
    let mut i: usize = 0;
    while i < v.len()
        invariant
            i <= v@.len(),
            r@ == v@.take(i as int),
        decreases v@.len() - i,
    {
        let (a, b) = &v[i];
        r.push((a.clone(), b.clone()));
        assert(r@ =~= v@.take(i + 1));
        i = i + 1;
    }
    assert(r@ =~= v@);
    r
}

/// Two upstream configurations hold the same settings.
pub open spec fn same_upstream(a: UpstreamConfig, b: UpstreamConfig) -> bool {
    &&& a.base_url == b.base_url
    &&& a.api_key == b.api_key
    &&& a.default_model == b.default_model
    &&& a.protocol == b.protocol
    &&& a.extra_headers@ == b.extra_headers@
    &&& a.pass_through_headers == b.pass_through_headers
    &&& a.timeout == b.timeout
    &&& a.max_retries == b.max_retries
    &&& a.retry_initial_ms == b.retry_initial_ms
    &&& a.retry_max_ms == b.retry_max_ms
}

impl UpstreamConfig {
    /// An exact copy.
    pub fn copy(&self) -> (c: Self)
        ensures
            same_upstream(c, *self),
    {
        UpstreamConfig {
            base_url: self.base_url.clone(),
            api_key: copy_opt_string(&self.api_key),
            default_model: self.default_model.clone(),
            protocol: self.protocol,
            extra_headers: copy_pairs(&self.extra_headers),
            pass_through_headers: self.pass_through_headers,
            timeout: self.timeout,
            max_retries: self.max_retries,
            retry_initial_ms: self.retry_initial_ms,
            retry_max_ms: self.retry_max_ms,
        }
    }
}

impl UpstreamAgentConfig {
    /// The connection settings of this agent, field for field.
    pub open spec fn spec_upstream(&self) -> UpstreamConfig {
        UpstreamConfig {
            base_url: self.base_url,
            api_key: self.api_key,
            default_model: self.default_model,
            protocol: self.protocol,
            extra_headers: self.extra_headers,
            pass_through_headers: self.pass_through_headers,
            timeout: self.timeout,
            max_retries: self.max_retries,
            retry_initial_ms: self.retry_initial_ms,
            retry_max_ms: self.retry_max_ms,
        }
    }

    /// The connection settings of this agent as an upstream configuration.
    pub fn to_upstream_config(&self) -> (u: UpstreamConfig)
        ensures
            same_upstream(u, self.spec_upstream()),
    {
        UpstreamConfig {
            base_url: self.base_url.clone(),
            api_key: copy_opt_string(&self.api_key),
            default_model: self.default_model.clone(),
            protocol: self.protocol,
            extra_headers: copy_pairs(&self.extra_headers),
            pass_through_headers: self.pass_through_headers,
            timeout: self.timeout,
            max_retries: self.max_retries,
            retry_initial_ms: self.retry_initial_ms,
            retry_max_ms: self.retry_max_ms,
        }
    }
}

/// Audit mode: sync (blocking) or async (non-blocking, background audit).
#[derive(Debug, Clone, Copy, PartialEq, Eq, Structural)]
pub enum AuditMode {
    Sync,
    Async,
}

impl AuditMode {
    /// The mode's name as it is written in configuration and logs.
    pub fn as_text(&self) -> (s: String)
        ensures
            s@ == (match self {
                AuditMode::Sync => "sync"@,
                AuditMode::Async => "async"@,
            }),
    {
        match self {
            AuditMode::Sync => "sync".to_string(),
            AuditMode::Async => "async".to_string(),
        }
    }
}

/// Optional secondary audit agent; missing fields inherit from `[audit]`.
#[derive(Debug)]
pub struct AuditAgentConfig {
    pub name: Option<String>,
    pub provider: Option<String>,
    pub base_url: Option<String>,
    pub api_key: Option<String>,
    pub model: Option<String>,
    /// Temperature override, as the bits of an `f32`
    pub temperature_bits: Option<u32>,
    pub max_tokens: Option<u32>,
    pub system_prompt: Option<String>,
}

/// Audit model settings.
#[derive(Debug)]
pub struct AuditConfig {
    /// Audit model provider: "openai", "anthropic", "local", "ollama"
    pub provider: String,
    pub base_url: Option<String>,
    pub api_key: Option<String>,
    pub model: String,
    /// Temperature, as the bits of an `f32`
    pub temperature_bits: u32,
    pub max_tokens: u32,
    pub enabled: bool,
    pub batch_size: usize,
    pub stream_audit: bool,
    pub mode: AuditMode,
    pub system_prompt: Option<String>,
    pub agents: Vec<AuditAgentConfig>,
}

/// Audit policy settings.
#[derive(Debug)]
pub struct PolicyConfig {
    /// Risk levels that should block the response
    pub block_risk_levels: Vec<String>,
    pub block_injection: bool,
    pub block_prompt_injection: bool,
    pub block_system_prompt_extraction: bool,
    pub block_tool_call: bool,
    pub log_all: bool,
    pub include_headers: bool,
    /// Custom risk keywords to flag (additional to built-in)
    pub custom_keywords: Vec<String>,
}

impl PolicyConfig {
    /// The default policy: block `critical` and `high`, block every finding
    /// category, log everything, return audit headers, no extra keywords.
    pub fn default_policy() -> (p: Self)
        ensures
            p.block_risk_levels@.len() == 2,
            p.block_risk_levels@[0]@ == "critical"@,
            p.block_risk_levels@[1]@ == "high"@,
            p.block_injection && p.block_prompt_injection && p.block_system_prompt_extraction,
            p.block_tool_call && p.log_all && p.include_headers,
            p.custom_keywords@.len() == 0,
    {
        PolicyConfig {
            block_risk_levels: default_block_levels(),
            block_injection: true,
            block_prompt_injection: true,
            block_system_prompt_extraction: true,
            block_tool_call: true,
            log_all: true,
            include_headers: true,
            custom_keywords: Vec::new(),
        }
    }
}

/// Logging settings.
#[derive(Debug)]
pub struct LoggingConfig {
    pub level: String,
    pub audit_log: bool,
    pub log_bodies: bool,
    pub log_file: Option<String>,
}

impl LoggingConfig {
    /// The default logging settings: level `info`, audit log on, bodies off,
    /// standard output.
    pub fn default_logging() -> (l: Self)
        ensures
            l.level@ == "info"@,
            l.audit_log,
            !l.log_bodies,
            l.log_file is None,
    {
        LoggingConfig {
            level: "info".to_string(),
            audit_log: true,
            log_bodies: false,
            log_file: None,
        }
    }
}

/// The whole configuration.
#[derive(Debug)]
pub struct Config {
    pub server: ServerConfig,
    pub upstream: UpstreamConfig,
    /// Optional named upstream agents for explicit routing
    pub agents: Vec<UpstreamAgentConfig>,
    pub audit: AuditConfig,
    pub policy: PolicyConfig,
    pub logging: LoggingConfig,
}

// ---------------------------------------------------------------------------
// Upstream agent registry
// ---------------------------------------------------------------------------

/// The message for an agent whose id is blank.
pub open spec fn empty_id_message() -> Seq<char> {
    "Upstream agent id cannot be empty"@
}

/// The message for an agent whose id repeats an earlier one.
pub open spec fn duplicate_id_message(id: Seq<char>) -> Seq<char> {
    "Duplicate upstream agent id '"@ + id + "'"@
}

/// The registry key of each agent: its id without surrounding white space.
pub open spec fn agent_keys(agents: Seq<UpstreamAgentConfig>) -> Seq<Seq<char>> {
    agents.map_values(|a: UpstreamAgentConfig| crate::text::trim(a.id@))
}

/// The message of the first agent id that cannot be registered, if any:
/// ids are checked in order, and an id fails when it is blank or when an
/// earlier agent has the same key.
pub open spec fn first_id_error(keys: Seq<Seq<char>>) -> Option<Seq<char>>
    decreases keys.len(),
{
    if keys.len() == 0 {
        None
    } else {
        match first_id_error(keys.drop_last()) {
            Some(e) => Some(e),
            None => {
                let k = keys.last();
                if k.len() == 0 {
                    Some(empty_id_message())
                } else if keys.drop_last().contains(k) {
                    Some(duplicate_id_message(k))
                } else {
                    None
                }
            },
        }
    }
}

/// Upstream agents keyed by their ids; no id occurs twice.
pub struct UpstreamRegistry {
    entries: Vec<(String, UpstreamConfig)>,
}

/// The keys of registry entries, in order.
pub open spec fn entry_keys(entries: Seq<(String, UpstreamConfig)>) -> Seq<Seq<char>> {
    entries.map_values(|e: (String, UpstreamConfig)| e.0@)
}

/// The position of the entry registered under `id`.
fn entry_position(entries: &Vec<(String, UpstreamConfig)>, id: &str) -> (r: Option<usize>)
    ensures
        match r {
            Some(i) => i < entries@.len() && entry_keys(entries@)[i as int] == id@,
            None => !entry_keys(entries@).contains(id@),
        },
{
    let want = chars_of(id);
    let mut i: usize = 0;
    while i < entries.len()
        invariant
            i <= entries@.len(),
            want@ == id@,
            forall|j: int| 0 <= j < i ==> entry_keys(entries@)[j] != id@,
        decreases entries@.len() - i,
    {
        let have = chars_of(entries[i].0.as_str());
        if crate::text::chars_eq(have.as_slice(), want.as_slice()) {
            return Some(i);
        }
        i = i + 1;
    }
    proof {
        if entry_keys(entries@).contains(id@) {
            let j = choose|j: int| 0 <= j < entry_keys(entries@).len() && entry_keys(entries@)[j] == id@;
            assert(entry_keys(entries@)[j] != id@);
        }
    }
    None
}

impl UpstreamRegistry {
    /// The registered keys, in registration order.
    pub closed spec fn keys(&self) -> Seq<Seq<char>> {
        entry_keys(self.entries@)
    }

    /// The agents by key.
    pub closed spec fn spec_map(&self) -> Map<Seq<char>, UpstreamConfig> {
        Map::new(
            |k: Seq<char>| self.keys().contains(k),
            |k: Seq<char>| self.entries@[self.keys().index_of(k)].1,
        )
    }

    /// No key occurs twice.
    #[verifier::type_invariant]
    closed spec fn wf(&self) -> bool {
        self.keys().no_duplicates()
    }

    /// The number of registered agents.
    pub fn len(&self) -> (n: usize)
        ensures
            n == self.keys().len(),
    {
        self.entries.len()
    }

    /// Whether an agent is registered under `id`.
    pub fn contains_key(&self, id: &str) -> (r: bool)
        ensures
            r == self.keys().contains(id@),
    {
        match self.position(id) {
            Some(_) => true,
            None => false,
        }
    }

    /// The agent registered under `id`.
    pub fn get(&self, id: &str) -> (r: Option<&UpstreamConfig>)
        ensures
            match r {
                Some(u) => self.spec_map().dom().contains(id@) && *u == self.spec_map()[id@],
                None => !self.spec_map().dom().contains(id@),
            },
    {
        proof {
            use_type_invariant(self);
        }
        match self.position(id) {
            Some(i) => {
                proof {
                    self.keys().unique_seq_to_set();
                    assert(self.keys()[i as int] == id@);
                    assert(self.keys().contains(id@));
                    lemma_index_of_unique(self.keys(), i as int);
                }
                Some(&self.entries[i].1)
            },
            None => None,
        }
    }

    /// The agent ids, in the order the agents were configured.
    pub fn ids(&self) -> (r: Vec<String>)
        ensures
            crate::text::string_views(r@) == self.keys(),
    {
        let mut r: Vec<String> = Vec::new();
        let mut i: usize = 0;
        while i < self.entries.len()
            invariant
                i <= self.entries@.len(),
                crate::text::string_views(r@) == self.keys().take(i as int),
            decreases self.entries@.len() - i,
        {
            let k = self.entries[i].0.clone();
            assert(k@ == self.keys()[i as int]);
            let ghost before = r@;
            r.push(k);
            assert(crate::text::string_views(r@) =~= crate::text::string_views(before).push(k@));
            assert(self.keys().take(i + 1) =~= self.keys().take(i as int).push(self.keys()[i as int]));
            i = i + 1;
        }
        assert(self.keys().take(i as int) =~= self.keys());
        r
    }

    fn position(&self, id: &str) -> (r: Option<usize>)
        ensures
            match r {
                Some(i) => i < self.keys().len() && self.keys()[i as int] == id@,
                None => !self.keys().contains(id@),
            },
    {
        entry_position(&self.entries, id)
    }
}

/// In a sequence without duplicates, the first index of the element at
/// `i` is `i`.
proof fn lemma_index_of_unique(ks: Seq<Seq<char>>, i: int)
    requires
        ks.no_duplicates(),
        0 <= i < ks.len(),
    ensures
        ks.index_of(ks[i]) == i,
{
    let k = ks[i];
    assert(ks.contains(k));
    let j = ks.index_of(k);
    assert(ks[j] == k);
}

impl Config {
    /// Validates what TOML deserialization cannot express: the upstream
    /// agent ids.
    pub fn validate(&self) -> (r: Result<(), String>)
        ensures
            match r {
                Ok(()) => first_id_error(agent_keys(self.agents@)) is None,
                Err(e) => first_id_error(agent_keys(self.agents@)) == Some(e@),
            },
    {
        match self.build_upstream_agents() {
            Ok(_) => Ok(()),
            Err(e) => Err(e),
        }
    }

    /// Builds the upstream agent registry, keyed by trimmed ids, rejecting
    /// blank and duplicate ids.
    pub fn build_upstream_agents(&self) -> (r: Result<UpstreamRegistry, String>)
        ensures
            match r {
                Ok(reg) => {
                    &&& first_id_error(agent_keys(self.agents@)) is None
                    &&& reg.keys() == agent_keys(self.agents@)
                    &&& forall|i: int|
                        0 <= i < self.agents@.len() ==> same_upstream(reg.spec_map()[agent_keys(
                            self.agents@,
                        )[i]], #[trigger] self.agents@[i].spec_upstream())
                },
                Err(e) => first_id_error(agent_keys(self.agents@)) == Some(e@),
            },
    {
        let mut entries: Vec<(String, UpstreamConfig)> = Vec::new();
        let ghost keys = agent_keys(self.agents@);
        let mut i: usize = 0;
        while i < self.agents.len()
            invariant
                i <= self.agents@.len(),
                keys == agent_keys(self.agents@),
                first_id_error(keys.take(i as int)) is None,
                entry_keys(entries@) == keys.take(i as int),
                entry_keys(entries@).no_duplicates(),
                forall|j: int| 0 <= j < i ==> same_upstream(#[trigger] entries@[j].1, self.agents@[j].spec_upstream()),
                entries@.len() == i,
            decreases self.agents@.len() - i,
        {
            let agent = &self.agents[i];
            let id_chars = chars_of(agent.id.as_str());
            let key_chars = trimmed(id_chars.as_slice());
            let key = string_from_chars(key_chars.as_slice());
            assert(keys.take(i + 1).drop_last() =~= keys.take(i as int));
            assert(keys.take(i + 1).last() == keys[i as int]);
            assert(key@ == keys[i as int]);
            if key_chars.len() == 0 {
                let msg = "Upstream agent id cannot be empty".to_string();
                proof {
                    lemma_first_id_error_prefix(keys, i as int + 1);
                }
                return Err(msg);
            }
            if entry_position(&entries, key.as_str()).is_some() {
                let msg = concat3("Duplicate upstream agent id '", key.as_str(), "'");
                proof {
                    lemma_first_id_error_prefix(keys, i as int + 1);
                }
                return Err(msg);
            }
            let ghost old_keys = entry_keys(entries@);
            entries.push((key, agent.to_upstream_config()));
            assert(entry_keys(entries@) =~= old_keys.push(keys[i as int]));
            proof {
                let ks = entry_keys(entries@);
                assert forall|a: int, b: int|
                    0 <= a < ks.len() && 0 <= b < ks.len() && a != b implies ks[a] != ks[b] by {
                    if a == i as int {
                        assert(old_keys[b] == ks[b]);
                    } else if b == i as int {
                        assert(old_keys[a] == ks[a]);
                    }
                }
            }
            i = i + 1;
        }
        assert(keys.take(self.agents@.len() as int) =~= keys);
        let reg = UpstreamRegistry { entries };
        proof {
            assert forall|j: int| 0 <= j < self.agents@.len() implies same_upstream(reg.spec_map()[agent_keys(
                self.agents@,
            )[j]], #[trigger] self.agents@[j].spec_upstream()) by {
                lemma_index_of_unique(reg.keys(), j);
            }
        }
        Ok(reg)
    }
}

/// The first error of a prefix that has one is the first error of the whole.
proof fn lemma_first_id_error_prefix(keys: Seq<Seq<char>>, n: int)
    requires
        0 <= n <= keys.len(),
    ensures
        first_id_error(keys.take(n)) is Some ==> first_id_error(keys) == first_id_error(
            keys.take(n),
        ),
    decreases keys.len() - n,
{
    if n < keys.len() {
        lemma_first_id_error_prefix(keys, n + 1);
        assert(keys.take(n + 1).drop_last() =~= keys.take(n));
    } else {
        assert(keys.take(n) =~= keys);
    }
}

} // verus!
