//! Provider-agnostic AI abstraction: a capability contract and its backends.
//!
//! Network work stays with the host: a backend names the address it must be
//! reachable at (`probe_address`), the host tries it, and `is_available`
//! decides from the outcome. Every call re-derives readiness; nothing is cached.
use vstd::prelude::*;
use vstd::string::StrSliceExecFns;

verus! {

/// Failures of a provider call.
#[derive(Debug)]
pub enum AIError {
    /// Required connection information is missing.
    NotConfigured,
    /// The backend call failed.
    RequestFailed(String),
    /// The backend answered with a payload of the wrong shape.
    InvalidResponse(String),
}

impl AIError {
    /// A stable, human-readable description of the failure.
    pub fn message(&self) -> (r: String)
        ensures
            match self {
                AIError::NotConfigured => r@ == "Provider not configured"@,
                AIError::RequestFailed(m) => r@ == "Request failed: "@ + m@,
                AIError::InvalidResponse(m) => r@ == "Invalid response: "@ + m@,
            },
    {
        match self {
            AIError::NotConfigured => String::from_str("Provider not configured"),
            AIError::RequestFailed(m) => String::from_str("Request failed: ").concat(m.as_str()),
            AIError::InvalidResponse(m) => String::from_str("Invalid response: ").concat(m.as_str()),
        }
    }
}

/// A completion request. The sampling temperature is in hundredths
/// (70 stands for 0.7).
#[derive(Debug, Clone)]
pub struct AIRequest {
    pub prompt: String,
    pub system_prompt: Option<String>,
    pub max_tokens: Option<u32>,
    pub temperature_hundredths: Option<u32>,
}

/// A completion answer, with an optional structured payload.
#[derive(Debug, Clone)]
pub struct AIResponse {
    pub content: String,
    pub structured: Option<serde_json::Value>,
    pub tokens_used: Option<u32>,
}

/// A candidate fact about a person. The confidence is in percent, 0 to 100.
#[derive(Debug, Clone)]
pub struct ExtractedMemory {
    pub key: String,
    pub value: String,
    pub importance: i32,
    pub confidence_percent: u8,
}

/// The capability set shared by every backend.
pub trait AIProvider {
    /// Stable display identifier.
    fn name(&self) -> &'static str;

    /// The `host:port` the backend must be reachable at, if it has one.
    fn probe_address(&self) -> Option<String>;

    /// Whether the backend can answer now, given whether its probe address
    /// accepted a connection just now (ignored by backends without one).
    fn is_available(&self, endpoint_reachable: bool) -> bool;

    /// One-shot text completion.
    fn complete(&self, request: AIRequest) -> Result<AIResponse, AIError>;

    /// Candidate facts found in a conversation.
    fn extract_memories(&self, conversation: &str) -> Result<Vec<ExtractedMemory>, AIError>;
}

/// Cloud-hosted backend, usable only with a credential.
pub struct OpenAIProvider {
    api_key: Option<String>,
    model: String,
}

impl OpenAIProvider {
    /// The credential it was built with.
    pub closed spec fn credential(&self) -> Option<String> {
        self.api_key
    }

    /// The model it asks for.
    pub closed spec fn model(&self) -> Seq<char> {
        self.model@
    }

    pub fn new(api_key: Option<String>) -> (r: Self)
        ensures
            r.credential() == api_key,
            r.model() == "gpt-4o-mini"@,
    {
        OpenAIProvider { api_key, model: String::from_str("gpt-4o-mini") }
    }
}

impl AIProvider for OpenAIProvider {
    fn name(&self) -> (r: &'static str)
        ensures
            r@ == "OpenAI"@,
    {
        "OpenAI"
    }

    fn probe_address(&self) -> (r: Option<String>)
        ensures
            r is None,
    {
        None
    }

    fn is_available(&self, _endpoint_reachable: bool) -> (r: bool)
        ensures
            r == self.credential() is Some,
    {
        self.api_key.is_some()
    }

    /// No transport to the service is wired in, so no request is ever sent.
    fn complete(&self, _request: AIRequest) -> (r: Result<AIResponse, AIError>)
        ensures
            r is Err && r->Err_0 is NotConfigured,
    {
        Err(AIError::NotConfigured)
    }

    fn extract_memories(&self, _conversation: &str) -> (r: Result<Vec<ExtractedMemory>, AIError>)
        ensures
            r is Err && r->Err_0 is NotConfigured,
    {
        Err(AIError::NotConfigured)
    }
}

/// Local backend, reached over HTTP at `endpoint`.
pub struct OllamaProvider {
    endpoint: String,
    model: String,
}

/// Index of the first `/` in `s` at or after `i`, or the length of `s`.
pub open spec fn slash_from(s: Seq<char>, i: int) -> int
    decreases s.len() - i,
{
    if i < 0 || i >= s.len() {
        s.len() as int
    } else if s[i] == '/' {
        i
    } else {
        slash_from(s, i + 1)
    }
}

/// The authority part of `rest` (up to the first `/`), with `port` appended
/// when it names none; nothing when it is empty.
pub open spec fn authority_with_port(rest: Seq<char>, port: Seq<char>) -> Option<Seq<char>> {
    let a = rest.subrange(0, slash_from(rest, 0));
    if a.len() == 0 {
        None
    } else if a.contains(':') {
        Some(a)
    } else {
        Some(a + ":"@ + port)
    }
}

/// The `host:port` an `http://` or `https://` endpoint is served at.
pub open spec fn host_and_port(endpoint: Seq<char>) -> Option<Seq<char>> {
    if endpoint.len() >= 7 && endpoint.subrange(0, 7) == "http://"@ {
        authority_with_port(endpoint.subrange(7, endpoint.len() as int), "80"@)
    } else if endpoint.len() >= 8 && endpoint.subrange(0, 8) == "https://"@ {
        authority_with_port(endpoint.subrange(8, endpoint.len() as int), "443"@)
    } else {
        None
    }
}

proof fn lemma_slash_from_bounds(s: Seq<char>, i: int)
    requires
        0 <= i <= s.len(),
    ensures
        i <= slash_from(s, i) <= s.len(),
    decreases s.len() - i,
{
    if i < s.len() && s[i] != '/' {
        lemma_slash_from_bounds(s, i + 1);
    }
}

/// `s` starts with `prefix`.
fn starts_with(s: &str, prefix: &str) -> (r: bool)
    ensures
        r == (s@.len() >= prefix@.len() && s@.subrange(0, prefix@.len() as int) == prefix@),
{
    let n = s.unicode_len();
    let k = prefix.unicode_len();
    if n < k {
        false
    } else {
        let head = String::from_str(s.substring_char(0, k));
        let p = String::from_str(prefix);
        head == p
    }
}

/// The authority of `rest` with the default `port` added if it names none.
fn authority_and_port(rest: &str, port: &str) -> (r: Option<String>)
    ensures
        match r {
            Some(a) => authority_with_port(rest@, port@) == Some(a@),
            None => authority_with_port(rest@, port@) is None,
        },
{
    let n = rest.unicode_len();
    let mut end: usize = 0;
    while end < n && rest.get_char(end) != '/'
        invariant
            n == rest@.len(),
            end <= n,
            slash_from(rest@, end as int) == slash_from(rest@, 0),
        decreases n - end,
    {
        end = end + 1;
    }
    proof {
        lemma_slash_from_bounds(rest@, end as int);
    }
    assert(end == slash_from(rest@, 0));
    if end == 0 {
        return None;
    }
    let authority = rest.substring_char(0, end);
    let mut i: usize = 0;
    let mut has_port = false;
    while i < end
        invariant
            authority@ == rest@.subrange(0, end as int),
            authority@.len() == end,
            i <= end,
            has_port == (exists|j: int| 0 <= j < i && authority@[j] == ':'),
        decreases end - i,
    {
        if authority.get_char(i) == ':' {
            has_port = true;
        }
        i = i + 1;
    }
    if has_port {
        Some(String::from_str(authority))
    } else {
        assert(!authority@.contains(':'));
        Some(String::from_str(authority).concat(":").concat(port))
    }
}

impl OllamaProvider {
    /// The endpoint it talks to.
    pub closed spec fn endpoint(&self) -> Seq<char> {
        self.endpoint@
    }

    /// The model it asks for.
    pub closed spec fn model(&self) -> Seq<char> {
        self.model@
    }

    /// Missing settings take their defaults: the standard local endpoint and
    /// the `llama2` model.
    pub fn new(endpoint: Option<String>, model: Option<String>) -> (r: Self)
        ensures
            r.endpoint() == match endpoint {
                Some(e) => e@,
                None => "http://localhost:11434"@,
            },
            r.model() == match model {
                Some(m) => m@,
                None => "llama2"@,
            },
    {
        let endpoint = match endpoint {
            Some(e) => e,
            None => String::from_str("http://localhost:11434"),
        };
        let model = match model {
            Some(m) => m,
            None => String::from_str("llama2"),
        };
        OllamaProvider { endpoint, model }
    }
}

impl AIProvider for OllamaProvider {
    fn name(&self) -> (r: &'static str)
        ensures
            r@ == "Ollama"@,
    {
        "Ollama"
    }

    fn probe_address(&self) -> (r: Option<String>)
        ensures
            match r {
                Some(a) => host_and_port(self.endpoint()) == Some(a@),
                None => host_and_port(self.endpoint()) is None,
            },
    {
        let e = self.endpoint.as_str();
        proof {
            reveal_strlit("http://");
            reveal_strlit("https://");
        }
        if starts_with(e, "http://") {
            let rest = e.substring_char(7, e.unicode_len());
            authority_and_port(rest, "80")
        } else if starts_with(e, "https://") {
            let rest = e.substring_char(8, e.unicode_len());
            authority_and_port(rest, "443")
        } else {
            None
        }
    }

    fn is_available(&self, endpoint_reachable: bool) -> (r: bool)
        ensures
            r == (endpoint_reachable && host_and_port(self.endpoint()) is Some),
    {
        endpoint_reachable && self.probe_address().is_some()
    }

    /// The completion API is not wired in, so no request is ever sent.
    fn complete(&self, _request: AIRequest) -> (r: Result<AIResponse, AIError>)
        ensures
            r is Err && r->Err_0 is NotConfigured,
    {
        Err(AIError::NotConfigured)
    }

    fn extract_memories(&self, _conversation: &str) -> (r: Result<Vec<ExtractedMemory>, AIError>)
        ensures
            r is Err && r->Err_0 is NotConfigured,
    {
        Err(AIError::NotConfigured)
    }
}

/// Deterministic backend for tests and development.
pub struct MockProvider;

impl AIProvider for MockProvider {
    fn name(&self) -> (r: &'static str)
        ensures
            r@ == "Mock"@,
    {
        "Mock"
    }

    fn probe_address(&self) -> (r: Option<String>)
        ensures
            r is None,
    {
        None
    }

    fn is_available(&self, _endpoint_reachable: bool) -> (r: bool)
        ensures
            r,
    {
        true
    }

    fn complete(&self, request: AIRequest) -> (r: Result<AIResponse, AIError>)
        ensures
            r is Ok,
            r->Ok_0.content@ == "Mock response for: "@ + request.prompt@,
            r->Ok_0.structured is None,
            r->Ok_0.tokens_used == Some(10u32),
    {
        let content = String::from_str("Mock response for: ").concat(request.prompt.as_str());
        Ok(AIResponse { content, structured: None, tokens_used: Some(10) })
    }

    fn extract_memories(&self, _conversation: &str) -> (r: Result<Vec<ExtractedMemory>, AIError>)
        ensures
            r is Ok,
            r->Ok_0@.len() == 1,
            r->Ok_0@[0].key@ == "topic"@,
            r->Ok_0@[0].value@ == "Discussed in conversation"@,
            r->Ok_0@[0].importance == 3,
            r->Ok_0@[0].confidence_percent == 80,
    {
        let fact = ExtractedMemory {
            key: String::from_str("topic"),
            value: String::from_str("Discussed in conversation"),
            importance: 3,
            confidence_percent: 80,
        };
        let mut facts: Vec<ExtractedMemory> = Vec::new();
        facts.push(fact);
        Ok(facts)
    }
}

} // verus!
