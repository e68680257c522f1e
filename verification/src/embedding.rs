//! Embedding providers: provider types and configuration, requests,
//! errors, endpoint URLs and the handling of provider replies.
use vstd::prelude::*;
use crate::retry::{next_retry_step, retry_step, FailureClass, RetryStep};
use crate::status::prefixed_message;
use crate::text::{chars_of, decimal, ends_with, push_decimal, push_str, str_eq, text_ends_with, to_unicode_lower, trim_trailing, trim_trailing_char, unicode_lowercase};

verus! {

/// Errors of embedding providers.
#[derive(Debug)]
pub enum EmbeddingError {
    /// The HTTP request failed, with the transport error's message
    HttpError(String),
    ApiError { status: u16, message: String },
    RateLimitExceeded { retry_after_ms: u64 },
    InvalidResponse(String),
    NotConfigured(String),
    Disabled(String),
    RetriesExhausted { attempts: u32, last_error: String },
    DimensionMismatch { expected: usize, actual: usize },
    SerializationError(String),
}

impl EmbeddingError {
    /// The display text of an error.
    pub open spec fn spec_message(&self) -> Seq<char> {
        match self {
            EmbeddingError::HttpError(m) => "HTTP request failed: "@ + m@,
            EmbeddingError::ApiError { status, message } => "API error: "@ + decimal(
                *status as nat,
            ) + " - "@ + message@,
            EmbeddingError::RateLimitExceeded { retry_after_ms } => "Rate limit exceeded, retry after "@
                + decimal(*retry_after_ms as nat) + "ms"@,
            EmbeddingError::InvalidResponse(m) => "Invalid response format: "@ + m@,
            EmbeddingError::NotConfigured(m) => "Provider not configured: "@ + m@,
            EmbeddingError::Disabled(m) => "Provider is disabled: "@ + m@,
            EmbeddingError::RetriesExhausted { attempts, last_error } => "All retries exhausted after "@
                + decimal(*attempts as nat) + " attempts: "@ + last_error@,
            EmbeddingError::DimensionMismatch { expected, actual } => "Embedding dimension mismatch: expected "@
                + decimal(*expected as nat) + ", got "@ + decimal(*actual as nat),
            EmbeddingError::SerializationError(m) => "Serialization error: "@ + m@,
        }
    }

    /// The display text of this error.
    pub fn to_string(&self) -> (r: String)
        ensures
            r@ == self.spec_message(),
    {
        match self {
            EmbeddingError::HttpError(m) => prefixed_message("HTTP request failed: ", m.as_str()),
            EmbeddingError::ApiError { status, message } => {
                let mut r = "API error: ".to_owned();
                push_decimal(&mut r, *status as u64);
                push_str(&mut r, " - ");
                push_str(&mut r, message.as_str());
                r
            },
            EmbeddingError::RateLimitExceeded { retry_after_ms } => {
                let mut r = "Rate limit exceeded, retry after ".to_owned();
                push_decimal(&mut r, *retry_after_ms);
                push_str(&mut r, "ms");
                r
            },
            EmbeddingError::InvalidResponse(m) => prefixed_message("Invalid response format: ", m.as_str()),
            EmbeddingError::NotConfigured(m) => prefixed_message("Provider not configured: ", m.as_str()),
            EmbeddingError::Disabled(m) => prefixed_message("Provider is disabled: ", m.as_str()),
            EmbeddingError::RetriesExhausted { attempts, last_error } => {
                let mut r = "All retries exhausted after ".to_owned();
                push_decimal(&mut r, *attempts as u64);
                push_str(&mut r, " attempts: ");
                push_str(&mut r, last_error.as_str());
                r
            },
            EmbeddingError::DimensionMismatch { expected, actual } => {
                let mut r = "Embedding dimension mismatch: expected ".to_owned();
                push_decimal(&mut r, *expected as u64);
                push_str(&mut r, ", got ");
                push_decimal(&mut r, *actual as u64);
                r
            },
            EmbeddingError::SerializationError(m) => prefixed_message("Serialization error: ", m.as_str()),
        }
    }

    /// How the retry rule treats this error: rate limits and transport
    /// failures and server errors (status 500 and above) are retried.
    pub open spec fn spec_failure_class(&self) -> FailureClass {
        match self {
            EmbeddingError::RateLimitExceeded { retry_after_ms } => FailureClass::RateLimited {
                retry_after_ms: *retry_after_ms,
            },
            EmbeddingError::HttpError(_) => FailureClass::Transient,
            EmbeddingError::ApiError { status, .. } => if *status >= 500 {
                FailureClass::Transient
            } else {
                FailureClass::Permanent
            },
            _ => FailureClass::Permanent,
        }
    }

    /// How the retry rule treats this error.
    pub fn failure_class(&self) -> (c: FailureClass)
        ensures
            c == self.spec_failure_class(),
    {
        match self {
            EmbeddingError::RateLimitExceeded { retry_after_ms } => FailureClass::RateLimited {
                retry_after_ms: *retry_after_ms,
            },
            EmbeddingError::HttpError(_) => FailureClass::Transient,
            EmbeddingError::ApiError { status, .. } => if *status >= 500 {
                FailureClass::Transient
            } else {
                FailureClass::Permanent
            },
            _ => FailureClass::Permanent,
        }
    }
}

/// What the embedding retry loop does after failed attempt `attempt`.
#[derive(Debug)]
pub enum EmbedRetry {
    /// Wait as said, then try again
    Retry(crate::retry::RetryDelay),
    /// Stop with this error
    Fail(EmbeddingError),
}

/// Decides what follows a failed embedding attempt: retry after a delay,
/// fail with the error itself, or fail with `RetriesExhausted` carrying the
/// number of attempts and the error's text.
pub fn after_failed_embedding(attempt: u32, max_retries: u32, error: EmbeddingError) -> (r: EmbedRetry)
    requires
        attempt <= max_retries,
        max_retries < u32::MAX,
    ensures
        match retry_step(attempt, max_retries, error.spec_failure_class()) {
            RetryStep::Retry(d) => r == EmbedRetry::Retry(d),
            RetryStep::GiveUp => r == EmbedRetry::Fail(error),
            RetryStep::Exhausted { attempts } => r matches EmbedRetry::Fail(
                EmbeddingError::RetriesExhausted { attempts: a, last_error },
            ) && a == attempts && last_error@ == error.spec_message(),
        },
{
    let step = next_retry_step(attempt, max_retries, error.failure_class());
    match step {
        RetryStep::Retry(d) => EmbedRetry::Retry(d),
        RetryStep::GiveUp => EmbedRetry::Fail(error),
        RetryStep::Exhausted { attempts } => {
            let last_error = error.to_string();
            EmbedRetry::Fail(EmbeddingError::RetriesExhausted { attempts, last_error })
        },
    }
}

/// Supported embedding provider types.
#[derive(Debug, Clone, Copy, PartialEq, Eq, Hash, Structural)]
pub enum ProviderType {
    Openai,
    Azure,
    Local,
}

impl ProviderType {
    /// The snake_case name of the provider type.
    pub open spec fn spec_name(self) -> Seq<char> {
        match self {
            ProviderType::Openai => "openai"@,
            ProviderType::Azure => "azure"@,
            ProviderType::Local => "local"@,
        }
    }

    /// The provider type whose name is exactly `t`.
    pub open spec fn spec_from_name(t: Seq<char>) -> Option<ProviderType> {
        if t == "openai"@ {
            Some(ProviderType::Openai)
        } else if t == "azure"@ {
            Some(ProviderType::Azure)
        } else if t == "local"@ {
            Some(ProviderType::Local)
        } else {
            None
        }
    }

    /// The snake_case name of the provider type.
    pub fn as_str(&self) -> (s: &'static str)
        ensures
            s@ == self.spec_name(),
    {
        match self {
            ProviderType::Openai => "openai",
            ProviderType::Azure => "azure",
            ProviderType::Local => "local",
        }
    }

    /// The display text of the provider type.
    pub fn to_string(&self) -> (s: String)
        ensures
            s@ == self.spec_name(),
    {
        self.as_str().to_owned()
    }

    /// The provider type named by an already lowercased text.
    pub fn from_lowercase_name(t: &str) -> (r: Option<ProviderType>)
        ensures
            r == Self::spec_from_name(t@),
    {
        if str_eq(t, "openai") {
            Some(ProviderType::Openai)
        } else if str_eq(t, "azure") {
            Some(ProviderType::Azure)
        } else if str_eq(t, "local") {
            Some(ProviderType::Local)
        } else {
            None
        }
    }

    /// Parses a provider type case-insensitively; unknown names are refused
    /// with `Unknown provider type: <name>`.
    pub fn parse(s: &str) -> (r: Result<ProviderType, String>)
        ensures
            match Self::spec_from_name(unicode_lowercase(s@)) {
                Some(t) => r == Ok::<ProviderType, String>(t),
                None => r is Err && r->Err_0@ == "Unknown provider type: "@ + s@,
            },
    {
        let lower = to_unicode_lower(s);
        match Self::from_lowercase_name(lower.as_str()) {
            Some(t) => Ok(t),
            None => Err(prefixed_message("Unknown provider type: ", s)),
        }
    }
}

impl std::str::FromStr for ProviderType {
    type Err = String;

    fn from_str(s: &str) -> (r: Result<Self, Self::Err>)
        ensures
            match ProviderType::spec_from_name(unicode_lowercase(s@)) {
                Some(t) => r == Ok::<ProviderType, String>(t),
                None => r is Err && r->Err_0@ == "Unknown provider type: "@ + s@,
            },
    {
        ProviderType::parse(s)
    }
}

impl Default for ProviderType {
    fn default() -> (t: Self)
        ensures
            t == ProviderType::Local,
    {
        ProviderType::Local
    }
}

/// Every provider type's name reads back as that type.
pub proof fn embedding_provider_type_round_trip(t: ProviderType)
    ensures
        ProviderType::spec_from_name(t.spec_name()) == Some(t),
{
    reveal_strlit("openai");
    reveal_strlit("azure");
    reveal_strlit("local");
    assert("azure"@[0] != "openai"@[0]);
    assert("local"@[0] != "openai"@[0]);
    assert("local"@[0] != "azure"@[0]);
}

/// Configuration of one embedding provider.
#[derive(Debug, Clone)]
pub struct ProviderConfig {
    pub name: String,
    pub provider_type: ProviderType,
    pub endpoint: String,
    pub api_key: Option<String>,
    pub model: String,
    pub dimension: usize,
    pub enabled: bool,
}

/// Providers are enabled unless configured otherwise.
pub fn default_enabled() -> (r: bool)
    ensures
        r,
{
    true
}

/// Which client serves a provider type.
#[derive(Debug, Clone, Copy, PartialEq, Eq, Structural)]
pub enum EmbeddingBackend {
    /// The OpenAI embeddings API (also used for Azure)
    OpenAi,
    /// A local server with an OpenAI-compatible API
    LocalServer,
}

/// The client for a provider type: OpenAI and Azure use the OpenAI client.
pub fn backend_for(provider_type: ProviderType) -> (b: EmbeddingBackend)
    ensures
        b == (if provider_type is Local {
            EmbeddingBackend::LocalServer
        } else {
            EmbeddingBackend::OpenAi
        }),
{
    match provider_type {
        ProviderType::Openai | ProviderType::Azure => EmbeddingBackend::OpenAi,
        ProviderType::Local => EmbeddingBackend::LocalServer,
    }
}

/// The configuration of the service's embedding provider: named after its
/// type and model (`<type>-<model>`), and enabled.
pub fn service_provider_config(
    provider_type: ProviderType,
    endpoint: String,
    api_key: Option<String>,
    model: String,
    dimension: usize,
) -> (c: ProviderConfig)
    ensures
        c.name@ == provider_type.spec_name() + "-"@ + model@,
        c.provider_type == provider_type,
        c.endpoint == endpoint,
        c.api_key == api_key,
        c.model == model,
        c.dimension == dimension,
        c.enabled,
{
    let mut name = provider_type.to_string();
    push_str(&mut name, "-");
    push_str(&mut name, model.as_str());
    ProviderConfig { name, provider_type, endpoint, api_key, model, dimension, enabled: true }
}

/// A request for the embedding of one text.
#[derive(Debug, Clone)]
pub struct EmbeddingRequest {
    /// Text to embed
    pub text: String,
    /// Model override (uses the provider default if absent)
    pub model: Option<String>,
}

impl EmbeddingRequest {
    /// A request for `text` with the provider's default model.
    pub fn new(text: &str) -> (r: EmbeddingRequest)
        ensures
            r.text@ == text@,
            r.model is None,
    {
        EmbeddingRequest { text: text.to_owned(), model: None }
    }

    /// A request for `text` with a given model.
    pub fn with_model(text: &str, model: &str) -> (r: EmbeddingRequest)
        ensures
            r.text@ == text@,
            r.model matches Some(m) && m@ == model@,
    {
        EmbeddingRequest { text: text.to_owned(), model: Some(model.to_owned()) }
    }

    /// The model a provider uses for this request: the override, else its own.
    pub fn model_or<'a>(&'a self, default_model: &'a str) -> (m: &'a str)
        ensures
            m@ == (match self.model {
                Some(x) => x@,
                None => default_model@,
            }),
    {
        match &self.model {
            Some(m) => m.as_str(),
            None => default_model,
        }
    }
}

/// Checks an embedding's length against the provider's dimension.
pub fn validate_dimension(expected: usize, actual: usize) -> (r: Result<(), EmbeddingError>)
    ensures
        expected == actual ==> r is Ok,
        expected != actual ==> (r matches Err(
            EmbeddingError::DimensionMismatch { expected: e, actual: a },
        ) && e == expected && a == actual),
{
    if actual != expected {
        return Err(EmbeddingError::DimensionMismatch { expected, actual });
    }
    Ok(())
}

/// Checks a successful reply: the first embedding in the data (its length
/// given, `None` when there is none) must have the provider's dimension.
pub fn check_embedding_reply(first_len: Option<usize>, expected: usize) -> (r: Result<(), EmbeddingError>)
    ensures
        match first_len {
            None => r matches Err(EmbeddingError::InvalidResponse(m)) && m@
                == "No embedding data in response"@,
            Some(n) => (n == expected ==> r is Ok) && (n != expected ==> (r matches Err(
                EmbeddingError::DimensionMismatch { expected: e, actual: a },
            ) && e == expected && a == n)),
        },
{
    match first_len {
        None => Err(EmbeddingError::InvalidResponse("No embedding data in response".to_owned())),
        Some(n) => validate_dimension(expected, n),
    }
}

/// A disabled provider refuses to embed, naming itself.
pub fn ensure_enabled(enabled: bool, name: &str) -> (r: Result<(), EmbeddingError>)
    ensures
        enabled ==> r is Ok,
        !enabled ==> (r matches Err(EmbeddingError::Disabled(n)) && n@ == name@),
{
    if enabled {
        Ok(())
    } else {
        Err(EmbeddingError::Disabled(name.to_owned()))
    }
}

/// Whether a character is an ASCII decimal digit.
pub open spec fn is_digit(c: char) -> bool {
    '0' <= c && c <= '9'
}

/// The number the decimal digits spell.
pub open spec fn digits_value(d: Seq<char>) -> nat
    decreases d.len(),
{
    if d.len() == 0 {
        0
    } else {
        digits_value(d.drop_last()) * 10 + ((d.last() as int) - 48) as nat
    }
}

/// The text after an optional leading `+`.
pub open spec fn unsigned_digits(s: Seq<char>) -> Seq<char> {
    if s.len() > 0 && s[0] == '+' {
        s.drop_first()
    } else {
        s
    }
}

/// Whether every character is an ASCII digit.
pub open spec fn all_digits(d: Seq<char>) -> bool {
    forall|i: int| 0 <= i < d.len() ==> is_digit(#[trigger] d[i])
}

/// What `str::parse::<u64>` gives: an optional `+`, then one or more ASCII
/// digits whose value fits in a `u64`; anything else is refused.
pub open spec fn spec_parse_u64(s: Seq<char>) -> Option<u64> {
    let d = unsigned_digits(s);
    if d.len() > 0 && all_digits(d) && digits_value(d) <= u64::MAX {
        Some(digits_value(d) as u64)
    } else {
        None
    }
}

proof fn lemma_digits_value_grows(d: Seq<char>, k: int)
    requires
        0 <= k <= d.len(),
        all_digits(d),
    ensures
        digits_value(d.take(k)) <= digits_value(d),
    decreases d.len() - k,
{
    if k < d.len() {
        lemma_digits_value_grows(d, k + 1);
        let t = d.take(k + 1);
        assert(t.drop_last() =~= d.take(k));
        assert(is_digit(d[k]));
        assert(t.last() == d[k]);
    } else {
        assert(d.take(k) =~= d);
    }
}

/// Reads the `retry-after` header's text as a number of seconds, as
/// `str::parse::<u64>` does.
pub fn parse_retry_after(text: &str) -> (r: Option<u64>)
    ensures
        r == spec_parse_u64(text@),
{
    let cs = chars_of(text);
    let start: usize = if cs.len() > 0 && cs[0] == '+' {
        1
    } else {
        0
    };
    let ghost d = unsigned_digits(text@);
    assert(d =~= cs@.skip(start as int));
    if start == cs.len() {
        return None;
    }
    let mut v: u64 = 0;
    let mut i: usize = start;
    while i < cs.len()
        invariant
            start <= i <= cs.len(),
            cs@ == text@,
            d == cs@.skip(start as int),
            d == unsigned_digits(text@),
            forall|k: int| 0 <= k < i - start ==> is_digit(#[trigger] d[k]),
            v == digits_value(d.take(i - start)),
        decreases cs.len() - i,
    {
        let c = cs[i];
        assert(d[i - start] == c);
        if !('0' <= c && c <= '9') {
            assert(!is_digit(d[i - start]));
            assert(d.len() > 0);
            assert(!all_digits(d));
            return None;
        }
        let digit: u64 = (c as u32 - 48) as u64;
        assert((c as int) - 48 == digit as int);
        let ghost t = d.take(i - start + 1);
        assert(t.len() > 0);
        assert(digits_value(t) == digits_value(t.drop_last()) * 10 + ((t.last() as int) - 48) as nat);
        assert(t.drop_last() == d.take(i - start));
        assert(digits_value(t.drop_last()) == v);
        assert(t.last() == c);
        assert(((t.last() as int) - 48) as nat == digit);
        assert(digits_value(t) == v * 10 + digit);
        assert(d.take(i - start + 1).drop_last() =~= d.take(i - start));
        assert(d.take(i - start + 1).last() == c);
        if v > (u64::MAX - digit) / 10 {
            proof {
                assert(v * 10 + digit > u64::MAX) by (nonlinear_arith)
                    requires
                        v > (u64::MAX - digit) / 10,
                        digit <= 9,
                ;
                if all_digits(d) {
                    lemma_digits_value_grows(d, i - start + 1);
                    assert(digits_value(d) > u64::MAX);
                }
            }
            return None;
        }
        v = v * 10 + digit;
        i += 1;
    }
    assert(d.take(i - start) =~= d);
    Some(v)
}

/// The error for a rate-limited reply: the `retry-after` header's value in
/// seconds when it parsed, else the provider's default, as milliseconds.
pub fn rate_limit_error(retry_after_seconds: Option<u64>, default_seconds: u64) -> (r: EmbeddingError)
    requires
        (match retry_after_seconds {
            Some(s) => s,
            None => default_seconds,
        }) * 1000 <= u64::MAX,
    ensures
        r == (EmbeddingError::RateLimitExceeded {
            retry_after_ms: ((match retry_after_seconds {
                Some(s) => s,
                None => default_seconds,
            }) * 1000) as u64,
        }),
{
    let seconds = match retry_after_seconds {
        Some(s) => s,
        None => default_seconds,
    };
    EmbeddingError::RateLimitExceeded { retry_after_ms: seconds * 1000 }
}

/// The API key an OpenAI provider is built with; it has none without one.
pub fn require_api_key(api_key: Option<String>) -> (r: Result<String, EmbeddingError>)
    ensures
        match api_key {
            Some(k) => r == Ok::<String, EmbeddingError>(k),
            None => r matches Err(EmbeddingError::NotConfigured(m)) && m@
                == "API key is required for OpenAI provider"@,
        },
{
    match api_key {
        Some(k) => Ok(k),
        None => Err(EmbeddingError::NotConfigured("API key is required for OpenAI provider".to_owned())),
    }
}

/// The error for an unsuccessful reply other than a rate limit: its status
/// and body text, or `HTTP <status line>` when the body is empty.
pub fn api_error(status: u16, body: String, status_line: &str) -> (r: EmbeddingError)
    ensures
        r matches EmbeddingError::ApiError { status: s, message } && s == status && message@ == (
        if body@.len() == 0 {
            "HTTP "@ + status_line@
        } else {
            body@
        }),
{
    let message = if body.as_str().is_empty() {
        prefixed_message("HTTP ", status_line)
    } else {
        body
    };
    EmbeddingError::ApiError { status, message }
}

/// The error for an unsuccessful OpenAI reply other than a rate limit: its
/// status, and the `error.message` of the body when the body is an OpenAI
/// error object (`parsed_message`), else the body text as it came.
pub fn openai_api_error(status: u16, body: String, parsed_message: Option<String>) -> (r: EmbeddingError)
    ensures
        r matches EmbeddingError::ApiError { status: s, message } && s == status && message@ == (
        match parsed_message {
            Some(m) => m@,
            None => body@,
        }),
{
    let message = match parsed_message {
        Some(m) => m,
        None => body,
    };
    EmbeddingError::ApiError { status, message }
}

/// The embeddings URL of an OpenAI-style endpoint: the endpoint without
/// trailing slashes, then `/embeddings`.
pub open spec fn openai_embeddings_url(endpoint: Seq<char>) -> Seq<char> {
    trim_trailing(endpoint, '/') + "/embeddings"@
}

/// The embeddings URL of a local server: `/embeddings` after a base that
/// already ends in `/v1`, else `/v1/embeddings`.
pub open spec fn local_embeddings_url(endpoint: Seq<char>) -> Seq<char> {
    let base = trim_trailing(endpoint, '/');
    if ends_with(base, "/v1"@) {
        base + "/embeddings"@
    } else {
        base + "/v1/embeddings"@
    }
}

/// The embeddings URL of an OpenAI-style endpoint.
pub fn openai_embeddings_url_for(endpoint: &str) -> (r: String)
    ensures
        r@ == openai_embeddings_url(endpoint@),
{
    let mut base = trim_trailing_char(endpoint, '/');
    push_str(&mut base, "/embeddings");
    base
}

/// The embeddings URL of a local model server.
pub fn local_embeddings_url_for(endpoint: &str) -> (r: String)
    ensures
        r@ == local_embeddings_url(endpoint@),
{
    let mut base = trim_trailing_char(endpoint, '/');
    if text_ends_with(base.as_str(), "/v1") {
        push_str(&mut base, "/embeddings");
    } else {
        push_str(&mut base, "/v1/embeddings");
    }
    base
}

/// The bearer authorization header value for an API key.
pub fn bearer(api_key: &str) -> (r: String)
    ensures
        r@ == "Bearer "@ + api_key@,
{
    prefixed_message("Bearer ", api_key)
}

} // verus!
