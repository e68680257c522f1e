//! Chat (LLM) providers: provider types and defaults, messages and
//! requests, errors, the retry decision and the assembly of a streamed reply.
use vstd::prelude::*;
use crate::retry::{next_retry_step, retry_step, FailureClass, RetryDelay, RetryStep};
use crate::status::prefixed_message;
use crate::text::{contains_text, decimal, push_decimal, push_str, str_eq, text_contains, to_unicode_lower, unicode_lowercase};

verus! {

/// Errors of chat providers.
#[derive(Debug)]
pub enum LlmError {
    /// The HTTP request failed, with the transport error's message
    HttpError(String),
    ApiError { status: u16, message: String },
    RateLimitExceeded { retry_after_ms: u64 },
    InvalidResponse(String),
    NotConfigured(String),
    Disabled(String),
    RetriesExhausted { attempts: u32, last_error: String },
    SerializationError(String),
    ContentFiltered(String),
    TokenLimitExceeded { max_tokens: u32, requested: u32 },
}

impl LlmError {
    /// The display text of an error.
    pub open spec fn spec_message(&self) -> Seq<char> {
        match self {
            LlmError::HttpError(m) => "HTTP request failed: "@ + m@,
            LlmError::ApiError { status, message } => "API error: "@ + decimal(*status as nat)
                + " - "@ + message@,
            LlmError::RateLimitExceeded { retry_after_ms } => "Rate limit exceeded, retry after "@
                + decimal(*retry_after_ms as nat) + "ms"@,
            LlmError::InvalidResponse(m) => "Invalid response format: "@ + m@,
            LlmError::NotConfigured(m) => "Provider not configured: "@ + m@,
            LlmError::Disabled(m) => "Provider is disabled: "@ + m@,
            LlmError::RetriesExhausted { attempts, last_error } => "All retries exhausted after "@
                + decimal(*attempts as nat) + " attempts: "@ + last_error@,
            LlmError::SerializationError(m) => "Serialization error: "@ + m@,
            LlmError::ContentFiltered(m) => "Content filter triggered: "@ + m@,
            LlmError::TokenLimitExceeded { max_tokens, requested } => "Token limit exceeded: max "@
                + decimal(*max_tokens as nat) + ", requested "@ + decimal(*requested as nat),
        }
    }

    /// The display text of this error.
    pub fn to_string(&self) -> (r: String)
        ensures
            r@ == self.spec_message(),
    {
        match self {
            LlmError::HttpError(m) => prefixed_message("HTTP request failed: ", m.as_str()),
            LlmError::ApiError { status, message } => {
                let mut r = "API error: ".to_owned();
                push_decimal(&mut r, *status as u64);
                push_str(&mut r, " - ");
                push_str(&mut r, message.as_str());
                r
            },
            LlmError::RateLimitExceeded { retry_after_ms } => {
                let mut r = "Rate limit exceeded, retry after ".to_owned();
                push_decimal(&mut r, *retry_after_ms);
                push_str(&mut r, "ms");
                r
            },
            LlmError::InvalidResponse(m) => prefixed_message("Invalid response format: ", m.as_str()),
            LlmError::NotConfigured(m) => prefixed_message("Provider not configured: ", m.as_str()),
            LlmError::Disabled(m) => prefixed_message("Provider is disabled: ", m.as_str()),
            LlmError::RetriesExhausted { attempts, last_error } => {
                let mut r = "All retries exhausted after ".to_owned();
                push_decimal(&mut r, *attempts as u64);
                push_str(&mut r, " attempts: ");
                push_str(&mut r, last_error.as_str());
                r
            },
            LlmError::SerializationError(m) => prefixed_message("Serialization error: ", m.as_str()),
            LlmError::ContentFiltered(m) => prefixed_message("Content filter triggered: ", m.as_str()),
            LlmError::TokenLimitExceeded { max_tokens, requested } => {
                let mut r = "Token limit exceeded: max ".to_owned();
                push_decimal(&mut r, *max_tokens as u64);
                push_str(&mut r, ", requested ");
                push_decimal(&mut r, *requested as u64);
                r
            },
        }
    }

    /// How the retry rule treats this error: rate limits, transport
    /// failures and server errors (status 500 and above) are retried.
    pub open spec fn spec_failure_class(&self) -> FailureClass {
        match self {
            LlmError::RateLimitExceeded { retry_after_ms } => FailureClass::RateLimited {
                retry_after_ms: *retry_after_ms,
            },
            LlmError::HttpError(_) => FailureClass::Transient,
            LlmError::ApiError { status, .. } => if *status >= 500 {
                FailureClass::Transient
            } else {
                FailureClass::Permanent
            },
            _ => FailureClass::Permanent,
        }
    }

    /// How the retry rule treats this error.
    pub fn failure_class(&self) -> (c: FailureClass)
        ensures
            c == self.spec_failure_class(),
    {
        match self {
            LlmError::RateLimitExceeded { retry_after_ms } => FailureClass::RateLimited {
                retry_after_ms: *retry_after_ms,
            },
            LlmError::HttpError(_) => FailureClass::Transient,
            LlmError::ApiError { status, .. } => if *status >= 500 {
                FailureClass::Transient
            } else {
                FailureClass::Permanent
            },
            _ => FailureClass::Permanent,
        }
    }
}

/// What the chat retry loop does after a failed attempt.
#[derive(Debug)]
pub enum ChatRetry {
    /// Wait as said, then try again
    Retry(RetryDelay),
    /// Stop with this error
    Fail(LlmError),
}

/// Decides what follows a failed chat attempt: retry after a delay, fail
/// with the error itself, or fail with `RetriesExhausted` carrying the
/// number of attempts and the error's text.
pub fn after_failed_chat(attempt: u32, max_retries: u32, error: LlmError) -> (r: ChatRetry)
    requires
        attempt <= max_retries,
        max_retries < u32::MAX,
    ensures
        match retry_step(attempt, max_retries, error.spec_failure_class()) {
            RetryStep::Retry(d) => r == ChatRetry::Retry(d),
            RetryStep::GiveUp => r == ChatRetry::Fail(error),
            RetryStep::Exhausted { attempts } => r matches ChatRetry::Fail(
                LlmError::RetriesExhausted { attempts: a, last_error },
            ) && a == attempts && last_error@ == error.spec_message(),
        },
{
    let step = next_retry_step(attempt, max_retries, error.failure_class());
    match step {
        RetryStep::Retry(d) => ChatRetry::Retry(d),
        RetryStep::GiveUp => ChatRetry::Fail(error),
        RetryStep::Exhausted { attempts } => {
            let last_error = error.to_string();
            ChatRetry::Fail(LlmError::RetriesExhausted { attempts, last_error })
        },
    }
}

/// The error for an API error reply of the chat service: a message that
/// mentions a rate limit (in any case) is a rate limit to be retried after a
/// second; any other is a client error (status 400) with the message.
pub fn api_error_from_message(message: String) -> (r: LlmError)
    ensures
        contains_text(unicode_lowercase(message@), "rate limit"@) ==> r
            == (LlmError::RateLimitExceeded { retry_after_ms: 1000 }),
        !contains_text(unicode_lowercase(message@), "rate limit"@) ==> r == (LlmError::ApiError {
            status: 400,
            message,
        }),
{
    let lower = to_unicode_lower(message.as_str());
    if text_contains(lower.as_str(), "rate limit") {
        LlmError::RateLimitExceeded { retry_after_ms: 1000 }
    } else {
        LlmError::ApiError { status: 400, message }
    }
}

/// The error for a failure of the reply stream.
pub fn stream_error(message: &str) -> (r: LlmError)
    ensures
        r matches LlmError::InvalidResponse(m) && m@ == "Stream error: "@ + message@,
{
    LlmError::InvalidResponse(prefixed_message("Stream error: ", message))
}

/// The API key an OpenAI chat provider is built with; it has none without one.
pub fn require_api_key(api_key: Option<String>) -> (r: Result<String, LlmError>)
    ensures
        match api_key {
            Some(k) => r == Ok::<String, LlmError>(k),
            None => r matches Err(LlmError::NotConfigured(m)) && m@
                == "API key is required for OpenAI LLM provider"@,
        },
{
    match api_key {
        Some(k) => Ok(k),
        None => Err(LlmError::NotConfigured("API key is required for OpenAI LLM provider".to_owned())),
    }
}

/// Supported chat provider types.
#[derive(Debug, Clone, Copy, PartialEq, Eq, Hash, Structural)]
pub enum LlmProviderType {
    OpenAI,
    Azure,
    Local,
}

impl LlmProviderType {
    /// The lowercase name of the provider type.
    pub open spec fn spec_name(self) -> Seq<char> {
        match self {
            LlmProviderType::OpenAI => "openai"@,
            LlmProviderType::Azure => "azure"@,
            LlmProviderType::Local => "local"@,
        }
    }

    /// The provider type whose name is exactly `t`.
    pub open spec fn spec_from_name(t: Seq<char>) -> Option<LlmProviderType> {
        if t == "openai"@ {
            Some(LlmProviderType::OpenAI)
        } else if t == "azure"@ {
            Some(LlmProviderType::Azure)
        } else if t == "local"@ {
            Some(LlmProviderType::Local)
        } else {
            None
        }
    }

    /// The lowercase name of the provider type.
    pub fn as_str(&self) -> (s: &'static str)
        ensures
            s@ == self.spec_name(),
    {
        match self {
            LlmProviderType::OpenAI => "openai",
            LlmProviderType::Azure => "azure",
            LlmProviderType::Local => "local",
        }
    }

    /// The display text of the provider type.
    pub fn to_string(&self) -> (s: String)
        ensures
            s@ == self.spec_name(),
    {
        self.as_str().to_owned()
    }

    /// The provider type named by an already lowercased text.
    pub fn from_lowercase_name(t: &str) -> (r: Option<LlmProviderType>)
        ensures
            r == Self::spec_from_name(t@),
    {
        if str_eq(t, "openai") {
            Some(LlmProviderType::OpenAI)
        } else if str_eq(t, "azure") {
            Some(LlmProviderType::Azure)
        } else if str_eq(t, "local") {
            Some(LlmProviderType::Local)
        } else {
            None
        }
    }

    /// Parses a provider type case-insensitively; unknown names are refused
    /// with `Unknown LLM provider type: <name>`.
    pub fn parse(s: &str) -> (r: Result<LlmProviderType, String>)
        ensures
            match Self::spec_from_name(unicode_lowercase(s@)) {
                Some(t) => r == Ok::<LlmProviderType, String>(t),
                None => r is Err && r->Err_0@ == "Unknown LLM provider type: "@ + s@,
            },
    {
        let lower = to_unicode_lower(s);
        match Self::from_lowercase_name(lower.as_str()) {
            Some(t) => Ok(t),
            None => Err(prefixed_message("Unknown LLM provider type: ", s)),
        }
    }
}

impl std::str::FromStr for LlmProviderType {
    type Err = String;

    fn from_str(s: &str) -> (r: Result<Self, Self::Err>)
        ensures
            match LlmProviderType::spec_from_name(unicode_lowercase(s@)) {
                Some(t) => r == Ok::<LlmProviderType, String>(t),
                None => r is Err && r->Err_0@ == "Unknown LLM provider type: "@ + s@,
            },
    {
        LlmProviderType::parse(s)
    }
}

/// Every provider type's name reads back as that type.
pub proof fn llm_provider_type_round_trip(t: LlmProviderType)
    ensures
        LlmProviderType::spec_from_name(t.spec_name()) == Some(t),
{
    reveal_strlit("openai");
    reveal_strlit("azure");
    reveal_strlit("local");
    assert("azure"@[0] != "openai"@[0]);
    assert("local"@[0] != "openai"@[0]);
    assert("local"@[0] != "azure"@[0]);
}

/// Chat providers are enabled unless configured otherwise.
pub fn default_enabled() -> (r: bool)
    ensures
        r,
{
    true
}

/// The default input token budget.
pub fn default_max_input_tokens() -> (r: u32)
    ensures
        r == 4000,
{
    4000
}

/// The default output token budget.
pub fn default_max_output_tokens() -> (r: u32)
    ensures
        r == 1000,
{
    1000
}

/// The author of a chat message.
#[derive(Debug, Clone, Copy, PartialEq, Eq, Structural)]
pub enum Role {
    System,
    User,
    Assistant,
}

impl Role {
    /// The lowercase name of the role.
    pub fn as_str(&self) -> (s: &'static str)
        ensures
            s@ == (match self {
                Role::System => "system"@,
                Role::User => "user"@,
                Role::Assistant => "assistant"@,
            }),
    {
        match self {
            Role::System => "system",
            Role::User => "user",
            Role::Assistant => "assistant",
        }
    }
}

/// One chat message.
#[derive(Debug, Clone)]
pub struct ChatMessage {
    pub role: Role,
    pub content: String,
}

impl ChatMessage {
    /// A system message.
    pub fn system(content: &str) -> (m: ChatMessage)
        ensures
            m.role == Role::System,
            m.content@ == content@,
    {
        ChatMessage { role: Role::System, content: content.to_owned() }
    }

    /// A user message.
    pub fn user(content: &str) -> (m: ChatMessage)
        ensures
            m.role == Role::User,
            m.content@ == content@,
    {
        ChatMessage { role: Role::User, content: content.to_owned() }
    }

    /// An assistant message.
    pub fn assistant(content: &str) -> (m: ChatMessage)
        ensures
            m.role == Role::Assistant,
            m.content@ == content@,
    {
        ChatMessage { role: Role::Assistant, content: content.to_owned() }
    }
}

/// A chat request; the temperature is held by the bits of its `f32`.
#[derive(Debug, Clone)]
pub struct ChatRequest {
    pub messages: Vec<ChatMessage>,
    pub model: Option<String>,
    pub temperature_bits: Option<u32>,
    pub max_tokens: Option<u32>,
}

impl ChatRequest {
    /// A request with one user message.
    pub fn new(user_message: &str) -> (r: ChatRequest)
        ensures
            r.messages@.len() == 1,
            r.messages@[0].role == Role::User,
            r.messages@[0].content@ == user_message@,
            r.model is None,
            r.temperature_bits is None,
            r.max_tokens is None,
    {
        ChatRequest {
            messages: vec![ChatMessage::user(user_message)],
            model: None,
            temperature_bits: None,
            max_tokens: None,
        }
    }

    /// A request with a system message, then a user message.
    pub fn with_system(system: &str, user: &str) -> (r: ChatRequest)
        ensures
            r.messages@.len() == 2,
            r.messages@[0].role == Role::System,
            r.messages@[0].content@ == system@,
            r.messages@[1].role == Role::User,
            r.messages@[1].content@ == user@,
            r.model is None,
            r.temperature_bits is None,
            r.max_tokens is None,
    {
        ChatRequest {
            messages: vec![ChatMessage::system(system), ChatMessage::user(user)],
            model: None,
            temperature_bits: None,
            max_tokens: None,
        }
    }

    /// The request with one more message at the end.
    pub fn add_message(self, message: ChatMessage) -> (r: ChatRequest)
        ensures
            r.messages@ == self.messages@.push(message),
            r.model == self.model,
            r.temperature_bits == self.temperature_bits,
            r.max_tokens == self.max_tokens,
    {
        let mut r = self;
        r.messages.push(message);
        r
    }

    /// The request with a model override.
    pub fn with_model(self, model: &str) -> (r: ChatRequest)
        ensures
            r.messages == self.messages,
            r.model matches Some(m) && m@ == model@,
            r.temperature_bits == self.temperature_bits,
            r.max_tokens == self.max_tokens,
    {
        ChatRequest { model: Some(model.to_owned()), ..self }
    }

    /// The request with a temperature.
    pub fn with_temperature(self, temperature_bits: u32) -> (r: ChatRequest)
        ensures
            r.messages == self.messages,
            r.model == self.model,
            r.temperature_bits == Some(temperature_bits),
            r.max_tokens == self.max_tokens,
    {
        ChatRequest { temperature_bits: Some(temperature_bits), ..self }
    }

    /// The request with an output token limit.
    pub fn with_max_tokens(self, max_tokens: u32) -> (r: ChatRequest)
        ensures
            r.messages == self.messages,
            r.model == self.model,
            r.temperature_bits == self.temperature_bits,
            r.max_tokens == Some(max_tokens),
    {
        ChatRequest { max_tokens: Some(max_tokens), ..self }
    }

    /// What a chat call sends for this request with a provider's defaults:
    /// the request's model and temperature where it gives them, else the
    /// provider's. The stream is always requested.
    pub fn settings(&self, default_model: &str, default_temperature_bits: u32) -> (r: ChatSettings)
        ensures
            r.model@ == match self.model {
                Some(m) => m@,
                None => default_model@,
            },
            r.temperature_bits == match self.temperature_bits {
                Some(t) => t,
                None => default_temperature_bits,
            },
            r.stream,
    {
        let model = match &self.model {
            Some(m) => m.clone(),
            None => default_model.to_owned(),
        };
        let temperature_bits = match self.temperature_bits {
            Some(t) => t,
            None => default_temperature_bits,
        };
        ChatSettings { model, temperature_bits, stream: true }
    }
}

/// The model, temperature and streaming a chat call is made with.
#[derive(Debug, Clone)]
pub struct ChatSettings {
    pub model: String,
    pub temperature_bits: u32,
    pub stream: bool,
}

/// A chat reply.
#[derive(Debug, Clone)]
pub struct ChatResponse {
    pub content: String,
    pub model: String,
    pub prompt_tokens: Option<u32>,
    pub completion_tokens: Option<u32>,
    pub total_tokens: Option<u32>,
    pub finish_reason: Option<String>,
}

/// One choice of a streamed chunk: a piece of content and, on the last
/// chunk, the reason the reply finished (by its debug name).
#[derive(Debug, Clone)]
pub struct StreamChoice {
    pub delta_content: Option<String>,
    pub finish_reason: Option<String>,
}

/// The content pieces of a chunk's choices, in order.
pub open spec fn deltas_text(cs: Seq<StreamChoice>) -> Seq<char>
    decreases cs.len(),
{
    if cs.len() == 0 {
        Seq::empty()
    } else {
        deltas_text(cs.drop_last()) + match cs.last().delta_content {
            Some(d) => d@,
            None => Seq::empty(),
        }
    }
}

/// The last finish reason among a chunk's choices, else `prior`.
pub open spec fn last_finish(cs: Seq<StreamChoice>, prior: Option<Seq<char>>) -> Option<Seq<char>>
    decreases cs.len(),
{
    if cs.len() == 0 {
        prior
    } else {
        match cs.last().finish_reason {
            Some(r) => Some(r@),
            None => last_finish(cs.drop_last(), prior),
        }
    }
}

/// A streamed chat reply being put together.
#[derive(Debug)]
pub struct StreamedReply {
    /// The content received so far
    pub content: String,
    /// The model named by the last chunk that named one, else the requested one
    pub model_used: String,
    /// The last finish reason received
    pub finish_reason: Option<String>,
}

/// The optional text of an optional string.
pub open spec fn opt_text(o: Option<String>) -> Option<Seq<char>> {
    match o {
        Some(s) => Some(s@),
        None => None,
    }
}

impl StreamedReply {
    /// Nothing received yet, for a request to `model`.
    pub fn start(model: &str) -> (r: StreamedReply)
        ensures
            r.content@.len() == 0,
            r.model_used@ == model@,
            r.finish_reason is None,
    {
        StreamedReply { content: String::new(), model_used: model.to_owned(), finish_reason: None }
    }

    /// Takes in one chunk: its model, when not empty, becomes the model
    /// used; each choice's content is appended in order, and its finish
    /// reason, when present, becomes the finish reason.
    pub fn absorb(&mut self, chunk_model: &str, choices: &Vec<StreamChoice>)
        ensures
            final(self).content@ == old(self).content@ + deltas_text(choices@),
            final(self).model_used@ == (if chunk_model@.len() == 0 {
                old(self).model_used@
            } else {
                chunk_model@
            }),
            opt_text(final(self).finish_reason) == last_finish(
                choices@,
                opt_text(old(self).finish_reason),
            ),
    {
        if !chunk_model.is_empty() {
            self.model_used = chunk_model.to_owned();
        }
        let ghost c0 = self.content@;
        let ghost f0 = opt_text(self.finish_reason);
        let mut i: usize = 0;
        while i < choices.len()
            invariant
                i <= choices.len(),
                self.content@ == c0 + deltas_text(choices@.take(i as int)),
                opt_text(self.finish_reason) == last_finish(choices@.take(i as int), f0),
                self.model_used@ == (if chunk_model@.len() == 0 {
                    old(self).model_used@
                } else {
                    chunk_model@
                }),
            decreases choices.len() - i,
        {
            assert(choices@.take(i as int + 1).drop_last() =~= choices@.take(i as int));
            if let Some(d) = &choices[i].delta_content {
                push_str(&mut self.content, d.as_str());
            }
            if let Some(r) = &choices[i].finish_reason {
                self.finish_reason = Some(r.clone());
            }
            i += 1;
            assert(self.content@ =~= c0 + deltas_text(choices@.take(i as int)));
        }
        assert(choices@.take(choices.len() as int) =~= choices@);
    }

    /// The reply, once the stream has ended; a streamed reply carries no
    /// token counts.
    pub fn finish(self) -> (r: ChatResponse)
        ensures
            r.content == self.content,
            r.model == self.model_used,
            r.finish_reason == self.finish_reason,
            r.prompt_tokens is None,
            r.completion_tokens is None,
            r.total_tokens is None,
    {
        ChatResponse {
            content: self.content,
            model: self.model_used,
            prompt_tokens: None,
            completion_tokens: None,
            total_tokens: None,
            finish_reason: self.finish_reason,
        }
    }
}

} // verus!
