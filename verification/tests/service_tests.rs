use memory_server::admin::{
    dry_run_response, owner_scope, EvictionResponse, EvictionResult, RebuildEmbeddingsRequest,
    RebuildOutcome, RebuildProgress,
};
use memory_server::audit::{AuditOperation, AuditQueryRequest};
use memory_server::embedding::{
    after_failed_embedding, api_error, check_embedding_reply, local_embeddings_url_for,
    openai_embeddings_url_for, rate_limit_error, require_api_key, EmbedRetry, EmbeddingError,
    EmbeddingRequest, ProviderType,
};
use memory_server::error::{AppError, ErrorCode, ErrorResponse};
use memory_server::event_api::{
    accepted_event_message, content_preview, create_event_status, CreateEventApiRequest,
};
use memory_server::event::EventSource;
use memory_server::json::{json_equal, JsonEntry, JsonValue};
use memory_server::llm::{
    after_failed_chat, api_error_from_message, ChatMessage, ChatRequest, ChatRetry, LlmError,
    LlmProviderType, Role, StreamChoice, StreamedReply,
};
use memory_server::provider_registry::{
    check_can_be_default, check_can_set_enabled, updated_values, LlmProviderRecord,
    UpdateLlmProviderInput,
};
use memory_server::retry::RetryDelay;
use memory_server::status::{EmbeddingStatus, Status};
use memory_server::storage::{fulltext_plan, profile_insert_error, DbFailure, FullTextSearchOptions};
use memory_server::vector::{
    collection_name, merge_search_results, PayloadValue, ScopeCondition, ScoredId, VectorFilter,
    VectorPayload,
};

fn new_id() -> u128 {
    uuid::Uuid::new_v4().as_u128()
}

#[test]
fn test_error_code_status_codes() {
    assert_eq!(ErrorCode::ValidationError.status_code(), 400);
    assert_eq!(ErrorCode::MemoryNotFound.status_code(), 404);
    assert_eq!(ErrorCode::RateLimitExceeded.status_code(), 429);
    assert_eq!(ErrorCode::DatabaseError.status_code(), 500);
}

#[test]
fn test_event_processing_error_codes() {
    assert_eq!(ErrorCode::EventContentTooShort.status_code(), 400);
    assert_eq!(ErrorCode::NoMemoriesExtracted.status_code(), 422);
    assert_eq!(ErrorCode::QueryEnhancementFailed.status_code(), 500);
}

#[test]
fn test_error_response_creation() {
    let response = ErrorResponse::new(ErrorCode::ValidationError, "Invalid input");
    assert_eq!(response.code, ErrorCode::ValidationError);
    assert_eq!(response.message, "Invalid input");
    assert!(response.details.is_none());
    assert!(!response.request_id.is_empty());
    assert!(uuid::Uuid::parse_str(&response.request_id).is_ok());
}

fn details() -> JsonValue {
    JsonValue::Object(vec![
        JsonEntry { key: "field".to_string(), value: JsonValue::Str("category".to_string()) },
        JsonEntry { key: "value".to_string(), value: JsonValue::Str("invalid".to_string()) },
    ])
}

#[test]
fn test_error_response_with_details() {
    let response =
        ErrorResponse::with_details(ErrorCode::ValidationError, "Invalid category format", details());
    assert_eq!(response.code, ErrorCode::ValidationError);
    assert!(json_equal(response.details.as_ref().unwrap(), &details()));
}

#[test]
fn test_app_error_to_error_code() {
    assert_eq!(
        AppError::Validation("test".to_string()).error_code(),
        ErrorCode::ValidationError
    );
    assert_eq!(
        AppError::MemoryNotFound(new_id()).error_code(),
        ErrorCode::MemoryNotFound
    );
    assert_eq!(
        AppError::InvalidUpdateMode("test".to_string()).error_code(),
        ErrorCode::InvalidUpdateMode
    );
}

#[test]
fn test_event_processing_app_errors() {
    let err = AppError::EventContentTooShort { min: 10, actual: 5 };
    assert_eq!(err.error_code(), ErrorCode::EventContentTooShort);
    assert_eq!(
        err.to_string(),
        "Event content too short: minimum 10 characters required, got 5"
    );
    let err = AppError::NoMemoriesExtracted;
    assert_eq!(err.error_code(), ErrorCode::NoMemoriesExtracted);
    assert_eq!(
        err.to_string(),
        "No valid memories could be extracted from event"
    );
    let err = AppError::QueryEnhancementFailed("LLM timeout".to_string());
    assert_eq!(err.error_code(), ErrorCode::QueryEnhancementFailed);
    assert_eq!(err.to_string(), "Query enhancement failed: LLM timeout");
}

#[test]
fn error_messages_name_ids_in_uuid_form() {
    let id = uuid::Uuid::parse_str("67e55044-10b1-426f-9247-bb680e5fe0c8").unwrap();
    let err = AppError::MemoryNotFound(id.as_u128());
    assert_eq!(err.to_string(), "Memory not found: 67e55044-10b1-426f-9247-bb680e5fe0c8");
    let response = err.to_response();
    assert_eq!(response.code, ErrorCode::MemoryNotFound);
    assert_eq!(response.message, "Memory not found: 67e55044-10b1-426f-9247-bb680e5fe0c8");
}

#[test]
fn test_provider_type_display() {
    assert_eq!(ProviderType::Openai.to_string(), "openai");
    assert_eq!(ProviderType::Azure.to_string(), "azure");
    assert_eq!(ProviderType::Local.to_string(), "local");
}

#[test]
fn test_provider_type_from_str() {
    assert_eq!("openai".parse::<ProviderType>().unwrap(), ProviderType::Openai);
    assert_eq!("OPENAI".parse::<ProviderType>().unwrap(), ProviderType::Openai);
    assert_eq!("azure".parse::<ProviderType>().unwrap(), ProviderType::Azure);
    assert_eq!("local".parse::<ProviderType>().unwrap(), ProviderType::Local);
    assert!("unknown".parse::<ProviderType>().is_err());
}

#[test]
fn test_embedding_request_new() {
    let request = EmbeddingRequest::new("test text");
    assert_eq!(request.text, "test text");
    assert!(request.model.is_none());
}

#[test]
fn test_embedding_request_with_model() {
    let request = EmbeddingRequest::with_model("test text", "text-embedding-3-small");
    assert_eq!(request.text, "test text");
    assert_eq!(request.model, Some("text-embedding-3-small".to_string()));
}

#[test]
fn test_embeddings_url_without_v1() {
    assert_eq!(
        local_embeddings_url_for("http://localhost:8000"),
        "http://localhost:8000/v1/embeddings"
    );
}

#[test]
fn test_embeddings_url_with_v1() {
    assert_eq!(
        local_embeddings_url_for("http://localhost:8000/v1"),
        "http://localhost:8000/v1/embeddings"
    );
}

#[test]
fn local_test_embeddings_url_trailing_slash() {
    assert_eq!(
        local_embeddings_url_for("http://localhost:8000/"),
        "http://localhost:8000/v1/embeddings"
    );
}

#[test]
fn test_embeddings_url() {
    assert_eq!(
        openai_embeddings_url_for("https://api.openai.com/v1"),
        "https://api.openai.com/v1/embeddings"
    );
}

#[test]
fn openai_test_embeddings_url_trailing_slash() {
    assert_eq!(
        openai_embeddings_url_for("https://api.openai.com/v1/"),
        "https://api.openai.com/v1/embeddings"
    );
    assert_eq!(
        openai_embeddings_url_for("https://api.openai.com/v1///"),
        "https://api.openai.com/v1/embeddings"
    );
}

#[test]
fn test_openai_provider_requires_api_key() {
    assert!(matches!(require_api_key(None), Err(EmbeddingError::NotConfigured(_))));
    assert_eq!(require_api_key(Some("sk".to_string())).unwrap(), "sk");
}

#[test]
fn embedding_replies_are_checked() {
    assert!(check_embedding_reply(Some(1024), 1024).is_ok());
    match check_embedding_reply(Some(3), 4) {
        Err(e) => assert_eq!(e.to_string(), "Embedding dimension mismatch: expected 4, got 3"),
        Ok(()) => panic!("accepted"),
    }
    match check_embedding_reply(None, 4) {
        Err(e) => assert_eq!(e.to_string(), "Invalid response format: No embedding data in response"),
        Ok(()) => panic!("accepted"),
    }
    match rate_limit_error(Some(2), 1) {
        EmbeddingError::RateLimitExceeded { retry_after_ms } => assert_eq!(retry_after_ms, 2000),
        _ => panic!(),
    }
    match rate_limit_error(None, 1000) {
        EmbeddingError::RateLimitExceeded { retry_after_ms } => assert_eq!(retry_after_ms, 1_000_000),
        _ => panic!(),
    }
    let e = api_error(503, String::new(), "503 Service Unavailable");
    assert_eq!(e.to_string(), "API error: 503 - HTTP 503 Service Unavailable");
}

#[test]
fn embedding_retry_decisions() {
    match after_failed_embedding(0, 3, EmbeddingError::RateLimitExceeded { retry_after_ms: 700 }) {
        EmbedRetry::Retry(RetryDelay::Fixed { ms }) => assert_eq!(ms, 700),
        other => panic!("{:?}", other),
    }
    match after_failed_embedding(1, 3, EmbeddingError::HttpError("reset".to_string())) {
        EmbedRetry::Retry(RetryDelay::Backoff { attempt }) => assert_eq!(attempt, 1),
        other => panic!("{:?}", other),
    }
    match after_failed_embedding(0, 3, EmbeddingError::ApiError { status: 400, message: "bad".to_string() }) {
        EmbedRetry::Fail(EmbeddingError::ApiError { status, .. }) => assert_eq!(status, 400),
        other => panic!("{:?}", other),
    }
    match after_failed_embedding(3, 3, EmbeddingError::ApiError { status: 500, message: "down".to_string() }) {
        EmbedRetry::Fail(EmbeddingError::RetriesExhausted { attempts, last_error }) => {
            assert_eq!(attempts, 4);
            assert_eq!(last_error, "API error: 500 - down");
        }
        other => panic!("{:?}", other),
    }
}

#[test]
fn test_llm_provider_type_display() {
    assert_eq!(LlmProviderType::OpenAI.to_string(), "openai");
    assert_eq!(LlmProviderType::Azure.to_string(), "azure");
    assert_eq!(LlmProviderType::Local.to_string(), "local");
}

#[test]
fn test_llm_provider_type_from_str() {
    assert_eq!("openai".parse::<LlmProviderType>().unwrap(), LlmProviderType::OpenAI);
    assert_eq!("OPENAI".parse::<LlmProviderType>().unwrap(), LlmProviderType::OpenAI);
    assert_eq!("azure".parse::<LlmProviderType>().unwrap(), LlmProviderType::Azure);
    assert_eq!("local".parse::<LlmProviderType>().unwrap(), LlmProviderType::Local);
    assert!("unknown".parse::<LlmProviderType>().is_err());
}

#[test]
fn test_chat_message_creation() {
    let system = ChatMessage::system("You are a helpful assistant");
    assert_eq!(system.role, Role::System);
    assert_eq!(system.content, "You are a helpful assistant");
    let user = ChatMessage::user("Hello");
    assert_eq!(user.role, Role::User);
    assert_eq!(user.content, "Hello");
    let assistant = ChatMessage::assistant("Hi there!");
    assert_eq!(assistant.role, Role::Assistant);
    assert_eq!(assistant.content, "Hi there!");
}

#[test]
fn test_chat_request_new() {
    let request = ChatRequest::new("Hello");
    assert_eq!(request.messages.len(), 1);
    assert_eq!(request.messages[0].role, Role::User);
    assert_eq!(request.messages[0].content, "Hello");
    assert!(request.model.is_none());
}

#[test]
fn test_chat_request_with_system() {
    let request = ChatRequest::with_system("You are helpful", "Hello");
    assert_eq!(request.messages.len(), 2);
    assert_eq!(request.messages[0].role, Role::System);
    assert_eq!(request.messages[1].role, Role::User);
}

#[test]
fn test_chat_request_builder() {
    let request = ChatRequest::new("Hello")
        .with_model("gpt-4")
        .with_temperature(0.7f32.to_bits())
        .with_max_tokens(500);
    assert_eq!(request.model, Some("gpt-4".to_string()));
    assert_eq!(request.temperature_bits.map(f32::from_bits), Some(0.7));
    assert_eq!(request.max_tokens, Some(500));
}

#[test]
fn chat_errors_and_retries() {
    assert!(matches!(
        api_error_from_message("Rate Limit reached for model".to_string()),
        LlmError::RateLimitExceeded { retry_after_ms: 1000 }
    ));
    match api_error_from_message("invalid model".to_string()) {
        LlmError::ApiError { status, message } => {
            assert_eq!(status, 400);
            assert_eq!(message, "invalid model");
        }
        other => panic!("{:?}", other),
    }
    match after_failed_chat(2, 2, LlmError::HttpError("timeout".to_string())) {
        ChatRetry::Fail(LlmError::RetriesExhausted { attempts, last_error }) => {
            assert_eq!(attempts, 3);
            assert_eq!(last_error, "HTTP request failed: timeout");
        }
        other => panic!("{:?}", other),
    }
    assert!(matches!(
        after_failed_chat(0, 2, LlmError::ContentFiltered("x".to_string())),
        ChatRetry::Fail(LlmError::ContentFiltered(_))
    ));
}

#[test]
fn streamed_reply_assembles_chunks() {
    let mut reply = StreamedReply::start("gpt-4o-mini");
    reply.absorb(
        "",
        &vec![StreamChoice { delta_content: Some("Hel".to_string()), finish_reason: None }],
    );
    reply.absorb(
        "gpt-4o-mini-2024",
        &vec![
            StreamChoice { delta_content: Some("lo".to_string()), finish_reason: None },
            StreamChoice { delta_content: None, finish_reason: Some("Stop".to_string()) },
        ],
    );
    let r = reply.finish();
    assert_eq!(r.content, "Hello");
    assert_eq!(r.model, "gpt-4o-mini-2024");
    assert_eq!(r.finish_reason, Some("Stop".to_string()));
    assert!(r.total_tokens.is_none());
}

fn record(api_key: Option<Vec<u8>>, enabled: bool, is_default: bool) -> LlmProviderRecord {
    LlmProviderRecord {
        name: "test-llm".to_string(),
        provider_type: LlmProviderType::OpenAI,
        endpoint: "https://api.openai.com/v1".to_string(),
        api_key_encrypted: api_key,
        model: "gpt-4o-mini".to_string(),
        enabled,
        is_default,
        created_at: 0,
        updated_at: 0,
    }
}

#[test]
fn test_llm_provider_record_to_config() {
    let config = record(Some("sk-test".as_bytes().to_vec()), true, true).to_provider_config();
    assert_eq!(config.name, "test-llm");
    assert_eq!(config.provider_type, LlmProviderType::OpenAI);
    assert_eq!(config.endpoint, "https://api.openai.com/v1");
    assert_eq!(config.api_key, Some("sk-test".to_string()));
    assert_eq!(config.model, "gpt-4o-mini");
    assert!(config.enabled);
}

#[test]
fn test_llm_provider_record_to_config_no_api_key() {
    let mut r = record(None, true, false);
    r.name = "local-llm".to_string();
    r.provider_type = LlmProviderType::Local;
    let config = r.to_provider_config();
    assert_eq!(config.name, "local-llm");
    assert_eq!(config.provider_type, LlmProviderType::Local);
    assert!(config.api_key.is_none());
    let bad = record(Some(vec![0xff, 0xfe]), true, false).to_provider_config();
    assert!(bad.api_key.is_none());
}

#[test]
fn test_update_llm_provider_input_default() {
    let input = UpdateLlmProviderInput::default();
    assert!(input.endpoint.is_none());
    assert!(input.api_key.is_none());
    assert!(input.model.is_none());
    assert!(input.enabled.is_none());
}

#[test]
fn provider_registry_rules() {
    let existing = record(Some(b"old".to_vec()), true, true);
    let v = updated_values(
        &existing,
        &UpdateLlmProviderInput { model: Some("gpt-4o".to_string()), ..Default::default() },
    );
    assert_eq!(v.model, "gpt-4o");
    assert_eq!(v.endpoint, existing.endpoint);
    assert_eq!(v.api_key_encrypted, Some(b"old".to_vec()));
    let v = updated_values(
        &existing,
        &UpdateLlmProviderInput { api_key: Some("new".to_string()), enabled: Some(false), ..Default::default() },
    );
    assert_eq!(v.api_key_encrypted, Some(b"new".to_vec()));
    assert!(!v.enabled);
    assert!(check_can_be_default(&record(None, false, false)).is_err());
    assert!(check_can_be_default(&record(None, true, false)).is_ok());
    assert!(matches!(
        check_can_set_enabled(&existing, false),
        Err(AppError::Validation(_))
    ));
    assert!(check_can_set_enabled(&existing, true).is_ok());
}

#[test]
fn test_collection_name() {
    assert_eq!(collection_name("openai"), "memories_openai");
    assert_eq!(collection_name("local-bge"), "memories_local_bge");
    assert_eq!(
        collection_name("text-embedding-3-small"),
        "memories_text_embedding_3_small"
    );
}

#[test]
fn test_vector_payload_creation() {
    let payload = VectorPayload {
        profile_id: new_id(),
        owner_id: "owner123".to_string(),
        memory_id: new_id(),
        scope_id: Some("scope123".to_string()),
        category: Some("work.code".to_string()),
        is_global: false,
        status: "active".to_string(),
    };
    let entries = payload.entries();
    let keys: Vec<&str> = entries.iter().map(|(k, _)| k.as_str()).collect();
    assert_eq!(
        keys,
        vec!["profile_id", "owner_id", "memory_id", "scope_id", "category", "is_global", "status"]
    );
    assert!(matches!(entries[5].1, PayloadValue::Flag(false)));
}

#[test]
fn test_vector_filter_empty() {
    let conditions = VectorFilter::default().to_conditions();
    assert_eq!(conditions.must_count(), 0);
}

#[test]
fn test_vector_filter_with_scope() {
    let filter = VectorFilter {
        scope_id: Some("scope123".to_string()),
        category_prefix: Some("work".to_string()),
        ..Default::default()
    };
    let conditions = filter.to_conditions();
    assert_eq!(conditions.must_count(), 2);
    assert_eq!(conditions.category_pattern, Some("work*".to_string()));
    assert!(matches!(conditions.scope, ScopeCondition::Scope(ref s) if s == "scope123"));
}

#[test]
fn merged_search_keeps_best_hit_per_memory() {
    let hits = vec![
        ScoredId { memory_id: 1, score_key: 10 },
        ScoredId { memory_id: 2, score_key: 30 },
        ScoredId { memory_id: 1, score_key: 40 },
        ScoredId { memory_id: 3, score_key: 30 },
    ];
    let merged = merge_search_results(hits, 10);
    assert_eq!(
        merged,
        vec![
            ScoredId { memory_id: 1, score_key: 40 },
            ScoredId { memory_id: 2, score_key: 30 },
            ScoredId { memory_id: 3, score_key: 30 },
        ]
    );
    let hits = vec![ScoredId { memory_id: 1, score_key: 1 }, ScoredId { memory_id: 2, score_key: 2 }];
    assert_eq!(merge_search_results(hits, 1), vec![ScoredId { memory_id: 2, score_key: 2 }]);
}

#[test]
fn audit_operations_parse_case_insensitively() {
    assert_eq!(AuditOperation::from_str("CREATE"), Some(AuditOperation::Create));
    assert_eq!(AuditOperation::from_str("status_change"), Some(AuditOperation::StatusChange));
    assert_eq!(AuditOperation::from_str("nope"), None);
    assert_eq!(AuditOperation::Hit.to_string(), "hit");
}

#[test]
fn test_audit_query_request_conversion() {
    let request = AuditQueryRequest {
        memory_id: Some(new_id()),
        start_time: Some(1),
        end_time: Some(2),
        operation: Some("create".to_string()),
        limit: Some(50),
        offset: Some(10),
    };
    let profile_id = new_id();
    let params = request.clone().into_query_params(profile_id);
    assert_eq!(params.profile_id, profile_id);
    assert_eq!(params.memory_id, request.memory_id);
    assert_eq!(params.start_time, request.start_time);
    assert_eq!(params.end_time, request.end_time);
    assert!(params.operation.is_some());
    assert_eq!(params.limit, request.limit);
    assert_eq!(params.offset, request.offset);
    assert_eq!(params.page(), (50, 10));
}

#[test]
fn test_audit_query_request_minimal() {
    let request = AuditQueryRequest {
        memory_id: None,
        start_time: None,
        end_time: None,
        operation: None,
        limit: None,
        offset: None,
    };
    let params = request.into_query_params(7);
    assert_eq!(params.profile_id, 7);
    assert!(params.memory_id.is_none());
    assert!(params.operation.is_none());
    assert!(params.limit.is_none());
    assert!(params.offset.is_none());
    assert_eq!(params.page(), (100, 0));
}

#[test]
fn eviction_decisions() {
    let all = owner_scope(None);
    assert!(all.covers("anyone"));
    assert_eq!(all.owner_id(), None);
    let owners = vec!["a".to_string(), "b".to_string()];
    assert_eq!(all.owners_to_run(&owners), owners);
    let one = owner_scope(Some("a".to_string()));
    assert!(one.covers("a"));
    assert!(!one.covers("b"));
    assert_eq!(one.owners_to_run(&owners), vec!["a".to_string()]);
    assert_eq!(one.owner_id(), Some("a".to_string()));
    let r = dry_run_response(&vec![Status::Active, Status::Cooldown, Status::Active, Status::Candidate]);
    assert!(r.dry_run);
    assert_eq!((r.cooldown_count, r.candidate_count, r.archived_count, r.total_affected), (2, 1, 1, 4));
    let r = EvictionResponse::from_result(EvictionResult {
        cooldown_count: 1,
        candidate_count: 2,
        archived_count: 3,
        capacity_limit_reached: true,
        total_affected: 6,
    });
    assert!(!r.dry_run);
    assert_eq!(r.total_affected, 6);
}

#[test]
fn rebuild_decisions() {
    let req = RebuildEmbeddingsRequest { owner_id: None, limit: None, include_pending: true, include_failed: false };
    assert_eq!(req.statuses().unwrap(), vec![EmbeddingStatus::Pending]);
    assert_eq!(req.effective_limit(), 100);
    let req = RebuildEmbeddingsRequest { owner_id: None, limit: Some(5000), include_pending: false, include_failed: false };
    assert!(matches!(req.statuses(), Err(AppError::Validation(_))));
    assert_eq!(req.effective_limit(), 1000);
    let mut p = RebuildProgress::start(vec![1, 2, 3]);
    assert_eq!(p.next_memory(), Some(1));
    assert_eq!(p.record(RebuildOutcome::Stored), EmbeddingStatus::Completed);
    assert_eq!(p.next_memory(), Some(2));
    assert_eq!(
        p.record(RebuildOutcome::EmbeddingFailed(EmbeddingError::Disabled("x".to_string()))),
        EmbeddingStatus::Failed
    );
    assert_eq!(p.record(RebuildOutcome::UpsertFailed("gone".to_string())), EmbeddingStatus::Failed);
    assert_eq!(p.next_memory(), None);
    let r = p.finish();
    assert_eq!((r.scanned_count, r.rebuilt_count, r.failed_count), (3, 1, 2));
    assert_eq!(r.rebuilt_memory_ids, vec![1]);
    assert_eq!(r.failures[0].error, "embedding generation failed: Provider is disabled: x");
    assert_eq!(r.failures[1].error, "vector upsert failed: gone");
    assert_eq!((r.failures[0].memory_id, r.failures[1].memory_id), (2, 3));
}

#[test]
fn test_create_event_request_conversion() {
    let profile_id = new_id();
    let api_request = CreateEventApiRequest {
        owner_id: "owner123".to_string(),
        content: "User clicked the dark mode button".to_string(),
        context: Some("Settings page".to_string()),
        scope_id: Some("user123".to_string()),
        source: Some(EventSource::Api),
    };
    let service_request = api_request.clone().into_service_request(profile_id);
    assert_eq!(service_request.profile_id, profile_id);
    assert_eq!(service_request.owner_id, api_request.owner_id);
    assert_eq!(service_request.content, api_request.content);
    assert_eq!(service_request.context, api_request.context);
    assert_eq!(service_request.scope_id, api_request.scope_id);
    assert_eq!(service_request.source, api_request.source);
}

#[test]
fn event_endpoint_decisions() {
    assert_eq!(create_event_status(true), 200);
    assert_eq!(create_event_status(false), 201);
    let p = uuid::Uuid::parse_str("00000000-0000-4000-8000-000000000001").unwrap();
    let e = uuid::Uuid::parse_str("00000000-0000-4000-8000-000000000002").unwrap();
    assert_eq!(
        accepted_event_message(p.as_u128(), e.as_u128()),
        "Event created. Check status at GET /api/v1/systems/00000000-0000-4000-8000-000000000001/events/00000000-0000-4000-8000-000000000002"
    );
    assert_eq!(content_preview("short"), "short");
    let long = "x".repeat(150);
    assert_eq!(content_preview(&long), format!("{}...", "x".repeat(100)));
    // 40 characters of three bytes: all kept, but longer than 100 bytes.
    let wide = "房".repeat(40);
    assert_eq!(content_preview(&wide), format!("{}...", wide));
}

#[test]
fn test_openai_llm_provider_requires_api_key() {
    assert!(matches!(
        memory_server::llm::require_api_key(None),
        Err(LlmError::NotConfigured(_))
    ));
    assert_eq!(
        memory_server::llm::require_api_key(Some("sk-test-key".to_string())).unwrap(),
        "sk-test-key"
    );
}

#[test]
fn test_related_memory_response() {
    let r = memory_server::event_api::related_memory(
        new_id(),
        "User prefers dark mode",
        memory_server::event::EventMemoryRelationType::CreatedFrom,
    );
    assert_eq!(r.relation_type, "created_from");
    assert_eq!(r.content_preview, "User prefers dark mode");
    assert!(memory_server::event_api::related_memories_field(vec![]).is_none());
    assert_eq!(
        memory_server::event_api::related_memories_field(vec![r]).map(|v| v.len()),
        Some(1)
    );
}

#[test]
fn test_rebuild_embeddings_request_defaults() {
    let request = RebuildEmbeddingsRequest {
        owner_id: None,
        limit: None,
        include_pending: memory_server::admin::default_rebuild_pending(),
        include_failed: memory_server::admin::default_rebuild_failed(),
    };
    assert!(request.owner_id.is_none());
    assert!(request.limit.is_none());
    assert!(request.include_pending);
    assert!(request.include_failed);
    assert_eq!(
        request.statuses().unwrap(),
        vec![EmbeddingStatus::Pending, EmbeddingStatus::Failed]
    );
}

#[test]
fn storage_failures_are_reported() {
    let dup = DbFailure { constraint: Some("idx_system_profiles_name".to_string()), message: "dup".to_string() };
    assert!(matches!(profile_insert_error(dup), AppError::Validation(ref m) if m == "System profile already exists. Use update instead."));
    let other = DbFailure { constraint: None, message: "io".to_string() };
    assert!(matches!(profile_insert_error(other), AppError::Database(ref m) if m == "io"));
    assert_eq!(fulltext_plan("  ", &FullTextSearchOptions::default()), None);
    assert_eq!(fulltext_plan("rust", &FullTextSearchOptions::default()), Some(100));
    assert_eq!(
        fulltext_plan("rust", &FullTextSearchOptions { highlight: true, limit: Some(5000) }),
        Some(1000)
    );
}
