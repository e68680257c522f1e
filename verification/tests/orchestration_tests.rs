use memory_server::admin::status_write;
use memory_server::embedding::{ensure_enabled, openai_api_error, parse_retry_after, EmbeddingError};
use memory_server::storage::highlights_from_headline;
use memory_server::error::AppError;
use memory_server::json::{is_well_formed, JsonEntry, JsonValue};
use memory_server::llm::ChatRequest;
use memory_server::memory::{CreateMemoryInput, Memory};
use memory_server::metadata_filter::{
    filterable_fields_from_schema, MetadataFilter, MetadataFilterClause, MetadataFilterPredicate,
};
use memory_server::profile::{CreateProfileInput, ProfileValidation, UpdateProfileInput};
use memory_server::ranking::score_key;
use memory_server::retrieval::{collapse_to_current, CurrentMemoryResolution, RetrievedMemory};
use memory_server::retrieval_api::{
    after_vector_search, auto_retrieve_response, similarities, vector_hits, AutoRetrieveApiRequest,
    RetrieveApiRequest, RetrieveOptions, VectorSearchOutcome,
};
use memory_server::status::{EmbeddingStatus, Status};
use memory_server::text::text_less;
use memory_server::vector::{merge_search_results, ScoredId};

fn memory(id: u128, profile_id: u128) -> Memory {
    let mut m = Memory::new(CreateMemoryInput {
        profile_id,
        owner_id: "owner123".to_string(),
        scope_id: Some("scope".to_string()),
        content: format!("memory {}", id),
        category: None,
        tags: None,
        importance_bits: None,
        confidence_bits: None,
        is_global: false,
        embedding_provider: None,
        process_with_llm: false,
        llm_provider: None,
    });
    m.id = id;
    m
}

fn retrieve_request(options: RetrieveOptions) -> RetrieveApiRequest {
    RetrieveApiRequest {
        query: "dark mode".to_string(),
        owner_id: "owner123".to_string(),
        scope_id: Some("scope".to_string()),
        top_k: Some(5),
        options,
    }
}

#[test]
fn profile_name_limit_counts_characters() {
    let cjk = "房".repeat(34);
    assert!(cjk.len() > 100);
    let input = CreateProfileInput { name: cjk.clone(), description: "描述".to_string() };
    assert!(ProfileValidation::validate_create(&input).is_ok());
    let update = UpdateProfileInput { name: Some("房".repeat(100)), ..Default::default() };
    assert!(ProfileValidation::validate_update(&update).is_ok());
    let update = UpdateProfileInput { name: Some("房".repeat(101)), ..Default::default() };
    assert!(matches!(ProfileValidation::validate_update(&update), Err(AppError::Validation(_))));
}

#[test]
fn zero_scores_of_either_sign_keep_first_seen_order() {
    assert_eq!(score_key((-0.0f32).to_bits()), score_key(0.0f32.to_bits()));
    let hits = vec![
        ScoredId { memory_id: 1, score_key: score_key((-0.0f32).to_bits()) },
        ScoredId { memory_id: 2, score_key: score_key(0.0f32.to_bits()) },
    ];
    let merged = merge_search_results(hits, 10);
    assert_eq!(merged.iter().map(|h| h.memory_id).collect::<Vec<_>>(), vec![1, 2]);

    let profile = 9;
    let item = |id: u128, score: f32| {
        (
            RetrievedMemory {
                memory: memory(id, profile),
                score_key: score_key(score.to_bits()),
                similarity_key: score_key(score.to_bits()),
                text_match_key: None,
                highlights: None,
                evidence: None,
                history: None,
            },
            CurrentMemoryResolution {
                requested_memory: memory(id, profile),
                current_memory: memory(id, profile),
                lineage_to_current: vec![memory(id, profile)],
            },
        )
    };
    let out = collapse_to_current(profile, vec![item(1, -0.0), item(2, 0.0)]);
    assert_eq!(out.iter().map(|c| c.retrieved.memory.id).collect::<Vec<_>>(), vec![1, 2]);
}

#[test]
fn retrieve_request_and_vector_decision() {
    let request = retrieve_request(RetrieveOptions::default());
    assert!(request.wants_vector_search());
    assert!(request.uses_fulltext());
    let off = retrieve_request(RetrieveOptions {
        use_vector: Some(false),
        use_fulltext: Some(false),
        ..RetrieveOptions::default()
    });
    assert!(!off.wants_vector_search());
    assert!(!off.uses_fulltext());

    let service = request.clone().into_service_request(7);
    assert_eq!(service.profile_id, 7);
    assert_eq!(service.top_k, Some(5));
    assert_eq!(service.use_vector, None);
    let after = after_vector_search(service.clone(), 0);
    assert_eq!(after.use_vector, Some(false));
    assert_eq!(after.query, "dark mode");
    let kept = after_vector_search(service, 3);
    assert_eq!(kept.use_vector, None);

    assert!(similarities(vec![]).is_none());
    let hits = vec![ScoredId { memory_id: 1, score_key: 5 }];
    assert_eq!(similarities(hits.clone()), Some(hits));

    let trace = memory_server::retrieval::RetrievalTraceResponse::for_retrieve(&request, 0, 4, 2);
    assert!(!trace.used_vector);
    assert!(trace.used_fulltext);
    assert_eq!(trace.vector_candidate_count, 0);
    assert_eq!(trace.structured_candidate_count, 4);
    assert_eq!(trace.final_result_count, 2);
    assert_eq!(trace.scope_id, Some("scope".to_string()));
}

#[test]
fn auto_retrieve_request_and_response() {
    let request = AutoRetrieveApiRequest {
        query: "theme".to_string(),
        owner_id: "owner123".to_string(),
        context: Some("settings".to_string()),
        scope_id: None,
        top_k: None,
        min_score_bits: Some(0.5f32.to_bits()),
    };
    let service = request.into_service_request(3, 0);
    assert_eq!(service.use_vector, Some(false));
    assert_eq!(service.use_fulltext, Some(true));
    assert_eq!(service.highlight, Some(true));
    assert_eq!(service.min_score_bits, Some(0.5f32.to_bits()));
    assert!(service.include_history.is_none());
    assert_eq!(request.into_service_request(3, 2).use_vector, Some(true));

    let entries = vec![
        (1_700_000_000_000i64, JsonValue::Null, "prefers dark".to_string(), "0.90".to_string()),
        (1_700_000_000_000i64, JsonValue::Null, "likes tea".to_string(), "0.40".to_string()),
    ];
    let response = auto_retrieve_response(&request, &entries, 2, 6);
    assert_eq!(response.parsed_intent, "theme (context: settings)");
    assert_eq!(response.records.len(), 2);
    assert_eq!(response.records[1].record, 2);
    assert_eq!(response.total_candidates, 6);
    assert!(response.trace.used_vector);
    assert!(response.trace.used_fulltext);
    assert_eq!(response.trace.final_result_count, 2);
    assert!(response.markdown.starts_with("record: 1\n"));
    assert!(response.markdown.ends_with("score: 0.40"));
}

#[test]
fn chat_settings_fall_back_to_provider_defaults() {
    let request = ChatRequest::new("hi");
    let settings = request.settings("gpt-4o-mini", 0.7f32.to_bits());
    assert_eq!(settings.model, "gpt-4o-mini");
    assert_eq!(settings.temperature_bits, 0.7f32.to_bits());
    assert!(settings.stream);
    let request = ChatRequest::new("hi").with_model("gpt-4o").with_temperature(0.2f32.to_bits());
    let settings = request.settings("gpt-4o-mini", 0.7f32.to_bits());
    assert_eq!(settings.model, "gpt-4o");
    assert_eq!(settings.temperature_bits, 0.2f32.to_bits());
}

#[test]
fn next_version_stays_in_the_chain() {
    let mut old = memory(10, 4);
    old.version_number = 2;
    old.root_memory_id = Some(1);
    let template = memory(11, 99);
    let next = old.next_version(template, "contradiction".to_string(), 0.8f32.to_bits());
    assert_eq!(next.id, 11);
    assert_eq!(next.profile_id, 4);
    assert_eq!(next.root_memory_id, Some(1));
    assert_eq!(next.version_number, 3);
    assert_eq!(next.supersedes, Some(10));
    assert!(next.is_current_version);
    assert_eq!(next.scope_id, Some("scope".to_string()));
    assert_eq!(next.conflict_reason, Some("contradiction".to_string()));

    let mut first = memory(20, 4);
    first.root_memory_id = None;
    let next = first.next_version(memory(21, 4), "newer".to_string(), 0);
    assert_eq!(next.root_memory_id, Some(20));

    assert!(old.check_supersedable().is_ok());
    let mut gone = memory(30, 4);
    gone.is_current_version = false;
    gone.status = Status::Superseded;
    assert!(matches!(gone.check_supersedable(), Err(AppError::Validation(_))));
}

#[test]
fn promotion_leaves_global_memories_alone() {
    let mut m = memory(1, 1);
    assert!(!m.promote_unless_global("shared"));
    assert!(m.is_global);
    assert!(m.scope_id.is_none());
    let promoted_at = m.promoted_at;
    assert!(m.promote_unless_global("again"));
    assert_eq!(m.promoted_at, promoted_at);
    assert_eq!(m.promotion_reason, Some("shared".to_string()));
}

#[test]
fn disabled_provider_refuses() {
    assert!(ensure_enabled(true, "local").is_ok());
    assert!(matches!(ensure_enabled(false, "local"), Err(EmbeddingError::Disabled(n)) if n == "local"));
}

#[test]
fn openai_errors_report_the_api_message() {
    let body = "{\"error\":{\"message\":\"bad key\"}}".to_string();
    assert!(matches!(
        openai_api_error(401, body.clone(), Some("bad key".to_string())),
        EmbeddingError::ApiError { status: 401, message } if message == "bad key"
    ));
    assert!(matches!(
        openai_api_error(500, "oops".to_string(), None),
        EmbeddingError::ApiError { status: 500, message } if message == "oops"
    ));
}

#[test]
fn filterable_fields_come_sorted_once() {
    let schema = JsonValue::Object(vec![JsonEntry {
        key: "filterable_fields".to_string(),
        value: JsonValue::Array(vec![
            JsonValue::Str("theme".to_string()),
            JsonValue::Str("channel".to_string()),
            JsonValue::Str("theme".to_string()),
        ]),
    }]);
    assert_eq!(filterable_fields_from_schema(&schema), vec!["channel".to_string(), "theme".to_string()]);
}

#[test]
fn clauses_are_conjoined_and_well_formed() {
    let metadata = JsonValue::Object(vec![JsonEntry {
        key: "theme".to_string(),
        value: JsonValue::Str("dark".to_string()),
    }]);
    assert!(is_well_formed(&metadata));
    let unsorted = JsonValue::Object(vec![
        JsonEntry { key: "b".to_string(), value: JsonValue::Null },
        JsonEntry { key: "a".to_string(), value: JsonValue::Null },
    ]);
    assert!(!is_well_formed(&unsorted));
    let yes = MetadataFilterClause(vec![(
        "theme".to_string(),
        MetadataFilterPredicate::Eq(JsonValue::Str("dark".to_string())),
    )]);
    let no = MetadataFilterClause(vec![(
        "theme".to_string(),
        MetadataFilterPredicate::Eq(JsonValue::Str("light".to_string())),
    )]);
    assert!(yes.is_well_formed());
    assert!(MetadataFilter { clauses: vec![] }.matches(&metadata));
    assert!(!MetadataFilter { clauses: vec![yes, no] }.matches(&metadata));
    assert!(text_less("a", "b"));
    assert!(text_less("ab", "abc"));
    assert!(!text_less("b", "abc"));
}

#[test]
fn rebuild_status_writes_name_the_provider_only_on_success() {
    assert_eq!(status_write(true, "openai"), (EmbeddingStatus::Completed, Some("openai".to_string())));
    assert_eq!(status_write(false, "openai"), (EmbeddingStatus::Failed, None));
}

#[test]
fn failed_vector_search_counts_as_no_hits() {
    assert!(vector_hits(VectorSearchOutcome::EmbeddingFailed).is_empty());
    assert!(vector_hits(VectorSearchOutcome::SearchFailed).is_empty());
    assert!(vector_hits(VectorSearchOutcome::Skipped).is_empty());
    let hits = vec![ScoredId { memory_id: 4, score_key: 9 }];
    assert_eq!(vector_hits(VectorSearchOutcome::Found(hits.clone())), hits);
    assert!(similarities(vector_hits(VectorSearchOutcome::SearchFailed)).is_none());
}

#[test]
fn retry_after_parses_like_u64() {
    for text in ["", "+", "-1", " 5", "5 ", "1.5", "abc", "18446744073709551616", "99999999999999999999"] {
        assert_eq!(parse_retry_after(text), text.parse::<u64>().ok(), "{:?}", text);
    }
    for text in ["0", "7", "+30", "0042", "18446744073709551615"] {
        assert_eq!(parse_retry_after(text), text.parse::<u64>().ok(), "{:?}", text);
    }
    assert_eq!(parse_retry_after("+30"), Some(30));
}

#[test]
fn headline_splits_into_trimmed_highlights() {
    assert_eq!(highlights_from_headline(None), None);
    let h = " <mark>dark</mark> mode ...  ... prefers <mark>dark</mark>  ... ".to_string();
    let expected: Vec<String> = h.split(" ... ").map(|s| s.trim().to_string()).filter(|s| !s.is_empty()).collect();
    assert_eq!(highlights_from_headline(Some(h)), Some(expected.clone()));
    assert_eq!(expected, vec!["<mark>dark</mark> mode".to_string(), "prefers <mark>dark</mark>".to_string()]);
    assert_eq!(highlights_from_headline(Some(String::new())), Some(vec![]));
    let overlapping = "a ... ... b".to_string();
    let expected: Vec<String> = overlapping.split(" ... ").map(|s| s.trim().to_string()).filter(|s| !s.is_empty()).collect();
    assert_eq!(highlights_from_headline(Some(overlapping)), Some(expected));
}
