use memory_server::ids::uuid_to_string;
use memory_server::json::{JsonEntry, JsonValue};
use memory_server::memory::{CreateMemoryInput, Memory};
use memory_server::memory_api::{
    apply_embedding_outcome, current_version_id, history_root_id, CreateMemoryApiRequest,
};
use memory_server::ranking::{score_bits, score_key};
use memory_server::retrieval::{
    collapse_to_current, format_records_as_markdown, lineage_source_responses, number_records,
    parsed_intent,
    plan_vector_search, CurrentMemoryResolution, MarkdownRecord, MemoryHistory, RetrievedMemory,
};
use memory_server::status::EmbeddingStatus;

fn memory(id: u128, profile_id: u128) -> Memory {
    let mut m = Memory::new(CreateMemoryInput {
        profile_id,
        owner_id: "owner123".to_string(),
        scope_id: None,
        content: format!("memory {}", id),
        category: None,
        tags: None,
        importance_bits: None,
        confidence_bits: None,
        is_global: false,
        embedding_provider: None,
        process_with_llm: false,
        llm_provider: None,
    });
    m.id = id;
    m.root_memory_id = Some(id);
    m
}

fn key(x: f32) -> u32 {
    score_key(x.to_bits())
}

fn hit(id: u128, profile: u128, score: f32, highlights: Option<Vec<String>>) -> RetrievedMemory {
    RetrievedMemory {
        memory: memory(id, profile),
        score_key: key(score),
        similarity_key: key(score / 2.0),
        text_match_key: None,
        highlights,
        evidence: None,
        history: None,
    }
}

fn resolution(requested: u128, current: u128, profile: u128, path: &[u128]) -> CurrentMemoryResolution {
    CurrentMemoryResolution {
        requested_memory: memory(requested, profile),
        current_memory: memory(current, profile),
        lineage_to_current: path.iter().map(|&i| memory(i, profile)).collect(),
    }
}

#[test]
fn score_keys_order_like_scores() {
    let xs = [-3.5f32, -0.0, 0.0, 0.12, 0.5, 0.95, 7.0];
    for w in xs.windows(2) {
        assert!(key(w[0]) <= key(w[1]), "{} {}", w[0], w[1]);
    }
    assert!(key(0.5) < key(0.95));
    assert_eq!(key(-0.0), key(0.0));
    for x in xs {
        assert_eq!(f32::from_bits(score_bits(key(x))), x);
    }
}

#[test]
fn collapse_merges_versions_of_one_memory() {
    let profile = 9;
    let items = vec![
        (hit(1, profile, 0.4, None), resolution(1, 3, profile, &[1, 2, 3])),
        (hit(5, profile, 0.7, Some(vec!["<mark>x</mark>".to_string()])), resolution(5, 5, profile, &[5])),
        (hit(2, profile, 0.9, Some(vec!["h".to_string()])), resolution(2, 3, profile, &[2, 3])),
        (hit(1, profile, 0.1, None), resolution(1, 3, profile, &[1, 2, 3])),
        (hit(7, 8, 0.99, None), resolution(7, 7, 8, &[7])),
    ];
    let out = collapse_to_current(profile, items);
    assert_eq!(out.len(), 2);
    // memory 3 gathered scores 0.4, 0.9 and 0.1: its best is 0.9, ahead of memory 5.
    assert_eq!(out[0].retrieved.memory.id, 3);
    assert_eq!(out[0].retrieved.score_key, key(0.9));
    assert_eq!(out[0].retrieved.highlights, Some(vec!["h".to_string()]));
    let sources: Vec<u128> = out[0].merged_lineage_sources.iter().map(|s| s.source_memory_id).collect();
    assert_eq!(sources, vec![1, 2]);
    assert_eq!(out[0].merged_lineage_sources[0].lineage_to_current, vec![1, 2, 3]);
    let history = out[0].retrieved.history.as_ref().unwrap();
    assert_eq!(history.current_version_id, Some(3));
    assert_eq!(history.versions.iter().map(|m| m.id).collect::<Vec<_>>(), vec![1, 2, 3]);
    assert_eq!(out[1].retrieved.memory.id, 5);
    let responses = lineage_source_responses(&out[0].merged_lineage_sources);
    assert_eq!(responses[0].source_memory_id, uuid_to_string(1));
    assert_eq!(responses[0].lineage_to_current[2], uuid_to_string(3));
}

#[test]
fn collapse_keeps_existing_history_and_ties_in_order() {
    let profile = 1;
    let mut first = hit(10, profile, 0.5, None);
    first.history = Some(MemoryHistory { versions: vec![], current_version_id: Some(42) });
    let items = vec![
        (first, resolution(10, 10, profile, &[10])),
        (hit(20, profile, 0.5, None), resolution(20, 20, profile, &[20])),
    ];
    let out = collapse_to_current(profile, items);
    assert_eq!(out.iter().map(|c| c.retrieved.memory.id).collect::<Vec<_>>(), vec![10, 20]);
    assert_eq!(out[0].retrieved.history.as_ref().unwrap().current_version_id, Some(42));
    assert!(collapse_to_current(profile, vec![]).is_empty());
}

#[test]
fn vector_search_plan() {
    let (filter, limit) = plan_vector_search(4, "owner", &Some("scope".to_string()), None);
    assert_eq!(limit, 20);
    assert_eq!(filter.profile_id, Some(4));
    assert_eq!(filter.include_global, Some(true));
    assert_eq!(filter.statuses, Some(vec!["active".to_string()]));
    let (_, limit) = plan_vector_search(4, "owner", &None, Some(3));
    assert_eq!(limit, 6);
}

#[test]
fn parsed_intent_mentions_context() {
    assert_eq!(parsed_intent("q", &None), "q");
    assert_eq!(parsed_intent("q", &Some("ctx".to_string())), "q (context: ctx)");
}

#[test]
fn test_format_records_as_markdown_empty() {
    let records: Vec<MarkdownRecord> = vec![];
    assert_eq!(format_records_as_markdown(&records), "No matching records found.");
}

fn metadata() -> JsonValue {
    JsonValue::Object(vec![
        JsonEntry { key: "channel".to_string(), value: JsonValue::Str("explicit".to_string()) },
        JsonEntry { key: "memory_type".to_string(), value: JsonValue::Str("ui_preference".to_string()) },
        JsonEntry { key: "theme".to_string(), value: JsonValue::Str("dark".to_string()) },
    ])
}

#[test]
fn test_format_records_as_markdown() {
    let records = vec![
        MarkdownRecord {
            record: 1,
            time_millis: 1_700_000_000_000,
            metadata: metadata(),
            infer: "用户喜欢深色模式".to_string(),
            score_text: format!("{:.2}", 0.95f32),
        },
        MarkdownRecord {
            record: 2,
            time_millis: 1_700_000_000_000,
            metadata: JsonValue::Object(vec![]),
            infer: "用户偏好简洁界面".to_string(),
            score_text: format!("{:.2}", 0.82f32),
        },
    ];
    let markdown = format_records_as_markdown(&records);
    assert!(markdown.contains("record: 1"));
    assert!(markdown.contains("record: 2"));
    assert!(markdown.contains(
        "metadata: {\"channel\":\"explicit\",\"memory_type\":\"ui_preference\",\"theme\":\"dark\"}"
    ));
    assert!(markdown.contains("infer: 用户喜欢深色模式"));
    assert!(markdown.contains("score: 0.95"));
    assert!(markdown.contains("time: 2023-11-14 22:13:20\n"));
    assert!(markdown.ends_with("score: 0.82"));
    assert!(markdown.contains("score: 0.95\n\nrecord: 2"));
}

#[test]
fn test_create_memory_request_conversion() {
    let api_request = CreateMemoryApiRequest {
        owner_id: "owner123".to_string(),
        scope_id: Some("scope456".to_string()),
        content: "Test content".to_string(),
        category: Some("work.code".to_string()),
        tags: Some(vec!["tag1".to_string(), "tag2".to_string()]),
        importance_bits: Some(0.8f32.to_bits()),
        confidence_bits: Some(0.9f32.to_bits()),
        is_global: false,
        embedding_provider: Some("openai".to_string()),
    };
    let input = api_request.clone().into_input(3);
    assert_eq!(input.owner_id, api_request.owner_id);
    assert_eq!(input.scope_id, api_request.scope_id);
    assert_eq!(input.content, api_request.content);
    assert_eq!(input.category, api_request.category);
    assert_eq!(input.tags, api_request.tags);
    assert_eq!(input.importance_bits, api_request.importance_bits);
    assert_eq!(input.confidence_bits, api_request.confidence_bits);
    assert_eq!(input.is_global, api_request.is_global);
    assert_eq!(input.embedding_provider, api_request.embedding_provider);
    assert!(!input.process_with_llm);
    assert!(input.llm_provider.is_none());
}

#[test]
fn memory_endpoint_decisions() {
    let mut m = memory(1, 2);
    apply_embedding_outcome(&mut m, Some("local-bge".to_string()));
    assert_eq!(m.embedding_status, EmbeddingStatus::Completed);
    assert_eq!(m.embedding_provider, Some("local-bge".to_string()));
    apply_embedding_outcome(&mut m, None);
    assert_eq!(m.embedding_status, EmbeddingStatus::Failed);
    assert_eq!(history_root_id(&m), 1);
    m.root_memory_id = None;
    assert_eq!(history_root_id(&m), 1);
    let mut a = memory(1, 2);
    a.is_current_version = false;
    let b = memory(2, 2);
    assert_eq!(current_version_id(&vec![a, b]), Some(2));
    assert_eq!(current_version_id(&vec![]), None);
}

#[test]
fn records_are_numbered_from_one() {
    let entries = vec![
        (1_700_000_000_000i64, metadata(), "first".to_string(), "0.95".to_string()),
        (1_700_000_000_001i64, JsonValue::Null, "second".to_string(), "0.50".to_string()),
    ];
    let records = number_records(&entries);
    assert_eq!(records.len(), 2);
    assert_eq!(records[0].record, 1);
    assert_eq!(records[1].record, 2);
    assert_eq!(records[1].time_millis, 1_700_000_000_001);
    assert_eq!(records[0].infer, "first");
    assert_eq!(records[1].score_text, "0.50");
    let markdown = format_records_as_markdown(&records);
    assert!(markdown.starts_with("record: 1\ntime: 2023-11-14 22:13:20\n"));
    assert!(markdown.contains("\n\nrecord: 2\n"));
    assert!(markdown.contains("metadata: null\ninfer: second"));
}

#[test]
fn uuid_text_is_hyphenated_lowercase_hex() {
    assert_eq!(uuid_to_string(1), "00000000-0000-0000-0000-000000000001");
    assert_eq!(
        uuid_to_string(0x0123_4567_89ab_cdef_fedc_ba98_7654_3210),
        "01234567-89ab-cdef-fedc-ba9876543210"
    );
}
