use memory_server::error::AppError;
use memory_server::json::{JsonEntry, JsonValue};
use memory_server::event::{
    CreateEventInput, CreateEventValidation, Event, EventMemoryRelation, EventMemoryRelationType,
    EventSource,
};
use memory_server::memory::{
    CreateMemoryFromEventInput, CreateMemoryInput, CreateMemoryValidation,
    CreateSupersedingMemoryInput, Memory,
};
use memory_server::profile::{
    CreateProfileInput, InitializeProfileRequest, ParsedProfile, ProfileValidation, SystemProfile,
    UpdateProfileInput, UpdateProfileRequest,
};
use memory_server::status::{EmbeddingStatus, InferenceType, ProcessingStatus, Status};
use memory_server::structured_event::{
    CreateStructuredEventInput, ParsedStructuredEvent, StructuredEvent,
};

/// Waits until the clock has moved past `t`.
fn wait_past(t: i64) {
    while memory_server::ids::now_millis() <= t {}
}

fn new_id() -> u128 {
    uuid::Uuid::new_v4().as_u128()
}

fn bits(x: f32) -> u32 {
    x.to_bits()
}

fn valid_event_input() -> CreateEventInput {
    CreateEventInput {
        profile_id: new_id(),
        owner_id: "owner123".to_string(),
        scope_id: Some("scope456".to_string()),
        content: "User clicked dark mode button".to_string(),
        context: Some("Settings page".to_string()),
        source: Some(EventSource::UserAction),
        event_time: None,
    }
}

#[test]
fn test_event_creation() {
    let input = valid_event_input();
    let profile_id = input.profile_id;
    let event = Event::new(input);
    assert_eq!(event.profile_id, profile_id);
    assert_eq!(event.owner_id, "owner123");
    assert_eq!(event.scope_id, Some("scope456".to_string()));
    assert_eq!(event.content, "User clicked dark mode button");
    assert_eq!(event.context, Some("Settings page".to_string()));
    assert_eq!(event.source, Some(EventSource::UserAction));
    assert_eq!(event.processing_status, ProcessingStatus::Pending);
    assert!(!event.skipped);
    assert!(event.processed_at.is_none());
    assert!(event.summary.is_none());
    assert!(event.analysis_payload.is_none());
    assert!(event.analysis_schema_version.is_none());
}

#[test]
fn test_event_creation_without_scope() {
    let input = CreateEventInput {
        profile_id: new_id(),
        owner_id: "owner123".to_string(),
        scope_id: None,
        content: "Global event".to_string(),
        context: None,
        source: None,
        event_time: None,
    };
    let event = Event::new(input);
    assert!(event.scope_id.is_none());
}

#[test]
fn test_event_mark_processed() {
    let mut event = Event::new(valid_event_input());
    event.mark_processed("User changed theme preference".to_string());
    assert_eq!(event.processing_status, ProcessingStatus::Completed);
    assert!(event.processed_at.is_some());
    assert_eq!(
        event.summary,
        Some("User changed theme preference".to_string())
    );
}

#[test]
fn test_event_mark_skipped() {
    let mut event = Event::new(valid_event_input());
    event.mark_skipped("not relevant".to_string(), Some(bits(0.12)));
    assert_eq!(event.processing_status, ProcessingStatus::Skipped);
    assert!(event.skipped);
    assert_eq!(event.skip_reason, Some("not relevant".to_string()));
    assert_eq!(event.relevance_score_bits.map(f32::from_bits), Some(0.12));
    assert!(event.processed_at.is_some());
}

#[test]
fn test_event_mark_failed() {
    let mut event = Event::new(valid_event_input());
    event.mark_failed("llm timeout".to_string());
    assert_eq!(event.processing_status, ProcessingStatus::Failed);
    assert_eq!(event.error_message, Some("llm timeout".to_string()));
    assert!(event.processed_at.is_some());
}

#[test]
fn marks_leave_the_event_terminal() {
    let mut event = Event::new(valid_event_input());
    assert!(!event.is_terminal());
    event.mark_failed("boom".to_string());
    assert!(event.is_terminal());
    event.mark_processed("done".to_string());
    assert!(event.is_terminal());
    assert!(event.error_message.is_none());
}

#[test]
fn test_event_validation_valid() {
    assert!(CreateEventValidation::validate(&valid_event_input()).is_ok());
}

#[test]
fn test_event_validation_empty_owner_id() {
    let mut input = valid_event_input();
    input.owner_id = "".to_string();
    let result = CreateEventValidation::validate(&input);
    assert!(matches!(result, Err(AppError::Validation(_))));
}

#[test]
fn test_event_validation_empty_content() {
    let mut input = valid_event_input();
    input.content = "".to_string();
    let result = CreateEventValidation::validate(&input);
    assert!(matches!(result, Err(AppError::Validation(_))));
}

#[test]
fn test_relation_type_display() {
    assert_eq!(
        EventMemoryRelationType::CreatedFrom.to_string(),
        "created_from"
    );
    assert_eq!(
        EventMemoryRelationType::ReinforcedBy.to_string(),
        "reinforced_by"
    );
}

#[test]
fn test_relation_type_from_str() {
    assert_eq!(
        "created_from".parse::<EventMemoryRelationType>().unwrap(),
        EventMemoryRelationType::CreatedFrom
    );
    assert_eq!(
        "reinforced_by".parse::<EventMemoryRelationType>().unwrap(),
        EventMemoryRelationType::ReinforcedBy
    );
    assert!("unknown".parse::<EventMemoryRelationType>().is_err());
}

#[test]
fn test_event_source_display_and_parse() {
    assert_eq!(EventSource::Conversation.to_string(), "conversation");
    assert_eq!(EventSource::UserAction.to_string(), "user_action");
    assert_eq!(EventSource::SystemEvent.to_string(), "system_event");
    assert_eq!(EventSource::Manual.to_string(), "manual");
    assert_eq!(EventSource::Api.to_string(), "api");
    assert_eq!("api".parse::<EventSource>().unwrap(), EventSource::Api);
    assert_eq!(
        "system_event".parse::<EventSource>().unwrap(),
        EventSource::SystemEvent
    );
    assert!("user_created".parse::<EventSource>().is_err());
    assert_eq!(
        "user_created".parse::<EventSource>(),
        Err("Unknown event source: user_created".to_string())
    );
}

#[test]
fn test_event_memory_relation_creation() {
    let event_id = new_id();
    let memory_id = new_id();
    let relation =
        EventMemoryRelation::new(event_id, memory_id, EventMemoryRelationType::ReinforcedBy);
    assert_eq!(relation.event_id, event_id);
    assert_eq!(relation.memory_id, memory_id);
    assert_eq!(
        relation.relation_type,
        EventMemoryRelationType::ReinforcedBy
    );
}

#[test]
fn test_event_memory_relation_helpers() {
    let event_id = new_id();
    let memory_id = new_id();
    let created = EventMemoryRelation::created_from(event_id, memory_id);
    assert_eq!(created.relation_type, EventMemoryRelationType::CreatedFrom);
    let reinforced = EventMemoryRelation::reinforced_by(event_id, memory_id);
    assert_eq!(
        reinforced.relation_type,
        EventMemoryRelationType::ReinforcedBy
    );
}

fn valid_input() -> CreateMemoryInput {
    CreateMemoryInput {
        profile_id: new_id(),
        owner_id: "owner123".to_string(),
        scope_id: Some("scope456".to_string()),
        content: "Test memory content".to_string(),
        category: Some("work.code".to_string()),
        tags: Some(vec!["test".to_string()]),
        importance_bits: Some(bits(0.7)),
        confidence_bits: Some(bits(0.9)),
        is_global: false,
        embedding_provider: None,
        process_with_llm: false,
        llm_provider: None,
    }
}

fn valid_memory_event_input() -> CreateMemoryFromEventInput {
    CreateMemoryFromEventInput {
        profile_id: new_id(),
        owner_id: "owner123".to_string(),
        scope_id: Some("scope456".to_string()),
        content: "User prefers dark mode".to_string(),
        category: Some("preference.ui".to_string()),
        tags: Some(vec!["preference".to_string(), "ui".to_string()]),
        importance_bits: bits(0.8),
        confidence_bits: bits(0.95),
        source_event_id: new_id(),
        embedding_provider: Some("openai".to_string()),
        llm_provider: Some("openai".to_string()),
        inference_type: InferenceType::Preference,
        inference_confidence_bits: bits(0.9),
        inference_reasoning: "User explicitly stated preference".to_string(),
    }
}

#[test]
fn test_valid_memory_creation() {
    assert!(CreateMemoryValidation::validate(&valid_input()).is_ok());
}

#[test]
fn test_empty_owner_id_rejection() {
    let mut input = valid_input();
    input.owner_id = "".to_string();
    let result = CreateMemoryValidation::validate(&input);
    assert!(matches!(result, Err(AppError::Validation(_))));
}

#[test]
fn test_whitespace_owner_id_rejection() {
    let mut input = valid_input();
    input.owner_id = "   ".to_string();
    let result = CreateMemoryValidation::validate(&input);
    assert!(matches!(result, Err(AppError::Validation(_))));
}

#[test]
fn test_empty_content_rejection() {
    let mut input = valid_input();
    input.content = "".to_string();
    let result = CreateMemoryValidation::validate(&input);
    assert!(matches!(result, Err(AppError::Validation(_))));
}

#[test]
fn test_importance_out_of_range_rejection() {
    let mut input = valid_input();
    input.importance_bits = Some(bits(1.5));
    let result = CreateMemoryValidation::validate(&input);
    assert!(matches!(result, Err(AppError::Validation(_))));
    input.importance_bits = Some(bits(-0.1));
    let result = CreateMemoryValidation::validate(&input);
    assert!(matches!(result, Err(AppError::Validation(_))));
}

#[test]
fn test_confidence_out_of_range_rejection() {
    let mut input = valid_input();
    input.confidence_bits = Some(bits(1.5));
    let result = CreateMemoryValidation::validate(&input);
    assert!(matches!(result, Err(AppError::Validation(_))));
}

#[test]
fn unit_interval_edges_are_accepted() {
    for v in [0.0f32, -0.0, 1.0, 0.5, f32::MIN_POSITIVE] {
        let mut input = valid_input();
        input.importance_bits = Some(bits(v));
        assert!(CreateMemoryValidation::validate(&input).is_ok(), "{}", v);
    }
    for v in [f32::NAN, 1.0000001f32, -f32::MIN_POSITIVE, f32::INFINITY] {
        let mut input = valid_input();
        input.confidence_bits = Some(bits(v));
        match CreateMemoryValidation::validate(&input) {
            Err(AppError::Validation(m)) => {
                assert_eq!(m, "confidence must be between 0.0 and 1.0")
            }
            other => panic!("{:?} accepted: {:?}", v, other),
        }
    }
}

#[test]
fn test_memory_creation_with_defaults() {
    let input = CreateMemoryInput {
        profile_id: new_id(),
        owner_id: "owner123".to_string(),
        scope_id: None,
        content: "Test content".to_string(),
        category: None,
        tags: None,
        importance_bits: None,
        confidence_bits: None,
        is_global: false,
        embedding_provider: None,
        process_with_llm: false,
        llm_provider: None,
    };
    let memory = Memory::new(input);
    assert_eq!(f32::from_bits(memory.importance_bits), 0.5);
    assert_eq!(f32::from_bits(memory.confidence_bits), 1.0);
    assert_eq!(memory.status, Status::Active);
    assert_eq!(memory.hit_count, 0);
    assert!(memory.last_hit_at.is_none());
    assert_eq!(memory.reinforcement_count, 0);
    assert!(memory.last_reinforced_at.is_none());
    assert_eq!(memory.embedding_status, EmbeddingStatus::Pending);
    assert_eq!(memory.processing_status, ProcessingStatus::Skipped);
    assert_eq!(memory.root_memory_id, Some(memory.id));
    assert_eq!(memory.version_number, 1);
    assert!(memory.is_current_version);
    assert!(memory.supersedes.is_none());
    assert!(memory.superseded_by.is_none());
    assert!(memory.inference_type.is_none());
    assert!(memory.inference_confidence_bits.is_none());
    assert!(memory.inference_reasoning.is_none());
    assert!(memory.conflict_reason.is_none());
    assert!(memory.consistency_confidence_bits.is_none());
}

#[test]
fn test_memory_from_event() {
    let input = valid_memory_event_input();
    let source_event_id = input.source_event_id;
    let memory = Memory::new_from_event(input);
    assert_eq!(memory.source_event_id, Some(source_event_id));
    assert_eq!(memory.inference_type, Some(InferenceType::Preference));
    assert_eq!(memory.inference_confidence_bits.map(f32::from_bits), Some(0.9));
    assert!(memory.inference_reasoning.is_some());
    assert_eq!(memory.processing_status, ProcessingStatus::Completed);
    assert_eq!(memory.root_memory_id, Some(memory.id));
    assert_eq!(memory.version_number, 1);
    assert!(memory.is_current_version);
}

#[test]
fn test_memory_superseding() {
    let first_input = valid_memory_event_input();
    let profile_id = first_input.profile_id;
    let first_memory = Memory::new_from_event(first_input);
    let first_id = first_memory.id;
    let root_id = first_memory.root_memory_id.unwrap();
    let superseding_input = CreateSupersedingMemoryInput {
        old_memory_id: first_id,
        root_memory_id: root_id,
        version_number: 2,
        profile_id,
        owner_id: first_memory.owner_id.clone(),
        scope_id: first_memory.scope_id.clone(),
        content: "User now prefers light mode".to_string(),
        category: Some("preference.ui".to_string()),
        tags: Some(vec!["preference".to_string()]),
        importance_bits: bits(0.8),
        confidence_bits: bits(0.95),
        is_global: false,
        source_event_id: new_id(),
        embedding_provider: None,
        llm_provider: None,
        inference_type: InferenceType::Preference,
        inference_confidence_bits: bits(0.9),
        inference_reasoning: "User changed preference".to_string(),
    };
    let new_memory = Memory::new_superseding(superseding_input);
    assert_eq!(new_memory.root_memory_id, Some(root_id));
    assert_eq!(new_memory.version_number, 2);
    assert!(new_memory.is_current_version);
    assert_eq!(new_memory.supersedes, Some(first_id));
    assert!(new_memory.superseded_by.is_none());
}

#[test]
fn test_mark_superseded() {
    let mut memory = Memory::new_from_event(valid_memory_event_input());
    let new_version_id = new_id();
    memory.mark_superseded(new_version_id);
    assert_eq!(memory.superseded_by, Some(new_version_id));
    assert!(!memory.is_current_version);
    assert_eq!(memory.status, Status::Superseded);
}

#[test]
fn test_memory_record_hit() {
    let mut memory = Memory::new(valid_input());
    assert_eq!(memory.hit_count, 0);
    assert!(memory.last_hit_at.is_none());
    memory.record_hit();
    assert_eq!(memory.hit_count, 1);
    assert!(memory.last_hit_at.is_some());
}

#[test]
fn test_memory_cooldown_recovery() {
    let mut memory = Memory::new(valid_input());
    memory.status = Status::Cooldown;
    memory.record_hit();
    assert_eq!(memory.status, Status::Active);
}

#[test]
fn test_memory_record_conflict() {
    let mut memory = Memory::new(valid_input());
    memory.record_conflict("Conflicts with prior preference".to_string(), bits(0.86));
    assert_eq!(
        memory.conflict_reason,
        Some("Conflicts with prior preference".to_string())
    );
    assert_eq!(memory.consistency_confidence_bits.map(f32::from_bits), Some(0.86));
}

#[test]
fn test_memory_promote_to_global() {
    let mut memory = Memory::new(valid_input());
    assert!(!memory.is_global);
    assert!(memory.scope_id.is_some());
    memory.promote_to_global("Cross-scope reinforcement");
    assert!(memory.is_global);
    assert!(memory.scope_id.is_none());
    assert!(memory.promoted_at.is_some());
    assert_eq!(
        memory.promotion_reason,
        Some("Cross-scope reinforcement".to_string())
    );
}

#[test]
fn test_memory_archive() {
    let mut memory = Memory::new(valid_input());
    memory.archive();
    assert_eq!(memory.status, Status::Archived);
}

#[test]
fn test_memory_status_transitions() {
    let mut memory = Memory::new(valid_input());
    assert_eq!(memory.status, Status::Active);
    memory.transition_to_cooldown();
    assert_eq!(memory.status, Status::Cooldown);
    memory.transition_to_candidate();
    assert_eq!(memory.status, Status::Candidate);
    memory.archive();
    assert_eq!(memory.status, Status::Archived);
}

#[test]
fn transitions_from_the_wrong_status_do_nothing() {
    let mut memory = Memory::new(valid_input());
    memory.transition_to_candidate();
    assert_eq!(memory.status, Status::Active);
    memory.archive();
    memory.transition_to_cooldown();
    memory.record_hit();
    assert_eq!(memory.status, Status::Archived);
}

#[test]
fn test_memory_with_llm_processing_enabled() {
    let mut input = valid_input();
    input.process_with_llm = true;
    input.llm_provider = Some("openai".to_string());
    let memory = Memory::new(input);
    assert_eq!(memory.processing_status, ProcessingStatus::Pending);
    assert_eq!(memory.llm_provider, Some("openai".to_string()));
}

#[test]
fn test_global_memory_creation() {
    let mut input = valid_input();
    input.is_global = true;
    input.scope_id = None;
    let memory = Memory::new(input);
    assert!(memory.is_global);
    assert!(memory.scope_id.is_none());
}

#[test]
fn inactivity_thresholds_count_whole_days() {
    let mut memory = Memory::new(valid_input());
    let day: i64 = 86_400_000;
    let t0 = memory.created_at;
    assert!(!memory.should_cooldown_at(7, t0 + 7 * day));
    assert!(!memory.should_cooldown_at(7, t0 + 8 * day - 1));
    assert!(memory.should_cooldown_at(7, t0 + 8 * day));
    assert!(!memory.should_become_candidate_at(7, t0 + 30 * day));
    memory.transition_to_cooldown();
    assert!(memory.should_become_candidate_at(14, t0 + 15 * day));
    assert!(!memory.should_cooldown_at(7, t0 + 30 * day));
    memory.transition_to_candidate();
    assert!(memory.should_archive_at(30, t0 + 31 * day));
    assert!(!memory.should_archive_at(30, t0 - 31 * day));
}

fn valid_create_input() -> CreateProfileInput {
    CreateProfileInput {
        name: "房产推荐系统".to_string(),
        description: "这是一个房产推荐系统，帮助购房者找到合适的房源".to_string(),
    }
}

fn valid_parsed_profile() -> ParsedProfile {
    ParsedProfile {
        purpose: "房产推荐".to_string(),
        domain: "房地产".to_string(),
        target_audience: "购房者".to_string(),
        event_categories: vec!["咨询".to_string(), "看房".to_string(), "成交".to_string()],
        memory_focus: vec!["购房偏好".to_string(), "预算范围".to_string()],
        boundaries: vec!["不处理租房".to_string()],
        extraction_prompt: "请将用户行为解析为结构化格式...".to_string(),
    }
}

#[test]
fn test_valid_profile_creation() {
    let result = ProfileValidation::validate_create(&valid_create_input());
    assert!(result.is_ok());
}

#[test]
fn test_empty_name_rejection() {
    let mut input = valid_create_input();
    input.name = "".to_string();
    let result = ProfileValidation::validate_create(&input);
    assert!(matches!(result, Err(AppError::Validation(_))));
}

#[test]
fn test_whitespace_name_rejection() {
    let mut input = valid_create_input();
    input.name = "   ".to_string();
    let result = ProfileValidation::validate_create(&input);
    assert!(matches!(result, Err(AppError::Validation(_))));
}

#[test]
fn test_name_too_long_rejection() {
    let mut input = valid_create_input();
    input.name = "a".repeat(101);
    let result = ProfileValidation::validate_create(&input);
    assert!(matches!(result, Err(AppError::Validation(_))));
}

#[test]
fn test_name_at_max_length_accepted() {
    let mut input = valid_create_input();
    input.name = "a".repeat(100);
    let result = ProfileValidation::validate_create(&input);
    assert!(result.is_ok());
}

#[test]
fn name_length_counts_characters() {
    // 100 characters of three bytes each are accepted; 101 are not.
    let mut input = valid_create_input();
    input.name = "房".repeat(100);
    assert!(ProfileValidation::validate_create(&input).is_ok());
    input.name = "房".repeat(101);
    match ProfileValidation::validate_create(&input) {
        Err(AppError::Validation(m)) => assert_eq!(m, "name must be 100 characters or less"),
        other => panic!("accepted: {:?}", other),
    }
}

#[test]
fn test_empty_description_rejection() {
    let mut input = valid_create_input();
    input.description = "".to_string();
    let result = ProfileValidation::validate_create(&input);
    assert!(matches!(result, Err(AppError::Validation(_))));
}

#[test]
fn test_profile_new() {
    let input = valid_create_input();
    let parsed = valid_parsed_profile();
    let profile = SystemProfile::new(input.clone(), parsed.clone());
    assert_eq!(profile.name, input.name);
    assert_eq!(profile.description, input.description);
    assert_eq!(profile.purpose, parsed.purpose);
    assert_eq!(profile.domain, parsed.domain);
    assert_eq!(profile.target_audience, parsed.target_audience);
    assert_eq!(profile.event_categories, parsed.event_categories);
    assert_eq!(profile.memory_focus, parsed.memory_focus);
    assert_eq!(profile.boundaries, parsed.boundaries);
    assert_eq!(profile.extraction_prompt, parsed.extraction_prompt);
}

#[test]
fn test_profile_partial_update() {
    let mut profile = SystemProfile::new(valid_create_input(), valid_parsed_profile());
    let original_purpose = profile.purpose.clone();
    let original_updated_at = profile.updated_at;
    wait_past(original_updated_at);
    let update = UpdateProfileInput {
        name: Some("新系统名称".to_string()),
        event_categories: Some(vec!["新分类".to_string()]),
        ..Default::default()
    };
    profile.apply_update(update);
    assert_eq!(profile.name, "新系统名称");
    assert_eq!(profile.event_categories, vec!["新分类".to_string()]);
    assert_eq!(profile.purpose, original_purpose);
    assert!(profile.updated_at > original_updated_at);
}

#[test]
fn test_profile_apply_parsed() {
    let mut profile = SystemProfile::new(valid_create_input(), valid_parsed_profile());
    let original_updated_at = profile.updated_at;
    wait_past(original_updated_at);
    let new_parsed = ParsedProfile {
        purpose: "新用途".to_string(),
        domain: "新领域".to_string(),
        target_audience: "新受众".to_string(),
        event_categories: vec!["新分类1".to_string()],
        memory_focus: vec!["新关注点".to_string()],
        boundaries: vec!["新边界".to_string()],
        extraction_prompt: "新提取prompt".to_string(),
    };
    profile.apply_parsed(new_parsed.clone());
    assert_eq!(profile.purpose, new_parsed.purpose);
    assert_eq!(profile.domain, new_parsed.domain);
    assert_eq!(profile.target_audience, new_parsed.target_audience);
    assert_eq!(profile.event_categories, new_parsed.event_categories);
    assert_eq!(profile.memory_focus, new_parsed.memory_focus);
    assert_eq!(profile.boundaries, new_parsed.boundaries);
    assert_eq!(profile.extraction_prompt, new_parsed.extraction_prompt);
    assert!(profile.updated_at > original_updated_at);
}

#[test]
fn test_update_validation_with_long_name() {
    let update = UpdateProfileInput {
        name: Some("a".repeat(101)),
        ..Default::default()
    };
    let result = ProfileValidation::validate_update(&update);
    assert!(matches!(result, Err(AppError::Validation(_))));
}

#[test]
fn test_update_validation_with_valid_name() {
    let update = UpdateProfileInput {
        name: Some("Valid Name".to_string()),
        ..Default::default()
    };
    let result = ProfileValidation::validate_update(&update);
    assert!(result.is_ok());
}

#[test]
fn test_initialize_request_conversion() {
    let request = InitializeProfileRequest {
        name: "房产推荐系统".to_string(),
        description: "这是一个房产推荐系统".to_string(),
    };
    let input: CreateProfileInput = request.clone().into_input();
    assert_eq!(input.name, request.name);
    assert_eq!(input.description, request.description);
}

#[test]
fn test_update_request_conversion() {
    let request = UpdateProfileRequest {
        name: Some("新名称".to_string()),
        event_categories: Some(vec!["咨询".to_string(), "看房".to_string()]),
        reparse: false,
        ..Default::default()
    };
    let input: UpdateProfileInput = request.clone().into_input();
    assert_eq!(input.name, request.name);
    assert_eq!(input.event_categories, request.event_categories);
    assert_eq!(input.reparse, request.reparse);
    assert!(input.description.is_none());
    assert!(input.purpose.is_none());
}

fn valid_structured_input() -> CreateStructuredEventInput {
    CreateStructuredEventInput {
        event_id: new_id(),
        time_element: Some("2024-01-15 14:30".to_string()),
        location_element: Some("房源详情页".to_string()),
        actor_element: "user123".to_string(),
        cause_element: Some("用户对房源不满意".to_string()),
        process_element: Some("点击了不喜欢按钮".to_string()),
        result_element: Some("房源被标记为不喜欢".to_string()),
        background_element: Some("用户正在浏览推荐房源".to_string()),
        details_element: Some("选择原因：价格过高".to_string()),
        category: Some("反馈".to_string()),
    }
}

fn bare_structured_input(actor: &str) -> CreateStructuredEventInput {
    CreateStructuredEventInput {
        event_id: new_id(),
        time_element: None,
        location_element: None,
        actor_element: actor.to_string(),
        cause_element: None,
        process_element: None,
        result_element: None,
        background_element: None,
        details_element: None,
        category: None,
    }
}

#[test]
fn test_structured_event_creation() {
    let input = valid_structured_input();
    let event_id = input.event_id;
    let event = StructuredEvent::new(input);
    assert_eq!(event.event_id, event_id);
    assert_eq!(event.actor_element, "user123");
    assert_eq!(event.time_element, Some("2024-01-15 14:30".to_string()));
    assert_eq!(event.location_element, Some("房源详情页".to_string()));
    assert_eq!(event.cause_element, Some("用户对房源不满意".to_string()));
    assert_eq!(event.process_element, Some("点击了不喜欢按钮".to_string()));
    assert_eq!(event.result_element, Some("房源被标记为不喜欢".to_string()));
    assert_eq!(
        event.background_element,
        Some("用户正在浏览推荐房源".to_string())
    );
    assert_eq!(event.details_element, Some("选择原因：价格过高".to_string()));
    assert_eq!(event.category, Some("反馈".to_string()));
}

#[test]
fn test_structured_event_from_parsed() {
    let event_id = new_id();
    let parsed = ParsedStructuredEvent {
        time: Some("2024-01-15 14:30".to_string()),
        location: Some("房源详情页".to_string()),
        actor: "user123".to_string(),
        cause: Some("用户对房源不满意".to_string()),
        process: Some("点击了不喜欢按钮".to_string()),
        result: Some("房源被标记为不喜欢".to_string()),
        background: Some("用户正在浏览推荐房源".to_string()),
        details: Some("选择原因：价格过高".to_string()),
        category: Some("反馈".to_string()),
    };
    let event = StructuredEvent::from_parsed(event_id, parsed);
    assert_eq!(event.event_id, event_id);
    assert_eq!(event.actor_element, "user123");
    assert_eq!(event.time_element, Some("2024-01-15 14:30".to_string()));
}

#[test]
fn test_structured_event_with_minimal_fields() {
    let mut input = bare_structured_input("user123");
    input.process_element = Some("用户执行了某操作".to_string());
    assert!(StructuredEvent::new(input).has_minimal_info());
}

#[test]
fn test_structured_event_without_minimal_info() {
    let input = bare_structured_input("user123");
    assert!(!StructuredEvent::new(input).has_minimal_info());
}

#[test]
fn test_structured_event_empty_actor_not_minimal() {
    let mut input = bare_structured_input("   ");
    input.time_element = Some("2024-01-15".to_string());
    assert!(!StructuredEvent::new(input).has_minimal_info());
}

#[test]
fn test_structured_event_summary() {
    let event = StructuredEvent::new(valid_structured_input());
    let summary = event.summary();
    assert!(summary.contains("actor=user123"));
    assert!(summary.contains("time=2024-01-15 14:30"));
    assert!(summary.contains("location=房源详情页"));
    assert!(summary.contains("category=反馈"));
    assert_eq!(
        summary,
        "actor=user123, time=2024-01-15 14:30, location=房源详情页, category=反馈"
    );
    assert_eq!(
        StructuredEvent::new(bare_structured_input("u")).summary(),
        "actor=u"
    );
}

fn analysis_payload() -> JsonValue {
    JsonValue::Object(vec![
        JsonEntry { key: "intent".to_string(), value: JsonValue::Str("update_preference".to_string()) },
        JsonEntry {
            key: "metadata_hint".to_string(),
            value: JsonValue::Object(vec![
                JsonEntry {
                    key: "memory_type".to_string(),
                    value: JsonValue::Str("theme_preference".to_string()),
                },
                JsonEntry { key: "value".to_string(), value: JsonValue::Str("dark".to_string()) },
            ]),
        },
    ])
}

#[test]
fn test_event_mark_processed_with_analysis() {
    let mut event = Event::new(valid_event_input());
    event.mark_processed_with_analysis(
        "User changed theme preference".to_string(),
        Some(analysis_payload()),
        Some(2),
    );
    assert_eq!(event.processing_status, ProcessingStatus::Completed);
    assert_eq!(
        event.summary,
        Some("User changed theme preference".to_string())
    );
    assert!(memory_server::json::json_equal(
        event.analysis_payload.as_ref().unwrap(),
        &analysis_payload()
    ));
    assert_eq!(event.analysis_schema_version, Some(2));
    assert!(event.processed_at.is_some());
}

#[test]
fn reinforcement_counts_as_a_hit() {
    let mut memory = Memory::new(valid_input());
    memory.status = Status::Cooldown;
    memory.record_reinforcement(bits(0.95));
    assert_eq!(f32::from_bits(memory.confidence_bits), 0.95);
    assert_eq!(memory.reinforcement_count, 1);
    assert_eq!(memory.hit_count, 1);
    assert!(memory.last_reinforced_at.is_some());
    assert_eq!(memory.status, Status::Active);
}
