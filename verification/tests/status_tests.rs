use memory_server::status::{
    EmbeddingStatus, InferenceType, MemoryCategory, ProcessingMode, ProcessingStatus, Status,
};

#[test]
fn test_status_retrievable() {
    assert!(Status::Active.is_retrievable());
    assert!(Status::Cooldown.is_retrievable());
    assert!(!Status::Candidate.is_retrievable());
    assert!(!Status::Superseded.is_retrievable());
    assert!(!Status::Archived.is_retrievable());
}

#[test]
fn test_status_penalty() {
    assert!(!Status::Active.has_retrieval_penalty());
    assert!(Status::Cooldown.has_retrieval_penalty());
    assert!(!Status::Superseded.has_retrieval_penalty());
}

#[test]
fn test_status_excluded() {
    assert!(!Status::Active.is_excluded());
    assert!(!Status::Cooldown.is_excluded());
    assert!(Status::Candidate.is_excluded());
    assert!(Status::Superseded.is_excluded());
    assert!(Status::Archived.is_excluded());
}

#[test]
fn test_status_current() {
    assert!(Status::Active.is_current());
    assert!(Status::Cooldown.is_current());
    assert!(Status::Candidate.is_current());
    assert!(!Status::Superseded.is_current());
    assert!(Status::Archived.is_current());
}

#[test]
fn test_status_default() {
    assert_eq!(Status::default(), Status::Active);
}

#[test]
fn test_status_display() {
    assert_eq!(Status::Active.to_string(), "active");
    assert_eq!(Status::Cooldown.to_string(), "cooldown");
    assert_eq!(Status::Candidate.to_string(), "candidate");
    assert_eq!(Status::Superseded.to_string(), "superseded");
    assert_eq!(Status::Archived.to_string(), "archived");
}

#[test]
fn test_embedding_status_default() {
    assert_eq!(EmbeddingStatus::default(), EmbeddingStatus::Pending);
}

#[test]
fn test_processing_status_default() {
    assert_eq!(ProcessingStatus::default(), ProcessingStatus::Skipped);
}

#[test]
fn test_processing_status_processing_display() {
    assert_eq!(ProcessingStatus::Processing.to_string(), "processing");
}

#[test]
fn test_memory_category_default() {
    assert_eq!(MemoryCategory::default(), MemoryCategory::Other);
}

#[test]
fn test_memory_category_from_str() {
    assert_eq!(
        "user_preference".parse::<MemoryCategory>().unwrap(),
        MemoryCategory::UserPreference
    );
    assert_eq!(
        "behavior_pattern".parse::<MemoryCategory>().unwrap(),
        MemoryCategory::BehaviorPattern
    );
    assert_eq!(
        "business_rule".parse::<MemoryCategory>().unwrap(),
        MemoryCategory::BusinessRule
    );
    assert_eq!(
        "factual_knowledge".parse::<MemoryCategory>().unwrap(),
        MemoryCategory::FactualKnowledge
    );
    assert_eq!(
        "other".parse::<MemoryCategory>().unwrap(),
        MemoryCategory::Other
    );
    assert!("unknown".parse::<MemoryCategory>().is_err());
}

#[test]
fn test_inference_type_default() {
    assert_eq!(InferenceType::default(), InferenceType::Fact);
}

#[test]
fn test_inference_type_from_str() {
    assert_eq!("fact".parse::<InferenceType>().unwrap(), InferenceType::Fact);
    assert_eq!(
        "preference".parse::<InferenceType>().unwrap(),
        InferenceType::Preference
    );
    assert_eq!(
        "pattern".parse::<InferenceType>().unwrap(),
        InferenceType::Pattern
    );
    assert_eq!("rule".parse::<InferenceType>().unwrap(), InferenceType::Rule);
    assert!("unknown".parse::<InferenceType>().is_err());
}

#[test]
fn test_processing_mode_default() {
    assert_eq!(ProcessingMode::default(), ProcessingMode::Assisted);
}

#[test]
fn test_processing_mode_from_str() {
    assert_eq!("auto".parse::<ProcessingMode>().unwrap(), ProcessingMode::Auto);
    assert_eq!(
        "assisted".parse::<ProcessingMode>().unwrap(),
        ProcessingMode::Assisted
    );
    assert_eq!(
        "manual".parse::<ProcessingMode>().unwrap(),
        ProcessingMode::Manual
    );
    assert!("unknown".parse::<ProcessingMode>().is_err());
}

#[test]
fn status_parsing_ignores_case_and_reports_unknown_names() {
    assert_eq!(
        MemoryCategory::parse("User_Preference"),
        Ok(MemoryCategory::UserPreference)
    );
    assert_eq!(
        MemoryCategory::parse("nope"),
        Err("Unknown memory category: nope".to_string())
    );
    assert_eq!(
        InferenceType::parse("bogus"),
        Err("Unknown inference type: bogus".to_string())
    );
}
