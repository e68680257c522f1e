use memory_server::layer::Layer;
use memory_server::scope::ScopeType;

#[test]
fn test_layer_direct_creation() {
    assert!(Layer::Session.allows_direct_creation());
    assert!(Layer::Task.allows_direct_creation());
    assert!(!Layer::LongTerm.allows_direct_creation());
}

#[test]
fn test_layer_default_ttl() {
    assert_eq!(Layer::Session.default_ttl_seconds(), Some(3600));
    assert_eq!(Layer::Task.default_ttl_seconds(), Some(604800));
    assert_eq!(Layer::LongTerm.default_ttl_seconds(), None);
}

#[test]
fn test_layer_display() {
    assert_eq!(Layer::Session.to_string(), "session");
    assert_eq!(Layer::Task.to_string(), "task");
    assert_eq!(Layer::LongTerm.to_string(), "long_term");
}

#[test]
fn layer_cooldown_thresholds() {
    assert_eq!(Layer::Session.cooldown_threshold_seconds(), 86400);
    assert_eq!(Layer::Task.cooldown_threshold_seconds(), 604800);
    assert_eq!(Layer::LongTerm.cooldown_threshold_seconds(), 2592000);
}

#[test]
fn test_scope_type_all() {
    let all = ScopeType::all();
    assert_eq!(all.len(), 5);
    assert!(all.contains(&ScopeType::User));
    assert!(all.contains(&ScopeType::Org));
    assert!(all.contains(&ScopeType::Project));
    assert!(all.contains(&ScopeType::Task));
    assert!(all.contains(&ScopeType::Session));
}

#[test]
fn test_scope_type_from_str() {
    assert_eq!(ScopeType::from_str("user"), Some(ScopeType::User));
    assert_eq!(ScopeType::from_str("USER"), Some(ScopeType::User));
    assert_eq!(ScopeType::from_str("org"), Some(ScopeType::Org));
    assert_eq!(ScopeType::from_str("project"), Some(ScopeType::Project));
    assert_eq!(ScopeType::from_str("task"), Some(ScopeType::Task));
    assert_eq!(ScopeType::from_str("session"), Some(ScopeType::Session));
    assert_eq!(ScopeType::from_str("invalid"), None);
}

#[test]
fn test_scope_type_display() {
    assert_eq!(ScopeType::User.to_string(), "user");
    assert_eq!(ScopeType::Org.to_string(), "org");
    assert_eq!(ScopeType::Project.to_string(), "project");
    assert_eq!(ScopeType::Task.to_string(), "task");
    assert_eq!(ScopeType::Session.to_string(), "session");
}

#[test]
fn scope_type_names_read_back() {
    for t in ScopeType::all() {
        assert_eq!(ScopeType::from_str(&t.to_string()), Some(t));
    }
}
