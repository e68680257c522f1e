//! Configuration records and their default values.
use vstd::prelude::*;

verus! {

/// HTTP server configuration.
#[derive(Debug, Clone)]
pub struct ServerConfig {
    pub host: String,
    pub port: u16,
}

/// The default listen address.
pub fn default_host() -> (r: String)
    ensures
        r@ == "0.0.0.0"@,
{
    "0.0.0.0".to_owned()
}

/// The default listen port.
pub fn default_port() -> (r: u16)
    ensures
        r == 8080,
{
    8080
}

/// Database connection configuration.
#[derive(Debug, Clone)]
pub struct DatabaseConfig {
    pub url: String,
    pub max_connections: u32,
    pub min_connections: u32,
    /// Whether to run migrations on startup (default: true)
    pub run_migrations: bool,
}

/// Migrations run on startup unless configured otherwise.
pub fn default_run_migrations() -> (r: bool)
    ensures
        r,
{
    true
}

/// The default size of the connection pool.
pub fn default_max_connections() -> (r: u32)
    ensures
        r == 10,
{
    10
}

/// The default number of idle connections kept.
pub fn default_min_connections() -> (r: u32)
    ensures
        r == 2,
{
    2
}

/// Qdrant vector database configuration.
#[derive(Debug, Clone)]
pub struct QdrantConfig {
    pub url: String,
    pub collection_name: String,
}

/// The default collection name.
pub fn default_collection_name() -> (r: String)
    ensures
        r@ == "memories"@,
{
    "memories".to_owned()
}

/// Embedding provider configuration.
#[derive(Debug, Clone)]
pub struct EmbeddingConfig {
    pub default_provider: Option<String>,
    pub providers: Vec<ProviderConfig>,
}

/// Individual embedding provider configuration.
#[derive(Debug, Clone)]
pub struct ProviderConfig {
    pub name: String,
    pub provider_type: String,
    pub endpoint: String,
    pub api_key: Option<String>,
    pub model: String,
    pub dimension: usize,
    pub rate_limit: Option<RateLimitConfig>,
}

/// Rate limiting configuration for embedding providers.
#[derive(Debug, Clone)]
pub struct RateLimitConfig {
    pub requests_per_minute: Option<u32>,
    pub tokens_per_minute: Option<u32>,
}

/// The default interval between cooldown checks, in seconds.
pub fn default_cooldown_check_interval() -> (r: u64)
    ensures
        r == 3600,
{
    3600
}

/// Eviction configuration for LFU-based memory management.
#[derive(Debug, Clone)]
pub struct EvictionConfig {
    /// Days of inactivity before transitioning to cooldown
    pub cooldown_threshold_days: i64,
    /// Days in cooldown before becoming candidate
    pub candidate_threshold_days: i64,
    /// Days as candidate before archiving
    pub archive_threshold_days: i64,
    /// Maximum number of active memories per scope (0 = unlimited)
    pub max_memories_per_scope: usize,
    /// Maximum number of global memories (0 = unlimited)
    pub max_global_memories: usize,
    /// Batch size for eviction processing
    pub batch_size: usize,
}

/// Days of inactivity before cooldown, by default.
pub fn default_cooldown_threshold_days() -> (r: i64)
    ensures
        r == 7,
{
    7
}

/// Days in cooldown before becoming a candidate, by default.
pub fn default_candidate_threshold_days() -> (r: i64)
    ensures
        r == 14,
{
    14
}

/// Days as a candidate before archiving, by default.
pub fn default_archive_threshold_days() -> (r: i64)
    ensures
        r == 30,
{
    30
}

/// The default cap on active memories per scope.
pub fn default_max_memories_per_scope() -> (r: usize)
    ensures
        r == 1000,
{
    1000
}

/// The default cap on global memories.
pub fn default_max_global_memories() -> (r: usize)
    ensures
        r == 10000,
{
    10000
}

/// The default eviction batch size.
pub fn default_eviction_batch_size() -> (r: usize)
    ensures
        r == 100,
{
    100
}

impl Default for EvictionConfig {
    fn default() -> (c: Self)
        ensures
            c.cooldown_threshold_days == 7,
            c.candidate_threshold_days == 14,
            c.archive_threshold_days == 30,
            c.max_memories_per_scope == 1000,
            c.max_global_memories == 10000,
            c.batch_size == 100,
    {
        EvictionConfig {
            cooldown_threshold_days: default_cooldown_threshold_days(),
            candidate_threshold_days: default_candidate_threshold_days(),
            archive_threshold_days: default_archive_threshold_days(),
            max_memories_per_scope: default_max_memories_per_scope(),
            max_global_memories: default_max_global_memories(),
            batch_size: default_eviction_batch_size(),
        }
    }
}

/// The default number of results returned by retrieval.
pub fn default_top_k() -> (r: usize)
    ensures
        r == 10,
{
    10
}

/// The default upper bound on the number of results.
pub fn default_max_top_k() -> (r: usize)
    ensures
        r == 100,
{
    100
}

/// Audit logging configuration.
#[derive(Debug, Clone)]
pub struct AuditConfig {
    pub enabled: bool,
    pub retention_days: u32,
}

/// Audit logging is on by default.
pub fn default_audit_enabled() -> (r: bool)
    ensures
        r,
{
    true
}

/// Audit records are kept ninety days by default.
pub fn default_retention_days() -> (r: u32)
    ensures
        r == 90,
{
    90
}

impl Default for AuditConfig {
    fn default() -> (c: Self)
        ensures
            c.enabled,
            c.retention_days == 90,
    {
        AuditConfig { enabled: default_audit_enabled(), retention_days: default_retention_days() }
    }
}

} // verus!
