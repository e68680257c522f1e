//! Memories: creation and validation, the version chain, and the lifecycle
//! that LFU eviction drives (active, cooldown, candidate, archived).
//!
//! Scores between 0 and 1 (importance, confidence, decay, inference and
//! consistency confidence) are `f32` values, held here by their IEEE-754
//! bits; times are milliseconds since the Unix epoch.
use vstd::prelude::*;
use crate::error::{is_validation_error, AppError};
use crate::ids::{is_random_uuid, new_uuid_v4, now_millis};
use crate::status::{EmbeddingStatus, InferenceType, ProcessingStatus, Status};
use crate::text::{is_blank, is_blank_str};

verus! {

/// The bits of the `f32` 0.5.
pub const HALF_BITS: u32 = 0x3F00_0000;

/// The bits of the `f32` 1.0.
pub const ONE_BITS: u32 = 0x3F80_0000;

/// The bits of the `f32` -0.0.
pub const NEGATIVE_ZERO_BITS: u32 = 0x8000_0000;

/// Whether the `f32` with these bits lies in `[0.0, 1.0]`. Non-negative
/// floats are ordered as their bit patterns, `+0.0` has bits 0 and `1.0` has
/// `0x3F80_0000`; `-0.0` (`0x8000_0000`) also compares equal to `0.0`.
/// Every other pattern is negative, above one, or not a number.
pub open spec fn in_unit_interval(bits: u32) -> bool {
    bits <= ONE_BITS || bits == NEGATIVE_ZERO_BITS
}

/// Tests the unit-interval rule on the bits of an `f32`.
pub fn is_in_unit_interval(bits: u32) -> (r: bool)
    ensures
        r == in_unit_interval(bits),
{
    bits <= ONE_BITS || bits == NEGATIVE_ZERO_BITS
}

/// Memory entity representing a structured context, conclusion or rule.
/// Content is immutable after creation; conflicts create new versions.
#[derive(Debug, Clone)]
pub struct Memory {
    /// Unique identifier
    pub id: u128,
    /// System profile ID - which business system this memory belongs to
    pub profile_id: u128,
    /// Owner ID - user-defined, not validated semantically
    pub owner_id: String,
    /// Scope identifier - user-defined, null = global memory
    pub scope_id: Option<String>,
    /// Memory content
    pub content: String,
    /// Hierarchical category (e.g., "work.code.eslint")
    pub category: Option<String>,
    /// Tags/keywords extracted from content
    pub tags: Option<Vec<String>>,
    /// Importance score (0.0 - 1.0)
    pub importance_bits: u32,
    /// Confidence score (0.0 - 1.0)
    pub confidence_bits: u32,
    /// Root of the version chain (self.id for the first version)
    pub root_memory_id: Option<u128>,
    /// Version number in the chain (starts at 1)
    pub version_number: i32,
    /// Whether this is the current (latest) version
    pub is_current_version: bool,
    /// ID of the memory this one supersedes (previous version)
    pub supersedes: Option<u128>,
    /// ID of the memory that superseded this one (next version)
    pub superseded_by: Option<u128>,
    /// Whether this is a global (cross-scope) memory
    pub is_global: bool,
    /// Number of times this memory was retrieved
    pub hit_count: i64,
    /// Last time this memory was retrieved
    pub last_hit_at: Option<i64>,
    /// Number of times this memory was reinforced
    pub reinforcement_count: i64,
    /// Last time this memory was reinforced
    pub last_reinforced_at: Option<i64>,
    /// Decay score for LFU eviction (higher = more valuable)
    pub decay_score_bits: u32,
    /// Source event that created this memory
    pub source_event_id: Option<u128>,
    /// Memory lifecycle status
    pub status: Status,
    /// Embedding generation status
    pub embedding_status: EmbeddingStatus,
    /// Embedding provider used
    pub embedding_provider: Option<String>,
    /// LLM processing status
    pub processing_status: ProcessingStatus,
    /// LLM provider used for processing
    pub llm_provider: Option<String>,
    /// Inference type (fact, preference, pattern, rule)
    pub inference_type: Option<InferenceType>,
    /// Inference confidence score (0.0 - 1.0)
    pub inference_confidence_bits: Option<u32>,
    /// Reasoning for the inference
    pub inference_reasoning: Option<String>,
    /// Reason why this memory superseded another one, if any
    pub conflict_reason: Option<String>,
    /// Confidence of the consistency decision that led to the current state
    pub consistency_confidence_bits: Option<u32>,
    /// When the memory was promoted to global
    pub promoted_at: Option<i64>,
    /// Reason for promotion
    pub promotion_reason: Option<String>,
    /// Creation timestamp
    pub created_at: i64,
    /// Last update timestamp (for mutable metadata only)
    pub updated_at: i64,
}

/// Input for creating a new memory directly (not from an event).
#[derive(Debug, Clone)]
pub struct CreateMemoryInput {
    pub profile_id: u128,
    pub owner_id: String,
    pub scope_id: Option<String>,
    pub content: String,
    pub category: Option<String>,
    pub tags: Option<Vec<String>>,
    /// Importance (0.0 - 1.0), defaults to 0.5
    pub importance_bits: Option<u32>,
    /// Confidence (0.0 - 1.0), defaults to 1.0
    pub confidence_bits: Option<u32>,
    pub is_global: bool,
    pub embedding_provider: Option<String>,
    /// Whether to process content with an LLM
    pub process_with_llm: bool,
    pub llm_provider: Option<String>,
}

/// Input for creating a memory from an event extraction.
#[derive(Debug, Clone)]
pub struct CreateMemoryFromEventInput {
    pub profile_id: u128,
    pub owner_id: String,
    pub scope_id: Option<String>,
    pub content: String,
    pub category: Option<String>,
    pub tags: Option<Vec<String>>,
    pub importance_bits: u32,
    pub confidence_bits: u32,
    pub source_event_id: u128,
    pub embedding_provider: Option<String>,
    pub llm_provider: Option<String>,
    pub inference_type: InferenceType,
    pub inference_confidence_bits: u32,
    pub inference_reasoning: String,
}

/// Input for creating a superseding memory (new version).
#[derive(Debug, Clone)]
pub struct CreateSupersedingMemoryInput {
    /// The memory being superseded
    pub old_memory_id: u128,
    /// Root memory ID of the version chain
    pub root_memory_id: u128,
    /// New version number
    pub version_number: i32,
    pub profile_id: u128,
    pub owner_id: String,
    pub scope_id: Option<String>,
    pub content: String,
    pub category: Option<String>,
    pub tags: Option<Vec<String>>,
    pub importance_bits: u32,
    pub confidence_bits: u32,
    pub is_global: bool,
    pub source_event_id: u128,
    pub embedding_provider: Option<String>,
    pub llm_provider: Option<String>,
    pub inference_type: InferenceType,
    pub inference_confidence_bits: u32,
    pub inference_reasoning: String,
}

/// Validation for memory creation.
#[derive(Debug)]
pub struct CreateMemoryValidation;

/// The outcome of validating a direct memory creation.
pub open spec fn memory_input_check(input: CreateMemoryInput) -> Option<Seq<char>> {
    if is_blank(input.owner_id@) {
        Some("owner_id cannot be empty"@)
    } else if is_blank(input.content@) {
        Some("content cannot be empty"@)
    } else if input.importance_bits matches Some(b) && !in_unit_interval(b) {
        Some("importance must be between 0.0 and 1.0"@)
    } else if input.confidence_bits matches Some(b) && !in_unit_interval(b) {
        Some("confidence must be between 0.0 and 1.0"@)
    } else {
        None
    }
}

impl CreateMemoryValidation {
    /// Validates a memory creation request: owner id and content not blank,
    /// importance and confidence, when given, within `[0.0, 1.0]`.
    pub fn validate(input: &CreateMemoryInput) -> (r: Result<(), AppError>)
        ensures
            match memory_input_check(*input) {
                None => r is Ok,
                Some(m) => is_validation_error(r, m),
            },
    {
        if is_blank_str(input.owner_id.as_str()) {
            return Err(AppError::Validation("owner_id cannot be empty".to_owned()));
        }
        if is_blank_str(input.content.as_str()) {
            return Err(AppError::Validation("content cannot be empty".to_owned()));
        }
        if let Some(b) = input.importance_bits {
            if !is_in_unit_interval(b) {
                return Err(
                    AppError::Validation("importance must be between 0.0 and 1.0".to_owned()),
                );
            }
        }
        if let Some(b) = input.confidence_bits {
            if !is_in_unit_interval(b) {
                return Err(
                    AppError::Validation("confidence must be between 0.0 and 1.0".to_owned()),
                );
            }
        }
        Ok(())
    }
}

/// One step of the memory lifecycle.
#[derive(Debug, Clone, Copy, PartialEq, Eq, Structural)]
pub enum LifecycleOp {
    /// Inactivity: an active memory cools down
    Cooldown,
    /// Longer inactivity: a cooling memory becomes an eviction candidate
    Candidate,
    /// Eviction or manual archiving
    Archive,
    /// A retrieval hit
    Hit,
    /// A newer version replaced this one
    Supersede,
}

/// The status after one lifecycle step.
pub open spec fn next_status(s: Status, op: LifecycleOp) -> Status {
    match op {
        LifecycleOp::Cooldown => if s is Active { Status::Cooldown } else { s },
        LifecycleOp::Candidate => if s is Cooldown { Status::Candidate } else { s },
        LifecycleOp::Archive => Status::Archived,
        LifecycleOp::Hit => if s is Cooldown { Status::Active } else { s },
        LifecycleOp::Supersede => Status::Superseded,
    }
}

/// How far along the lifecycle a status is.
pub open spec fn status_rank(s: Status) -> int {
    match s {
        Status::Active => 0,
        Status::Cooldown => 1,
        Status::Candidate => 2,
        Status::Archived => 3,
        Status::Superseded => 3,
    }
}

/// The lifecycle only moves forward (active, cooldown, candidate, then
/// archived or superseded), with one exception: a hit revives a cooling
/// memory. Archived and superseded memories are never revived by a hit, and
/// a candidate is only left by archiving or superseding.
pub proof fn lifecycle_moves_forward(s: Status, op: LifecycleOp)
    ensures
        !(op is Hit && s is Cooldown) ==> status_rank(next_status(s, op)) >= status_rank(s),
        op is Hit && s is Cooldown ==> next_status(s, op) == Status::Active,
        (s is Archived || s is Superseded) && !(op is Archive) && !(op is Supersede)
            ==> next_status(s, op) == s,
        s is Candidate && next_status(s, op) != s ==> (op is Archive || op is Supersede),
{
}

/// Whole days from `from` to `to`, rounded toward zero (`TimeDelta::num_days`).
pub open spec fn whole_days_between(from: int, to: int) -> int {
    let d = to - from;
    if d >= 0 {
        d / 86_400_000
    } else {
        -((-d) / 86_400_000)
    }
}

/// The time of the last activity: the last hit, else the creation.
pub open spec fn last_activity(m: Memory) -> i64 {
    match m.last_hit_at {
        Some(t) => t,
        None => m.created_at,
    }
}

/// Whole days from `from` to `to`, rounded toward zero.
pub fn days_between(from: i64, to: i64) -> (d: i64)
    ensures
        d == whole_days_between(from as int, to as int),
{
    let diff: i128 = to as i128 - from as i128;
    let days: i128 = if diff >= 0 {
        diff / 86_400_000
    } else {
        -((-diff) / 86_400_000)
    };
    days as i64
}

impl Memory {
    /// The facts of a memory that its lifecycle never changes.
    pub open spec fn same_content(self, other: Memory) -> bool {
        &&& self.id == other.id
        &&& self.profile_id == other.profile_id
        &&& self.owner_id == other.owner_id
        &&& self.content == other.content
        &&& self.category == other.category
        &&& self.tags == other.tags
        &&& self.root_memory_id == other.root_memory_id
        &&& self.version_number == other.version_number
        &&& self.supersedes == other.supersedes
        &&& self.source_event_id == other.source_event_id
        &&& self.created_at == other.created_at
    }

    /// A first version: its own root, number one, current, linked to nothing,
    /// active, unused, with its embedding pending.
    pub open spec fn is_fresh_first_version(self) -> bool {
        &&& is_random_uuid(self.id)
        &&& self.root_memory_id == Some(self.id)
        &&& self.version_number == 1
        &&& self.is_current_version
        &&& self.supersedes is None
        &&& self.superseded_by is None
        &&& self.is_fresh_state()
    }

    /// The state every new memory starts in.
    pub open spec fn is_fresh_state(self) -> bool {
        &&& self.hit_count == 0
        &&& self.last_hit_at is None
        &&& self.reinforcement_count == 0
        &&& self.last_reinforced_at is None
        &&& self.decay_score_bits == ONE_BITS
        &&& self.status == Status::Active
        &&& self.embedding_status == EmbeddingStatus::Pending
        &&& self.conflict_reason is None
        &&& self.consistency_confidence_bits is None
        &&& self.promoted_at is None
        &&& self.promotion_reason is None
        &&& self.updated_at == self.created_at
    }

    /// A new memory from validated input (first version).
    pub fn new(input: CreateMemoryInput) -> (m: Memory)
        ensures
            m.is_fresh_first_version(),
            m.profile_id == input.profile_id,
            m.owner_id == input.owner_id,
            m.scope_id == input.scope_id,
            m.content == input.content,
            m.category == input.category,
            m.tags == input.tags,
            m.importance_bits == (match input.importance_bits {
                Some(b) => b,
                None => HALF_BITS,
            }),
            m.confidence_bits == (match input.confidence_bits {
                Some(b) => b,
                None => ONE_BITS,
            }),
            m.is_global == input.is_global,
            m.source_event_id is None,
            m.embedding_provider == input.embedding_provider,
            m.processing_status == (if input.process_with_llm {
                ProcessingStatus::Pending
            } else {
                ProcessingStatus::Skipped
            }),
            m.llm_provider == input.llm_provider,
            m.inference_type is None,
            m.inference_confidence_bits is None,
            m.inference_reasoning is None,
    {
        let now = now_millis();
        let id = new_uuid_v4();
        let processing_status = if input.process_with_llm {
            ProcessingStatus::Pending
        } else {
            ProcessingStatus::Skipped
        };
        let importance_bits = match input.importance_bits {
            Some(b) => b,
            None => HALF_BITS,
        };
        let confidence_bits = match input.confidence_bits {
            Some(b) => b,
            None => ONE_BITS,
        };
        Memory {
            id,
            profile_id: input.profile_id,
            owner_id: input.owner_id,
            scope_id: input.scope_id,
            content: input.content,
            category: input.category,
            tags: input.tags,
            importance_bits,
            confidence_bits,
            root_memory_id: Some(id),
            version_number: 1,
            is_current_version: true,
            supersedes: None,
            superseded_by: None,
            is_global: input.is_global,
            hit_count: 0,
            last_hit_at: None,
            reinforcement_count: 0,
            last_reinforced_at: None,
            decay_score_bits: ONE_BITS,
            source_event_id: None,
            status: Status::Active,
            embedding_status: EmbeddingStatus::Pending,
            embedding_provider: input.embedding_provider,
            processing_status,
            llm_provider: input.llm_provider,
            inference_type: None,
            inference_confidence_bits: None,
            inference_reasoning: None,
            conflict_reason: None,
            consistency_confidence_bits: None,
            promoted_at: None,
            promotion_reason: None,
            created_at: now,
            updated_at: now,
        }
    }

    /// A new memory extracted from an event (first version, not global,
    /// already processed by the LLM).
    pub fn new_from_event(input: CreateMemoryFromEventInput) -> (m: Memory)
        ensures
            m.is_fresh_first_version(),
            m.profile_id == input.profile_id,
            m.owner_id == input.owner_id,
            m.scope_id == input.scope_id,
            m.content == input.content,
            m.category == input.category,
            m.tags == input.tags,
            m.importance_bits == input.importance_bits,
            m.confidence_bits == input.confidence_bits,
            !m.is_global,
            m.source_event_id == Some(input.source_event_id),
            m.embedding_provider == input.embedding_provider,
            m.processing_status == ProcessingStatus::Completed,
            m.llm_provider == input.llm_provider,
            m.inference_type == Some(input.inference_type),
            m.inference_confidence_bits == Some(input.inference_confidence_bits),
            m.inference_reasoning == Some(input.inference_reasoning),
    {
        let now = now_millis();
        let id = new_uuid_v4();
        Memory {
            id,
            profile_id: input.profile_id,
            owner_id: input.owner_id,
            scope_id: input.scope_id,
            content: input.content,
            category: input.category,
            tags: input.tags,
            importance_bits: input.importance_bits,
            confidence_bits: input.confidence_bits,
            root_memory_id: Some(id),
            version_number: 1,
            is_current_version: true,
            supersedes: None,
            superseded_by: None,
            is_global: false,
            hit_count: 0,
            last_hit_at: None,
            reinforcement_count: 0,
            last_reinforced_at: None,
            decay_score_bits: ONE_BITS,
            source_event_id: Some(input.source_event_id),
            status: Status::Active,
            embedding_status: EmbeddingStatus::Pending,
            embedding_provider: input.embedding_provider,
            processing_status: ProcessingStatus::Completed,
            llm_provider: input.llm_provider,
            inference_type: Some(input.inference_type),
            inference_confidence_bits: Some(input.inference_confidence_bits),
            inference_reasoning: Some(input.inference_reasoning),
            conflict_reason: None,
            consistency_confidence_bits: None,
            promoted_at: None,
            promotion_reason: None,
            created_at: now,
            updated_at: now,
        }
    }

    /// A new version superseding `input.old_memory_id` in its chain.
    pub fn new_superseding(input: CreateSupersedingMemoryInput) -> (m: Memory)
        ensures
            is_random_uuid(m.id),
            m.is_fresh_state(),
            m.root_memory_id == Some(input.root_memory_id),
            m.version_number == input.version_number,
            m.is_current_version,
            m.supersedes == Some(input.old_memory_id),
            m.superseded_by is None,
            m.profile_id == input.profile_id,
            m.owner_id == input.owner_id,
            m.scope_id == input.scope_id,
            m.content == input.content,
            m.category == input.category,
            m.tags == input.tags,
            m.importance_bits == input.importance_bits,
            m.confidence_bits == input.confidence_bits,
            m.is_global == input.is_global,
            m.source_event_id == Some(input.source_event_id),
            m.embedding_provider == input.embedding_provider,
            m.processing_status == ProcessingStatus::Completed,
            m.llm_provider == input.llm_provider,
            m.inference_type == Some(input.inference_type),
            m.inference_confidence_bits == Some(input.inference_confidence_bits),
            m.inference_reasoning == Some(input.inference_reasoning),
    {
        let now = now_millis();
        let id = new_uuid_v4();
        Memory {
            id,
            profile_id: input.profile_id,
            owner_id: input.owner_id,
            scope_id: input.scope_id,
            content: input.content,
            category: input.category,
            tags: input.tags,
            importance_bits: input.importance_bits,
            confidence_bits: input.confidence_bits,
            root_memory_id: Some(input.root_memory_id),
            version_number: input.version_number,
            is_current_version: true,
            supersedes: Some(input.old_memory_id),
            superseded_by: None,
            is_global: input.is_global,
            hit_count: 0,
            last_hit_at: None,
            reinforcement_count: 0,
            last_reinforced_at: None,
            decay_score_bits: ONE_BITS,
            source_event_id: Some(input.source_event_id),
            status: Status::Active,
            embedding_status: EmbeddingStatus::Pending,
            embedding_provider: input.embedding_provider,
            processing_status: ProcessingStatus::Completed,
            llm_provider: input.llm_provider,
            inference_type: Some(input.inference_type),
            inference_confidence_bits: Some(input.inference_confidence_bits),
            inference_reasoning: Some(input.inference_reasoning),
            conflict_reason: None,
            consistency_confidence_bits: None,
            promoted_at: None,
            promotion_reason: None,
            created_at: now,
            updated_at: now,
        }
    }

    /// Marks this memory as superseded by a new version.
    pub fn mark_superseded(&mut self, superseded_by_id: u128)
        ensures
            final(self).same_content(*old(self)),
            final(self).superseded_by == Some(superseded_by_id),
            !final(self).is_current_version,
            final(self).status == next_status(old(self).status, LifecycleOp::Supersede),
            final(self).hit_count == old(self).hit_count,
            final(self).is_global == old(self).is_global,
            final(self).scope_id == old(self).scope_id,
    {
        self.superseded_by = Some(superseded_by_id);
        self.is_current_version = false;
        self.status = Status::Superseded;
        self.updated_at = now_millis();
    }

    /// The root of this memory's version chain: the recorded root, or the
    /// memory itself when it is the first version.
    pub open spec fn chain_root(self) -> u128 {
        match self.root_memory_id {
            Some(r) => r,
            None => self.id,
        }
    }

    /// Whether this memory may be superseded: it is the current version and
    /// not superseded yet.
    pub open spec fn can_be_superseded(self) -> bool {
        self.is_current_version && self.status != Status::Superseded
    }

    /// Refuses to supersede a memory that is no longer the current version.
    pub fn check_supersedable(&self) -> (r: Result<(), AppError>)
        ensures
            self.can_be_superseded() ==> r is Ok,
            !self.can_be_superseded() ==> (r matches Err(AppError::Validation(m)) && m@
                == "memory is no longer the current version and cannot be superseded"@),
    {
        if self.is_current_version && self.status != Status::Superseded {
            Ok(())
        } else {
            Err(
                AppError::Validation(
                    "memory is no longer the current version and cannot be superseded".to_owned(),
                ),
            )
        }
    }

    /// The version that supersedes this memory, made from a template: it
    /// stays in this memory's chain (same root, next version number, linked
    /// back to this memory), keeps its profile, owner, scope and global flag,
    /// is the current version, and records why and how confidently it
    /// superseded; everything else comes from the template.
    pub fn next_version(
        &self,
        template: Memory,
        conflict_reason: String,
        consistency_confidence_bits: u32,
    ) -> (m: Memory)
        requires
            self.version_number < i32::MAX,
        ensures
            m == (Memory {
                profile_id: self.profile_id,
                owner_id: self.owner_id,
                scope_id: self.scope_id,
                root_memory_id: Some(self.chain_root()),
                version_number: (self.version_number + 1) as i32,
                supersedes: Some(self.id),
                superseded_by: None,
                is_current_version: true,
                is_global: self.is_global,
                conflict_reason: Some(conflict_reason),
                consistency_confidence_bits: Some(consistency_confidence_bits),
                ..template
            }),
    {
        let root = match self.root_memory_id {
            Some(r) => r,
            None => self.id,
        };
        let scope_id = match &self.scope_id {
            Some(s) => Some(s.clone()),
            None => None,
        };
        Memory {
            profile_id: self.profile_id,
            owner_id: self.owner_id.clone(),
            scope_id,
            root_memory_id: Some(root),
            version_number: self.version_number + 1,
            supersedes: Some(self.id),
            superseded_by: None,
            is_current_version: true,
            is_global: self.is_global,
            conflict_reason: Some(conflict_reason),
            consistency_confidence_bits: Some(consistency_confidence_bits),
            ..template
        }
    }

    /// Records a retrieval hit: one more hit, the time of it, and a cooling
    /// memory becomes active again.
    pub fn record_hit(&mut self)
        requires
            old(self).hit_count < i64::MAX,
        ensures
            final(self).same_content(*old(self)),
            final(self).hit_count == old(self).hit_count + 1,
            final(self).last_hit_at is Some,
            final(self).status == next_status(old(self).status, LifecycleOp::Hit),
            final(self).is_current_version == old(self).is_current_version,
            final(self).superseded_by == old(self).superseded_by,
            final(self).reinforcement_count == old(self).reinforcement_count,
            final(self).last_reinforced_at == old(self).last_reinforced_at,
            final(self).confidence_bits == old(self).confidence_bits,
            final(self).is_global == old(self).is_global,
            final(self).scope_id == old(self).scope_id,
    {
        self.hit_count = self.hit_count + 1;
        self.last_hit_at = Some(now_millis());
        self.updated_at = now_millis();
        if self.status == Status::Cooldown {
            self.status = Status::Active;
        }
    }

    /// Records a reinforcement whose new confidence has already been
    /// computed: the confidence is replaced, the reinforcement is counted
    /// and timed, and the reinforcement counts as a hit.
    pub fn record_reinforcement(&mut self, new_confidence_bits: u32)
        requires
            old(self).hit_count < i64::MAX,
            old(self).reinforcement_count < i64::MAX,
        ensures
            final(self).same_content(*old(self)),
            final(self).confidence_bits == new_confidence_bits,
            final(self).reinforcement_count == old(self).reinforcement_count + 1,
            final(self).last_reinforced_at is Some,
            final(self).hit_count == old(self).hit_count + 1,
            final(self).last_hit_at is Some,
            final(self).status == next_status(old(self).status, LifecycleOp::Hit),
    {
        self.confidence_bits = new_confidence_bits;
        self.reinforcement_count = self.reinforcement_count + 1;
        self.last_reinforced_at = Some(now_millis());
        self.record_hit();
    }

    /// Records conflict metadata for a superseding memory.
    pub fn record_conflict(&mut self, reason: String, confidence_bits: u32)
        ensures
            final(self).same_content(*old(self)),
            final(self).conflict_reason == Some(reason),
            final(self).consistency_confidence_bits == Some(confidence_bits),
            final(self).status == old(self).status,
    {
        self.conflict_reason = Some(reason);
        self.consistency_confidence_bits = Some(confidence_bits);
        self.updated_at = now_millis();
    }

    /// Promotes this memory to global: it leaves its scope.
    pub fn promote_to_global(&mut self, reason: &str)
        ensures
            final(self).same_content(*old(self)),
            final(self).is_global,
            final(self).scope_id is None,
            final(self).promoted_at is Some,
            final(self).promotion_reason matches Some(r) && r@ == reason@,
            final(self).status == old(self).status,
    {
        self.is_global = true;
        self.scope_id = None;
        self.promoted_at = Some(now_millis());
        self.promotion_reason = Some(reason.to_owned());
        self.updated_at = now_millis();
    }

    /// Promotes this memory unless it is global already: a global memory is
    /// left exactly as it was and `true` is returned; any other memory is
    /// promoted with the reason and `false` is returned.
    pub fn promote_unless_global(&mut self, reason: &str) -> (was_already_global: bool)
        ensures
            was_already_global == old(self).is_global,
            old(self).is_global ==> *final(self) == *old(self),
            !old(self).is_global ==> {
                &&& final(self).same_content(*old(self))
                &&& final(self).is_global
                &&& final(self).scope_id is None
                &&& final(self).promoted_at is Some
                &&& final(self).promotion_reason matches Some(r) && r@ == reason@
                &&& final(self).status == old(self).status
            },
    {
        if self.is_global {
            true
        } else {
            self.promote_to_global(reason);
            false
        }
    }

    /// An active memory cools down; other statuses stay.
    pub fn transition_to_cooldown(&mut self)
        ensures
            final(self).same_content(*old(self)),
            final(self).status == next_status(old(self).status, LifecycleOp::Cooldown),
            final(self).hit_count == old(self).hit_count,
    {
        if self.status == Status::Active {
            self.status = Status::Cooldown;
            self.updated_at = now_millis();
        }
    }

    /// A cooling memory becomes an eviction candidate; other statuses stay.
    pub fn transition_to_candidate(&mut self)
        ensures
            final(self).same_content(*old(self)),
            final(self).status == next_status(old(self).status, LifecycleOp::Candidate),
            final(self).hit_count == old(self).hit_count,
    {
        if self.status == Status::Cooldown {
            self.status = Status::Candidate;
            self.updated_at = now_millis();
        }
    }

    /// Archives this memory (soft delete).
    pub fn archive(&mut self)
        ensures
            final(self).same_content(*old(self)),
            final(self).status == next_status(old(self).status, LifecycleOp::Archive),
            final(self).hit_count == old(self).hit_count,
    {
        self.status = Status::Archived;
        self.updated_at = now_millis();
    }

    /// Replaces the decay score.
    pub fn update_decay_score(&mut self, new_score_bits: u32)
        ensures
            final(self).same_content(*old(self)),
            final(self).decay_score_bits == new_score_bits,
            final(self).status == old(self).status,
    {
        self.decay_score_bits = new_score_bits;
        self.updated_at = now_millis();
    }

    /// Whether the memory is in `status` and its last activity lies more
    /// than `threshold_days` whole days before `now`.
    pub open spec fn inactive_in(self, status: Status, threshold_days: i64, now: i64) -> bool {
        self.status == status && whole_days_between(last_activity(self) as int, now as int)
            > threshold_days
    }

    fn inactive_since(&self, status: Status, threshold_days: i64, now: i64) -> (r: bool)
        ensures
            r == self.inactive_in(status, threshold_days, now),
    {
        if self.status != status {
            return false;
        }
        let last = match self.last_hit_at {
            Some(t) => t,
            None => self.created_at,
        };
        days_between(last, now) > threshold_days
    }

    /// At time `now`, whether this active memory should cool down.
    pub fn should_cooldown_at(&self, threshold_days: i64, now: i64) -> (r: bool)
        ensures
            r == self.inactive_in(Status::Active, threshold_days, now),
    {
        self.inactive_since(Status::Active, threshold_days, now)
    }

    /// At time `now`, whether this cooling memory should become a candidate.
    pub fn should_become_candidate_at(&self, threshold_days: i64, now: i64) -> (r: bool)
        ensures
            r == self.inactive_in(Status::Cooldown, threshold_days, now),
    {
        self.inactive_since(Status::Cooldown, threshold_days, now)
    }

    /// At time `now`, whether this candidate should be archived.
    pub fn should_archive_at(&self, threshold_days: i64, now: i64) -> (r: bool)
        ensures
            r == self.inactive_in(Status::Candidate, threshold_days, now),
    {
        self.inactive_since(Status::Candidate, threshold_days, now)
    }

    /// Whether this memory should cool down now; the answer is that of
    /// `should_cooldown_at` for the time the clock gives, so only a memory
    /// that is active can get `true`.
    pub fn should_cooldown(&self, threshold_days: i64) -> (r: bool)
        ensures
            r ==> self.status == Status::Active,
            exists|t: i64| r == #[trigger] self.inactive_in(Status::Active, threshold_days, t),
    {
        let now = now_millis();
        let r = self.should_cooldown_at(threshold_days, now);
        assert(r == self.inactive_in(Status::Active, threshold_days, now));
        r
    }

    /// Whether this memory should become a candidate now; only a cooling
    /// memory can get `true`.
    pub fn should_become_candidate(&self, threshold_days: i64) -> (r: bool)
        ensures
            r ==> self.status == Status::Cooldown,
            exists|t: i64| r == #[trigger] self.inactive_in(Status::Cooldown, threshold_days, t),
    {
        let now = now_millis();
        let r = self.should_become_candidate_at(threshold_days, now);
        assert(r == self.inactive_in(Status::Cooldown, threshold_days, now));
        r
    }

    /// Whether this memory should be archived now; only a candidate can get
    /// `true`.
    pub fn should_archive(&self, threshold_days: i64) -> (r: bool)
        ensures
            r ==> self.status == Status::Candidate,
            exists|t: i64| r == #[trigger] self.inactive_in(Status::Candidate, threshold_days, t),
    {
        let now = now_millis();
        let r = self.should_archive_at(threshold_days, now);
        assert(r == self.inactive_in(Status::Candidate, threshold_days, now));
        r
    }
}

/// Inactivity only grows with time: a memory that should move on at some
/// time should still move on at any later time, and a longer threshold is
/// never met before a shorter one.
pub proof fn inactivity_is_monotone(m: Memory, s: Status, t1: i64, t2: i64, k1: i64, k2: i64)
    requires
        t1 <= t2,
        k2 <= k1,
        m.inactive_in(s, k1, t1),
    ensures
        m.inactive_in(s, k2, t2),
{
    let a = last_activity(m) as int;
    let d1 = t1 - a;
    let d2 = t2 - a;
    if d1 >= 0 {
        assert(d1 / 86_400_000 <= d2 / 86_400_000) by (nonlinear_arith)
            requires
                0 <= d1 <= d2,
        ;
    } else if d2 >= 0 {
    } else {
        assert((-d2) / 86_400_000 <= (-d1) / 86_400_000) by (nonlinear_arith)
            requires
                0 <= -d2 <= -d1,
        ;
    }
}

/// The inactivity clock starts at the last hit when there is one, and at
/// creation otherwise: a memory whose last hit (or, never hit, whose
/// creation) lies less than `k + 1` full days before `now` is never due to
/// move on with threshold `k`, and one in the status whose last hit (or
/// creation) lies at least `k + 1` full days back is.
pub proof fn inactivity_counts_from_last_activity(m: Memory, s: Status, k: i64, now: i64)
    requires
        k >= 0,
    ensures
        (m.last_hit_at matches Some(h) && now - h < (k + 1) * 86_400_000) ==> !m.inactive_in(
            s,
            k,
            now,
        ),
        (m.last_hit_at is None && now - m.created_at < (k + 1) * 86_400_000) ==> !m.inactive_in(
            s,
            k,
            now,
        ),
        (m.last_hit_at matches Some(h) && now - h >= (k + 1) * 86_400_000) ==> (m.status == s
            ==> m.inactive_in(s, k, now)),
        (m.status == s && m.last_hit_at is None && now - m.created_at >= (k + 1) * 86_400_000)
            ==> m.inactive_in(s, k, now),
{
    let a = last_activity(m) as int;
    let d = now - a;
    let kk = k as int;
    if d >= 0 {
        if d < (kk + 1) * 86_400_000 {
            assert(d / 86_400_000 <= kk) by (nonlinear_arith)
                requires
                    0 <= d < (kk + 1) * 86_400_000,
                    kk >= 0,
            ;
        } else {
            assert(d / 86_400_000 >= kk + 1) by (nonlinear_arith)
                requires
                    d >= (kk + 1) * 86_400_000,
                    kk >= 0,
            ;
        }
    } else {
        assert((-d) / 86_400_000 >= 0) by (nonlinear_arith)
            requires
                -d > 0,
        ;
    }
}

} // verus!
