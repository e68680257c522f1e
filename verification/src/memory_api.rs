//! The decisions of the memory endpoints: requests turned into inputs, the
//! outcome of embedding a new memory, version histories and promotion.
use vstd::prelude::*;
use crate::ids::now_millis;
use crate::memory::{CreateMemoryInput, Memory};
use crate::status::EmbeddingStatus;
use crate::vector::VectorPayload;

verus! {

/// Request body to create a memory directly; scores are held by the bits of
/// their `f32` values.
#[derive(Debug, Clone)]
pub struct CreateMemoryApiRequest {
    pub owner_id: String,
    pub scope_id: Option<String>,
    pub content: String,
    pub category: Option<String>,
    pub tags: Option<Vec<String>>,
    pub importance_bits: Option<u32>,
    pub confidence_bits: Option<u32>,
    pub is_global: bool,
    pub embedding_provider: Option<String>,
}

impl CreateMemoryApiRequest {
    /// The creation input for this body in a profile; a memory created
    /// directly is never processed by an LLM.
    pub fn into_input(self, profile_id: u128) -> (i: CreateMemoryInput)
        ensures
            i.profile_id == profile_id,
            i.owner_id == self.owner_id,
            i.scope_id == self.scope_id,
            i.content == self.content,
            i.category == self.category,
            i.tags == self.tags,
            i.importance_bits == self.importance_bits,
            i.confidence_bits == self.confidence_bits,
            i.is_global == self.is_global,
            i.embedding_provider == self.embedding_provider,
            !i.process_with_llm,
            i.llm_provider is None,
    {
        CreateMemoryInput {
            profile_id,
            owner_id: self.owner_id,
            scope_id: self.scope_id,
            content: self.content,
            category: self.category,
            tags: self.tags,
            importance_bits: self.importance_bits,
            confidence_bits: self.confidence_bits,
            is_global: self.is_global,
            embedding_provider: self.embedding_provider,
            process_with_llm: false,
            llm_provider: None,
        }
    }
}

/// The payload stored with a memory's vector.
pub fn vector_payload(memory: &Memory) -> (p: VectorPayload)
    ensures
        p.profile_id == memory.profile_id,
        p.owner_id == memory.owner_id,
        p.memory_id == memory.id,
        p.scope_id == memory.scope_id,
        p.category == memory.category,
        p.is_global == memory.is_global,
        p.status@ == memory.status.spec_name(),
{
    VectorPayload {
        profile_id: memory.profile_id,
        owner_id: memory.owner_id.clone(),
        memory_id: memory.id,
        scope_id: memory.scope_id.clone(),
        category: memory.category.clone(),
        is_global: memory.is_global,
        status: memory.status.to_string(),
    }
}

/// Records how embedding a new memory went: with the provider that stored
/// its vector it is completed, otherwise it failed; nothing else changes.
pub fn apply_embedding_outcome(memory: &mut Memory, stored_by: Option<String>)
    ensures
        final(memory).id == old(memory).id,
        final(memory).content == old(memory).content,
        final(memory).status == old(memory).status,
        final(memory).processing_status == old(memory).processing_status,
        match stored_by {
            Some(p) => final(memory).embedding_status == EmbeddingStatus::Completed
                && final(memory).embedding_provider == Some(p),
            None => final(memory).embedding_status == EmbeddingStatus::Failed
                && final(memory).embedding_provider == old(memory).embedding_provider,
        },
{
    match stored_by {
        Some(p) => {
            memory.embedding_status = EmbeddingStatus::Completed;
            memory.embedding_provider = Some(p);
        },
        None => {
            memory.embedding_status = EmbeddingStatus::Failed;
        },
    }
}

/// The root of a memory's version chain: the recorded root, else itself.
pub fn history_root_id(memory: &Memory) -> (r: u128)
    ensures
        r == (match memory.root_memory_id {
            Some(root) => root,
            None => memory.id,
        }),
{
    match memory.root_memory_id {
        Some(root) => root,
        None => memory.id,
    }
}

/// The id of the first version marked current, if any.
pub open spec fn spec_current_version_id(versions: Seq<Memory>) -> Option<u128>
    decreases versions.len(),
{
    if versions.len() == 0 {
        None
    } else if versions[0].is_current_version {
        Some(versions[0].id)
    } else {
        spec_current_version_id(versions.drop_first())
    }
}

/// The id of the current version among a chain's versions.
pub fn current_version_id(versions: &Vec<Memory>) -> (r: Option<u128>)
    ensures
        r == spec_current_version_id(versions@),
{
    let mut i: usize = 0;
    assert(versions@.skip(0) =~= versions@);
    while i < versions.len()
        invariant
            i <= versions.len(),
            spec_current_version_id(versions@) == spec_current_version_id(versions@.skip(i as int)),
        decreases versions.len() - i,
    {
        assert(versions@.skip(i as int).drop_first() =~= versions@.skip(i as int + 1));
        if versions[i].is_current_version {
            return Some(versions[i].id);
        }
        i += 1;
    }
    assert(versions@.skip(i as int).len() == 0);
    None
}

/// Request body for promoting a memory to global status.
#[derive(Debug, Clone)]
pub struct PromoteMemoryRequest {
    /// Reason for promotion (kept for the audit trail)
    pub reason: String,
}

/// The promotion time answered for a memory: when it was promoted, else now.
pub fn promotion_time(memory: &Memory) -> (t: i64)
    ensures
        memory.promoted_at matches Some(p) ==> t == p,
{
    match memory.promoted_at {
        Some(p) => p,
        None => now_millis(),
    }
}

} // verus!
