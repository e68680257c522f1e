//! The decisions of the retrieval endpoints around the search itself: the
//! request handed to the retrieval engine, whether vector search runs and is
//! kept, the similarities passed on, the trace reported, and the response of
//! an automatic retrieval.
use vstd::prelude::*;
use crate::json::JsonValue;
use crate::retrieval::{
    format_records_as_markdown, number_records, parsed_intent, records_markdown,
    spec_parsed_intent, MarkdownRecord, RetrievalTraceResponse,
};
use crate::vector::ScoredId;

verus! {

/// Advanced retrieval controls; thresholds and weights are held by the bits
/// of their `f32` values.
#[derive(Debug, Clone)]
pub struct RetrieveOptions {
    pub min_score_bits: Option<u32>,
    pub min_confidence_bits: Option<u32>,
    /// Whether to use full-text search (default: true)
    pub use_fulltext: Option<bool>,
    /// Whether to use vector search (default: true)
    pub use_vector: Option<bool>,
    pub fulltext_weight_bits: Option<u32>,
    /// Whether to return highlighted snippets (default: false)
    pub highlight: Option<bool>,
    pub include_evidence: Option<bool>,
    pub include_history: Option<bool>,
}

impl Default for RetrieveOptions {
    fn default() -> (o: Self)
        ensures
            o.min_score_bits is None,
            o.min_confidence_bits is None,
            o.use_fulltext is None,
            o.use_vector is None,
            o.fulltext_weight_bits is None,
            o.highlight is None,
            o.include_evidence is None,
            o.include_history is None,
    {
        RetrieveOptions {
            min_score_bits: None,
            min_confidence_bits: None,
            use_fulltext: None,
            use_vector: None,
            fulltext_weight_bits: None,
            highlight: None,
            include_evidence: None,
            include_history: None,
        }
    }
}

/// Request body for memory retrieval.
#[derive(Debug, Clone)]
pub struct RetrieveApiRequest {
    pub query: String,
    pub owner_id: String,
    /// Filter by scope ID; none means global memories only
    pub scope_id: Option<String>,
    /// Maximum number of results (default: 10)
    pub top_k: Option<usize>,
    pub options: RetrieveOptions,
}

/// What the retrieval engine is asked.
#[derive(Debug, Clone)]
pub struct RetrieveRequest {
    pub profile_id: u128,
    pub query: String,
    pub owner_id: String,
    pub scope_id: Option<String>,
    pub top_k: Option<usize>,
    pub min_score_bits: Option<u32>,
    pub min_confidence_bits: Option<u32>,
    pub use_fulltext: Option<bool>,
    pub use_vector: Option<bool>,
    pub fulltext_weight_bits: Option<u32>,
    pub highlight: Option<bool>,
    pub include_evidence: Option<bool>,
    pub include_history: Option<bool>,
}

impl RetrieveApiRequest {
    /// The engine request for this body in a profile: every field and option
    /// passed on as given.
    pub fn into_service_request(self, profile_id: u128) -> (r: RetrieveRequest)
        ensures
            r.profile_id == profile_id,
            r.query == self.query,
            r.owner_id == self.owner_id,
            r.scope_id == self.scope_id,
            r.top_k == self.top_k,
            r.min_score_bits == self.options.min_score_bits,
            r.min_confidence_bits == self.options.min_confidence_bits,
            r.use_fulltext == self.options.use_fulltext,
            r.use_vector == self.options.use_vector,
            r.fulltext_weight_bits == self.options.fulltext_weight_bits,
            r.highlight == self.options.highlight,
            r.include_evidence == self.options.include_evidence,
            r.include_history == self.options.include_history,
    {
        let options = self.options;
        RetrieveRequest {
            profile_id,
            query: self.query,
            owner_id: self.owner_id,
            scope_id: self.scope_id,
            top_k: self.top_k,
            min_score_bits: options.min_score_bits,
            min_confidence_bits: options.min_confidence_bits,
            use_fulltext: options.use_fulltext,
            use_vector: options.use_vector,
            fulltext_weight_bits: options.fulltext_weight_bits,
            highlight: options.highlight,
            include_evidence: options.include_evidence,
            include_history: options.include_history,
        }
    }

    /// Whether the query is embedded and vector search tried: unless the
    /// caller turned it off.
    pub fn wants_vector_search(&self) -> (r: bool)
        ensures
            r == (self.options.use_vector != Some(false)),
    {
        match self.options.use_vector {
            Some(b) => b,
            None => true,
        }
    }

    /// Whether full-text search takes part: unless the caller turned it off.
    pub fn uses_fulltext(&self) -> (r: bool)
        ensures
            r == (self.options.use_fulltext != Some(false)),
    {
        match self.options.use_fulltext {
            Some(b) => b,
            None => true,
        }
    }
}

/// The engine request once the vector search is over: with no hits (the
/// search was off, failed, or found nothing) vector search is turned off;
/// otherwise the request stays as it was.
pub fn after_vector_search(request: RetrieveRequest, hit_count: usize) -> (r: RetrieveRequest)
    ensures
        hit_count == 0 ==> r == (RetrieveRequest { use_vector: Some(false), ..request }),
        hit_count > 0 ==> r == request,
{
    if hit_count == 0 {
        RetrieveRequest { use_vector: Some(false), ..request }
    } else {
        request
    }
}

/// How the vector search of a retrieval went.
#[derive(Debug)]
pub enum VectorSearchOutcome {
    /// Vector search was not asked for
    Skipped,
    /// The query could not be embedded
    EmbeddingFailed,
    /// The search in the vector store failed
    SearchFailed,
    /// The search gave these hits
    Found(Vec<ScoredId>),
}

/// The hits a vector search contributes: a skipped search, a failed
/// embedding and a failed search all count as no hits and fail nothing.
pub fn vector_hits(outcome: VectorSearchOutcome) -> (r: Vec<ScoredId>)
    ensures
        match outcome {
            VectorSearchOutcome::Found(h) => r == h,
            _ => r@.len() == 0,
        },
{
    match outcome {
        VectorSearchOutcome::Found(h) => h,
        _ => Vec::new(),
    }
}

/// The similarities handed to the engine: the hits, or none when there are
/// no hits.
pub fn similarities(hits: Vec<ScoredId>) -> (r: Option<Vec<ScoredId>>)
    ensures
        hits@.len() == 0 ==> r is None,
        hits@.len() > 0 ==> r == Some(hits),
{
    if hits.len() == 0 {
        None
    } else {
        Some(hits)
    }
}

impl RetrievalTraceResponse {
    /// The trace of a retrieval: vector search counts as used when it gave
    /// hits, full-text search as the request asked, the structured count is
    /// the engine's candidates and the final count what was returned.
    pub fn for_retrieve(
        request: &RetrieveApiRequest,
        vector_hits: usize,
        total_candidates: usize,
        final_result_count: usize,
    ) -> (t: RetrievalTraceResponse)
        ensures
            t.query == request.query,
            t.used_vector == (vector_hits > 0),
            t.used_fulltext == (request.options.use_fulltext != Some(false)),
            t.scope_id == request.scope_id,
            t.vector_candidate_count == vector_hits,
            t.structured_candidate_count == total_candidates,
            t.final_result_count == final_result_count,
    {
        RetrievalTraceResponse {
            query: request.query.clone(),
            used_vector: vector_hits > 0,
            used_fulltext: request.uses_fulltext(),
            scope_id: request.scope_id.clone(),
            vector_candidate_count: vector_hits,
            structured_candidate_count: total_candidates,
            final_result_count,
        }
    }

    /// The trace of an automatic retrieval: full-text search is always used.
    pub fn for_auto_retrieve(
        request: &AutoRetrieveApiRequest,
        vector_hits: usize,
        total_candidates: usize,
        final_result_count: usize,
    ) -> (t: RetrievalTraceResponse)
        ensures
            t.query == request.query,
            t.used_vector == (vector_hits > 0),
            t.used_fulltext,
            t.scope_id == request.scope_id,
            t.vector_candidate_count == vector_hits,
            t.structured_candidate_count == total_candidates,
            t.final_result_count == final_result_count,
    {
        RetrievalTraceResponse {
            query: request.query.clone(),
            used_vector: vector_hits > 0,
            used_fulltext: true,
            scope_id: request.scope_id.clone(),
            vector_candidate_count: vector_hits,
            structured_candidate_count: total_candidates,
            final_result_count,
        }
    }
}

/// Request body for automatic retrieval; the threshold is held by its bits.
#[derive(Debug, Clone)]
pub struct AutoRetrieveApiRequest {
    pub query: String,
    pub owner_id: String,
    /// Optional context to help understand the query
    pub context: Option<String>,
    pub scope_id: Option<String>,
    pub top_k: Option<usize>,
    pub min_score_bits: Option<u32>,
}

impl AutoRetrieveApiRequest {
    /// The engine request of an automatic retrieval: vector search exactly
    /// when the vector search gave hits, full-text search and highlights on,
    /// no confidence threshold, weight, evidence or history.
    pub fn into_service_request(&self, profile_id: u128, vector_hits: usize) -> (r: RetrieveRequest)
        ensures
            r.profile_id == profile_id,
            r.query == self.query,
            r.owner_id == self.owner_id,
            r.scope_id == self.scope_id,
            r.top_k == self.top_k,
            r.min_score_bits == self.min_score_bits,
            r.min_confidence_bits is None,
            r.use_fulltext == Some(true),
            r.use_vector == Some(vector_hits > 0),
            r.fulltext_weight_bits is None,
            r.highlight == Some(true),
            r.include_evidence is None,
            r.include_history is None,
    {
        RetrieveRequest {
            profile_id,
            query: self.query.clone(),
            owner_id: self.owner_id.clone(),
            scope_id: self.scope_id.clone(),
            top_k: self.top_k,
            min_score_bits: self.min_score_bits,
            min_confidence_bits: None,
            use_fulltext: Some(true),
            use_vector: Some(vector_hits > 0),
            fulltext_weight_bits: None,
            highlight: Some(true),
            include_evidence: None,
            include_history: None,
        }
    }
}

/// The response of an automatic retrieval.
#[derive(Debug)]
pub struct AutoRetrieveApiResponse {
    /// What the query was understood as
    pub parsed_intent: String,
    pub records: Vec<MarkdownRecord>,
    pub total_candidates: usize,
    pub trace: RetrievalTraceResponse,
    /// The records as markdown
    pub markdown: String,
}

/// Builds the response of an automatic retrieval from the retrieved
/// memories, one entry each (creation time, metadata, content, score text)
/// in the engine's order: the records numbered from 1, their markdown, the
/// engine's candidate count, the parsed intent and the trace.
pub fn auto_retrieve_response(
    request: &AutoRetrieveApiRequest,
    entries: &Vec<(i64, JsonValue, String, String)>,
    vector_hits: usize,
    total_candidates: usize,
) -> (r: AutoRetrieveApiResponse)
    ensures
        r.parsed_intent@ == spec_parsed_intent(request.query@, request.context),
        r.records@.len() == entries@.len(),
        forall|i: int|
            0 <= i < r.records@.len() ==> {
                &&& (#[trigger] r.records@[i]).record == i + 1
                &&& r.records@[i].time_millis == entries@[i].0
                &&& r.records@[i].metadata.model() == entries@[i].1.model()
                &&& r.records@[i].infer@ == entries@[i].2@
                &&& r.records@[i].score_text@ == entries@[i].3@
            },
        r.markdown@ == records_markdown(r.records@),
        r.total_candidates == total_candidates,
        r.trace.query == request.query,
        r.trace.used_vector == (vector_hits > 0),
        r.trace.used_fulltext,
        r.trace.scope_id == request.scope_id,
        r.trace.vector_candidate_count == vector_hits,
        r.trace.structured_candidate_count == total_candidates,
        r.trace.final_result_count == entries@.len(),
{
    let records = number_records(entries);
    let markdown = format_records_as_markdown(&records);
    let intent = parsed_intent(request.query.as_str(), &request.context);
    let trace = RetrievalTraceResponse::for_auto_retrieve(
        request,
        vector_hits,
        total_candidates,
        entries.len(),
    );
    AutoRetrieveApiResponse { parsed_intent: intent, records, total_candidates, trace, markdown }
}

} // verus!
