//! Retrieval results: collapsing matches onto the current version of their
//! memory, lineage sources, the requests a retrieval makes and the trace
//! and text it answers with.
//!
//! Scores are held by the order keys of their `f32` values (see `ranking`).
use vstd::prelude::*;
use crate::event::Event;
use crate::ids::{format_utc_time, utc_time_text, uuid_text, uuid_to_string};
use crate::json::{clone_json, push_json_text, serde_json_text, JsonValue};
use crate::text::{chars_of, decimal, push_decimal, push_str, trim_end, trimmed_end};
use crate::vector::VectorFilter;
use crate::memory::Memory;
use crate::ranking::{rank_desc, rank_desc_is_stable, sort_by_rank_desc, with_rank, Ranked};

verus! {

/// The events that created or reinforced a memory.
#[derive(Debug)]
pub struct Evidence {
    pub events: Vec<Event>,
    pub total_count: usize,
}

/// The versions of a memory.
#[derive(Debug)]
pub struct MemoryHistory {
    /// All versions (ordered by version number)
    pub versions: Vec<Memory>,
    /// The current (latest) version's id
    pub current_version_id: Option<u128>,
}

/// A retrieved memory with the order keys of its scores.
#[derive(Debug)]
pub struct RetrievedMemory {
    pub memory: Memory,
    /// Composite score
    pub score_key: u32,
    /// Vector similarity
    pub similarity_key: u32,
    /// Full-text match score, when full-text search was used
    pub text_match_key: Option<u32>,
    pub highlights: Option<Vec<String>>,
    pub evidence: Option<Evidence>,
    pub history: Option<MemoryHistory>,
}

/// Where a matched memory's lineage leads: the matched memory, its current
/// version, and the path between them (both ends included).
#[derive(Debug)]
pub struct CurrentMemoryResolution {
    pub requested_memory: Memory,
    pub current_memory: Memory,
    pub lineage_to_current: Vec<Memory>,
}

/// A lineage path from one matched memory to the current one, by ids.
#[derive(Debug, Clone)]
pub struct LineageSource {
    /// The matched memory before the collapse
    pub source_memory_id: u128,
    /// The path from the matched memory to the current one, both included
    pub lineage_to_current: Vec<u128>,
}

/// A lineage path as the API answers it, ids as text.
#[derive(Debug, Clone)]
pub struct LineageSourceResponse {
    pub source_memory_id: String,
    pub lineage_to_current: Vec<String>,
}

/// A current memory with the matches collapsed onto it.
#[derive(Debug)]
pub struct CollapsedRetrievedMemory {
    pub retrieved: RetrievedMemory,
    pub merged_lineage_sources: Vec<LineageSource>,
}

impl Ranked for CollapsedRetrievedMemory {
    open spec fn rank(&self) -> u32 {
        self.retrieved.score_key
    }

    fn rank_key(&self) -> (k: u32) {
        self.retrieved.score_key
    }
}

/// The ids of a lineage.
pub open spec fn lineage_ids(ms: Seq<Memory>) -> Seq<u128> {
    Seq::new(ms.len(), |i: int| ms[i].id)
}

/// A lineage source by its model: the matched id and the path's ids.
pub open spec fn source_of(res: CurrentMemoryResolution) -> (u128, Seq<u128>) {
    (res.requested_memory.id, lineage_ids(res.lineage_to_current@))
}

/// The model of a lineage source.
pub open spec fn source_model(s: LineageSource) -> (u128, Seq<u128>) {
    (s.source_memory_id, s.lineage_to_current@)
}

/// The lineage source of a resolution.
pub fn lineage_source(res: &CurrentMemoryResolution) -> (s: LineageSource)
    ensures
        source_model(s) == source_of(*res),
{
    let mut ids: Vec<u128> = Vec::new();
    let mut i: usize = 0;
    while i < res.lineage_to_current.len()
        invariant
            i <= res.lineage_to_current.len(),
            ids@ == lineage_ids(res.lineage_to_current@.take(i as int)),
        decreases res.lineage_to_current.len() - i,
    {
        ids.push(res.lineage_to_current[i].id);
        i += 1;
        assert(ids@ =~= lineage_ids(res.lineage_to_current@.take(i as int)));
    }
    assert(res.lineage_to_current@.take(i as int) =~= res.lineage_to_current@);
    LineageSource { source_memory_id: res.requested_memory.id, lineage_to_current: ids }
}

/// The lineage source of a resolution, ids as text.
pub fn lineage_source_response(res: &CurrentMemoryResolution) -> (r: LineageSourceResponse)
    ensures
        r.source_memory_id@ == uuid_text(res.requested_memory.id),
        r.lineage_to_current@.len() == res.lineage_to_current@.len(),
        forall|i: int|
            0 <= i < r.lineage_to_current@.len() ==> (#[trigger] r.lineage_to_current@[i])@
                == uuid_text(res.lineage_to_current@[i].id),
{
    let mut ids: Vec<String> = Vec::new();
    let mut i: usize = 0;
    while i < res.lineage_to_current.len()
        invariant
            i <= res.lineage_to_current.len(),
            ids@.len() == i,
            forall|k: int| 0 <= k < i ==> (#[trigger] ids@[k])@ == uuid_text(res.lineage_to_current@[k].id),
        decreases res.lineage_to_current.len() - i,
    {
        ids.push(uuid_to_string(res.lineage_to_current[i].id));
        i += 1;
    }
    LineageSourceResponse {
        source_memory_id: uuid_to_string(res.requested_memory.id),
        lineage_to_current: ids,
    }
}

/// The history answered for a collapsed memory: its own when it has one,
/// else the lineage up to the current memory.
pub open spec fn merged_history(h: Option<MemoryHistory>, lineage: Vec<Memory>, current_id: u128) -> Option<MemoryHistory> {
    match h {
        Some(h) => Some(h),
        None => Some(MemoryHistory { versions: lineage, current_version_id: Some(current_id) }),
    }
}

/// The history of a memory, completed from its lineage to the current
/// memory when it has none.
pub fn merge_history_with_lineage(
    history: Option<MemoryHistory>,
    lineage_to_current: Vec<Memory>,
    current_id: u128,
) -> (r: Option<MemoryHistory>)
    ensures
        r == merged_history(history, lineage_to_current, current_id),
{
    match history {
        Some(h) => Some(h),
        None => Some(MemoryHistory { versions: lineage_to_current, current_version_id: Some(current_id) }),
    }
}

/// The larger of two optional keys; absent ones are skipped.
pub open spec fn max_opt(a: Option<u32>, b: Option<u32>) -> Option<u32> {
    match (a, b) {
        (Some(x), Some(y)) => Some(if x >= y { x } else { y }),
        (Some(x), None) => Some(x),
        (None, Some(y)) => Some(y),
        (None, None) => None,
    }
}

/// The larger of two optional keys; absent ones are skipped.
pub fn max_option_key(a: Option<u32>, b: Option<u32>) -> (r: Option<u32>)
    ensures
        r == max_opt(a, b),
{
    match (a, b) {
        (Some(x), Some(y)) => Some(if x >= y { x } else { y }),
        (Some(x), None) => Some(x),
        (None, Some(y)) => Some(y),
        (None, None) => None,
    }
}

/// A collapsed memory by its model.
pub struct CollapsedModel {
    pub retrieved: RetrievedMemory,
    pub sources: Seq<(u128, Seq<u128>)>,
}

/// The model of a collapsed memory.
pub open spec fn collapsed_model(c: CollapsedRetrievedMemory) -> CollapsedModel {
    CollapsedModel {
        retrieved: c.retrieved,
        sources: Seq::new(
            c.merged_lineage_sources@.len(),
            |i: int| source_model(c.merged_lineage_sources@[i]),
        ),
    }
}

/// The models of collapsed memories.
pub open spec fn collapsed_models(cs: Seq<CollapsedRetrievedMemory>) -> Seq<CollapsedModel> {
    Seq::new(cs.len(), |i: int| collapsed_model(cs[i]))
}

/// The first collapsed memory that a match resolves onto.
pub open spec fn group_of(gs: Seq<CollapsedModel>, current_id: u128) -> int {
    if exists|k: int| 0 <= k < gs.len() && gs[k].retrieved.memory.id == current_id {
        choose|k: int|
            0 <= k < gs.len() && gs[k].retrieved.memory.id == current_id && forall|m: int|
                0 <= m < k ==> gs[m].retrieved.memory.id != current_id
    } else {
        -1
    }
}

/// A new collapsed memory for a match: the match, shown as its current
/// memory, with its history completed and its own lineage as its source.
pub open spec fn new_group(r: RetrievedMemory, res: CurrentMemoryResolution) -> CollapsedModel {
    CollapsedModel {
        retrieved: RetrievedMemory {
            memory: res.current_memory,
            score_key: r.score_key,
            similarity_key: r.similarity_key,
            text_match_key: r.text_match_key,
            highlights: r.highlights,
            evidence: r.evidence,
            history: merged_history(r.history, res.lineage_to_current, res.current_memory.id),
        },
        sources: seq![source_of(res)],
    }
}

/// The higher of two keys.
pub open spec fn max_key(a: u32, b: u32) -> u32 {
    if a >= b {
        a
    } else {
        b
    }
}

/// A further match collapsed onto an existing memory: the best scores are
/// kept, missing highlights, evidence and history are taken from the match,
/// and its lineage is added unless one from the same matched memory is
/// there already.
pub open spec fn absorb(g: CollapsedModel, r: RetrievedMemory, res: CurrentMemoryResolution) -> CollapsedModel {
    let src = source_of(res);
    CollapsedModel {
        retrieved: RetrievedMemory {
            memory: g.retrieved.memory,
            score_key: max_key(g.retrieved.score_key, r.score_key),
            similarity_key: max_key(g.retrieved.similarity_key, r.similarity_key),
            text_match_key: max_opt(g.retrieved.text_match_key, r.text_match_key),
            highlights: if g.retrieved.highlights is None {
                r.highlights
            } else {
                g.retrieved.highlights
            },
            evidence: if g.retrieved.evidence is None {
                r.evidence
            } else {
                g.retrieved.evidence
            },
            history: if g.retrieved.history is None {
                r.history
            } else {
                g.retrieved.history
            },
        },
        sources: if exists|k: int| 0 <= k < g.sources.len() && g.sources[k].0 == src.0 {
            g.sources
        } else {
            g.sources.push(src)
        },
    }
}

/// One match collapsed into the memories collapsed so far.
pub open spec fn collapse_step(
    gs: Seq<CollapsedModel>,
    r: RetrievedMemory,
    res: CurrentMemoryResolution,
    profile_id: u128,
) -> Seq<CollapsedModel> {
    if res.current_memory.profile_id != profile_id {
        gs
    } else {
        let k = group_of(gs, res.current_memory.id);
        if k >= 0 {
            gs.update(k, absorb(gs[k], r, res))
        } else {
            gs.push(new_group(r, res))
        }
    }
}

/// The collapsed memories of a list of matches with their resolutions:
/// matches whose current memory belongs to another profile are dropped, and
/// matches resolving onto the same current memory are merged, in the order
/// their current memories first appear.
pub open spec fn collapse(items: Seq<(RetrievedMemory, CurrentMemoryResolution)>, profile_id: u128) -> Seq<CollapsedModel>
    decreases items.len(),
{
    if items.len() == 0 {
        Seq::empty()
    } else {
        collapse_step(
            collapse(items.drop_last(), profile_id),
            items.last().0,
            items.last().1,
            profile_id,
        )
    }
}

/// Finds the collapsed memory for a current id.
fn find_group(groups: &Vec<CollapsedRetrievedMemory>, current_id: u128) -> (r: Option<usize>)
    ensures
        match r {
            Some(k) => k < groups@.len() && k as int == group_of(collapsed_models(groups@), current_id),
            None => group_of(collapsed_models(groups@), current_id) == -1,
        },
{
    let ghost gs = collapsed_models(groups@);
    let mut k: usize = 0;
    while k < groups.len()
        invariant
            k <= groups.len(),
            gs == collapsed_models(groups@),
            forall|m: int| 0 <= m < k ==> gs[m].retrieved.memory.id != current_id,
        decreases groups.len() - k,
    {
        if groups[k].retrieved.memory.id == current_id {
            assert(gs[k as int].retrieved.memory.id == current_id);
            let ghost w = choose|j: int|
                0 <= j < gs.len() && gs[j].retrieved.memory.id == current_id && forall|m: int|
                    0 <= m < j ==> gs[m].retrieved.memory.id != current_id;
            assert(w == k as int) by {
                if w < k as int {
                    assert(gs[w].retrieved.memory.id != current_id);
                } else if w > k as int {
                    assert(gs[k as int].retrieved.memory.id != current_id);
                }
            }
            return Some(k);
        }
        k += 1;
    }
    None
}

/// Merges one more match into an existing collapsed memory.
fn absorb_match(g: CollapsedRetrievedMemory, r: RetrievedMemory, res: &CurrentMemoryResolution) -> (out: CollapsedRetrievedMemory)
    ensures
        collapsed_model(out) == absorb(collapsed_model(g), r, *res),
{
    let ghost gm = collapsed_model(g);
    let CollapsedRetrievedMemory { retrieved: e, merged_lineage_sources: mut sources } = g;
    let src = lineage_source(res);
    let mut present = false;
    let mut k: usize = 0;
    while k < sources.len()
        invariant
            k <= sources.len(),
            gm.sources == Seq::new(sources@.len(), |i: int| source_model(sources@[i])),
            present == (exists|m: int| 0 <= m < k && gm.sources[m].0 == src.source_memory_id),
        decreases sources.len() - k,
    {
        if sources[k].source_memory_id == src.source_memory_id {
            assert(gm.sources[k as int].0 == src.source_memory_id);
            present = true;
        }
        k += 1;
    }
    let ghost before = sources@;
    if !present {
        sources.push(src);
    }
    let highlights = if e.highlights.is_none() {
        r.highlights
    } else {
        e.highlights
    };
    let evidence = if e.evidence.is_none() {
        r.evidence
    } else {
        e.evidence
    };
    let history = if e.history.is_none() {
        r.history
    } else {
        e.history
    };
    let out = CollapsedRetrievedMemory {
        retrieved: RetrievedMemory {
            memory: e.memory,
            score_key: if e.score_key >= r.score_key {
                e.score_key
            } else {
                r.score_key
            },
            similarity_key: if e.similarity_key >= r.similarity_key {
                e.similarity_key
            } else {
                r.similarity_key
            },
            text_match_key: max_option_key(e.text_match_key, r.text_match_key),
            highlights,
            evidence,
            history,
        },
        merged_lineage_sources: sources,
    };
    assert(collapsed_model(out).sources =~= absorb(gm, r, *res).sources);
    out
}

/// Merges a match into collapsed memory `k`.
fn merge_into_group(
    groups: &mut Vec<CollapsedRetrievedMemory>,
    k: usize,
    r: RetrievedMemory,
    res: &CurrentMemoryResolution,
)
    requires
        k < old(groups)@.len(),
    ensures
        collapsed_models(final(groups)@) == collapsed_models(old(groups)@).update(
            k as int,
            absorb(collapsed_models(old(groups)@)[k as int], r, *res),
        ),
{
    let ghost gs = collapsed_models(groups@);
    let g = groups.remove(k);
    assert(collapsed_model(g) == gs[k as int]);
    let merged = absorb_match(g, r, res);
    groups.insert(k, merged);
    assert(collapsed_models(groups@) =~= gs.update(k as int, absorb(gs[k as int], r, *res)));
}

/// Starts a new collapsed memory for a match.
fn push_new_group(groups: &mut Vec<CollapsedRetrievedMemory>, r: RetrievedMemory, res: CurrentMemoryResolution)
    ensures
        collapsed_models(final(groups)@) == collapsed_models(old(groups)@).push(new_group(r, res)),
{
    let ghost gs = collapsed_models(groups@);
    let src = lineage_source(&res);
    let current_id = res.current_memory.id;
    let CurrentMemoryResolution { requested_memory: _, current_memory, lineage_to_current } = res;
    let history = merge_history_with_lineage(r.history, lineage_to_current, current_id);
    let g = CollapsedRetrievedMemory {
        retrieved: RetrievedMemory {
            memory: current_memory,
            score_key: r.score_key,
            similarity_key: r.similarity_key,
            text_match_key: r.text_match_key,
            highlights: r.highlights,
            evidence: r.evidence,
            history,
        },
        merged_lineage_sources: vec![src],
    };
    assert(collapsed_model(g).sources =~= seq![source_of(res)]);
    groups.push(g);
    assert(collapsed_models(groups@) =~= gs.push(new_group(r, res)));
}

/// Collapses one more match into the memories collapsed so far.
fn collapse_one(
    groups: &mut Vec<CollapsedRetrievedMemory>,
    r: RetrievedMemory,
    res: CurrentMemoryResolution,
    profile_id: u128,
)
    ensures
        collapsed_models(final(groups)@) == collapse_step(collapsed_models(old(groups)@), r, res, profile_id),
{
    if res.current_memory.profile_id == profile_id {
        match find_group(groups, res.current_memory.id) {
            Some(k) => merge_into_group(groups, k, r, &res),
            None => push_new_group(groups, r, res),
        }
    }
}

/// Collapses matches onto their current memories: matches resolving
/// outside the profile are dropped, matches of one current memory are
/// merged (best scores, first highlights, evidence and history, each
/// matched memory's lineage once), and the result runs from the highest
/// score to the lowest, ties in the order the current memories first
/// appeared.
pub fn collapse_to_current(
    profile_id: u128,
    items: Vec<(RetrievedMemory, CurrentMemoryResolution)>,
) -> (r: Vec<CollapsedRetrievedMemory>)
    ensures
        exists|gs: Seq<CollapsedRetrievedMemory>|
            {
                &&& collapsed_models(gs) == collapse(items@, profile_id)
                &&& r@ == rank_desc(gs)
                &&& forall|k: u32| #[trigger] with_rank(r@, k) == with_rank(gs, k)
            },
{
    let ghost all = items@;
    let mut rest = items;
    let n: usize = rest.len();
    let mut groups: Vec<CollapsedRetrievedMemory> = Vec::new();
    let mut i: usize = 0;
    while rest.len() > 0
        invariant
            i + rest@.len() == all.len(),
            n == all.len(),
            rest@ == all.subrange(i as int, all.len() as int),
            collapsed_models(groups@) == collapse(all.take(i as int), profile_id),
        decreases rest.len(),
    {
        let (r, res) = rest.remove(0);
        assert((r, res) == all[i as int]);
        assert(all.take(i as int + 1).drop_last() =~= all.take(i as int));
        collapse_one(&mut groups, r, res, profile_id);
        i += 1;
        assert(rest@ =~= all.subrange(i as int, all.len() as int));
    }
    assert(all.take(all.len() as int) =~= all);
    let ghost gs = groups@;
    let sorted = sort_by_rank_desc(groups);
    assert forall|k: u32| #[trigger] with_rank(sorted@, k) == with_rank(gs, k) by {
        rank_desc_is_stable(gs, k);
    }
    assert(collapsed_models(gs) == collapse(items@, profile_id) && sorted@ == rank_desc(gs));
    sorted
}

/// How many results a retrieval returns when the request gives no count.
pub const DEFAULT_TOP_K: usize = 10;

/// The vector search a retrieval makes: active memories of the owner in
/// the profile, in the requested scope or global, with twice as many hits
/// as results wanted (to leave room for filtering).
pub fn plan_vector_search(
    profile_id: u128,
    owner_id: &str,
    scope_id: &Option<String>,
    top_k: Option<usize>,
) -> (r: (VectorFilter, usize))
    requires
        (match top_k {
            Some(k) => k,
            None => DEFAULT_TOP_K,
        }) * 2 <= usize::MAX,
    ensures
        r.0.profile_id == Some(profile_id),
        r.0.owner_id matches Some(o) && o@ == owner_id@,
        r.0.scope_id == *scope_id,
        r.0.category_prefix is None,
        r.0.is_global is None,
        r.0.include_global == Some(true),
        r.0.statuses matches Some(v) && v@.len() == 1 && v@[0]@ == "active"@,
        r.1 == (match top_k {
            Some(k) => k,
            None => DEFAULT_TOP_K,
        }) * 2,
{
    let k = match top_k {
        Some(k) => k,
        None => DEFAULT_TOP_K,
    };
    let filter = VectorFilter {
        profile_id: Some(profile_id),
        owner_id: Some(owner_id.to_owned()),
        scope_id: scope_id.clone(),
        category_prefix: None,
        is_global: None,
        include_global: Some(true),
        statuses: Some(vec!["active".to_owned()]),
    };
    (filter, k * 2)
}

/// The retrieval trace, for debugging the recall chain.
#[derive(Debug, Clone)]
pub struct RetrievalTraceResponse {
    pub query: String,
    pub used_vector: bool,
    pub used_fulltext: bool,
    pub scope_id: Option<String>,
    pub vector_candidate_count: usize,
    pub structured_candidate_count: usize,
    pub final_result_count: usize,
}

/// The intent an automatic retrieval reports: the query, followed by the
/// caller's context when there is one.
pub open spec fn spec_parsed_intent(query: Seq<char>, context: Option<String>) -> Seq<char> {
    match context {
        Some(c) => query + " (context: "@ + c@ + ")"@,
        None => query,
    }
}

/// The intent an automatic retrieval reports.
pub fn parsed_intent(query: &str, context: &Option<String>) -> (r: String)
    ensures
        r@ == spec_parsed_intent(query@, *context),
{
    match context {
        Some(c) => {
            let mut r = query.to_owned();
            push_str(&mut r, " (context: ");
            push_str(&mut r, c.as_str());
            push_str(&mut r, ")");
            r
        },
        None => query.to_owned(),
    }
}

/// One record of an automatic retrieval, as the markdown text shows it.
#[derive(Debug)]
pub struct MarkdownRecord {
    /// Record number (1-indexed)
    pub record: usize,
    /// When the memory was created (milliseconds since the epoch)
    pub time_millis: i64,
    /// Structured metadata payload
    pub metadata: JsonValue,
    /// Inferred memory content
    pub infer: String,
    /// The score with two decimals
    pub score_text: String,
}

/// Numbers the retrieved entries from 1 in the order they came: each entry
/// holds the creation time, the metadata, the inferred content and the score
/// text of one retrieved memory.
pub fn number_records(entries: &Vec<(i64, JsonValue, String, String)>) -> (r: Vec<MarkdownRecord>)
    ensures
        r@.len() == entries@.len(),
        forall|i: int|
            0 <= i < r@.len() ==> {
                &&& (#[trigger] r@[i]).record == i + 1
                &&& r@[i].time_millis == entries@[i].0
                &&& r@[i].metadata.model() == entries@[i].1.model()
                &&& r@[i].infer@ == entries@[i].2@
                &&& r@[i].score_text@ == entries@[i].3@
            },
{
    let mut out: Vec<MarkdownRecord> = Vec::new();
    let mut i: usize = 0;
    while i < entries.len()
        invariant
            i <= entries.len(),
            out@.len() == i,
            forall|k: int|
                0 <= k < i ==> {
                    &&& (#[trigger] out@[k]).record == k + 1
                    &&& out@[k].time_millis == entries@[k].0
                    &&& out@[k].metadata.model() == entries@[k].1.model()
                    &&& out@[k].infer@ == entries@[k].2@
                    &&& out@[k].score_text@ == entries@[k].3@
                },
        decreases entries.len() - i,
    {
        let e = &entries[i];
        let rec = MarkdownRecord {
            record: i + 1,
            time_millis: e.0,
            metadata: clone_json(&e.1),
            infer: e.2.clone(),
            score_text: e.3.clone(),
        };
        out.push(rec);
        i += 1;
    }
    out
}

/// The markdown block of one record (a time outside chrono's range shows
/// as nothing).
pub open spec fn record_block(r: MarkdownRecord) -> Seq<char> {
    "record: "@ + decimal(r.record as nat) + "\ntime: "@ + match utc_time_text(r.time_millis) {
        Some(t) => t,
        None => Seq::empty(),
    } + "\nmetadata: "@ + serde_json_text(r.metadata.model()) + "\ninfer: "@ + r.infer@ + "\nscore: "@
        + r.score_text@ + "\n\n"@
}

/// The blocks of the records, one after another.
pub open spec fn record_blocks(rs: Seq<MarkdownRecord>) -> Seq<char>
    decreases rs.len(),
{
    if rs.len() == 0 {
        Seq::empty()
    } else {
        record_blocks(rs.drop_last()) + record_block(rs.last())
    }
}

/// The markdown text of an automatic retrieval.
pub open spec fn records_markdown(rs: Seq<MarkdownRecord>) -> Seq<char> {
    if rs.len() == 0 {
        "No matching records found."@
    } else {
        trim_end(record_blocks(rs))
    }
}

/// Renders the records as markdown: for each, its number, time, metadata,
/// inferred content and score on lines of their own, records separated by a
/// blank line, no trailing whitespace.
pub fn format_records_as_markdown(records: &Vec<MarkdownRecord>) -> (r: String)
    ensures
        r@ == records_markdown(records@),
{
    if records.len() == 0 {
        return "No matching records found.".to_owned();
    }
    let mut out = String::new();
    let mut i: usize = 0;
    while i < records.len()
        invariant
            i <= records.len(),
            out@ == record_blocks(records@.take(i as int)),
        decreases records.len() - i,
    {
        assert(records@.take(i as int + 1).drop_last() =~= records@.take(i as int));
        let rec = &records[i];
        let ghost before = out@;
        push_str(&mut out, "record: ");
        push_decimal(&mut out, rec.record as u64);
        push_str(&mut out, "\ntime: ");
        match format_utc_time(rec.time_millis) {
            Some(t) => push_str(&mut out, t.as_str()),
            None => {},
        }
        push_str(&mut out, "\nmetadata: ");
        push_json_text(&mut out, &rec.metadata);
        push_str(&mut out, "\ninfer: ");
        push_str(&mut out, rec.infer.as_str());
        push_str(&mut out, "\nscore: ");
        push_str(&mut out, rec.score_text.as_str());
        push_str(&mut out, "\n\n");
        assert(out@ =~= before + record_block(*rec));
        i += 1;
    }
    assert(records@.take(records.len() as int) =~= records@);
    let cs = chars_of(out.as_str());
    trimmed_end(&cs)
}

/// The lineage sources of a collapsed memory, ids as text.
pub fn lineage_source_responses(sources: &Vec<LineageSource>) -> (r: Vec<LineageSourceResponse>)
    ensures
        r@.len() == sources@.len(),
        forall|i: int|
            0 <= i < r@.len() ==> (#[trigger] r@[i]).source_memory_id@ == uuid_text(sources@[i].source_memory_id)
                && r@[i].lineage_to_current@.len() == sources@[i].lineage_to_current@.len() && forall|j: int|
                0 <= j < r@[i].lineage_to_current@.len() ==> (#[trigger] r@[i].lineage_to_current@[j])@
                    == uuid_text(sources@[i].lineage_to_current@[j]),
{
    let mut out: Vec<LineageSourceResponse> = Vec::new();
    let mut i: usize = 0;
    while i < sources.len()
        invariant
            i <= sources.len(),
            out@.len() == i,
            forall|k: int|
                0 <= k < i ==> (#[trigger] out@[k]).source_memory_id@ == uuid_text(sources@[k].source_memory_id)
                    && out@[k].lineage_to_current@.len() == sources@[k].lineage_to_current@.len() && forall|j: int|
                    0 <= j < out@[k].lineage_to_current@.len() ==> (#[trigger] out@[k].lineage_to_current@[j])@
                        == uuid_text(sources@[k].lineage_to_current@[j]),
        decreases sources.len() - i,
    {
        let s = &sources[i];
        let mut ids: Vec<String> = Vec::new();
        let mut j: usize = 0;
        while j < s.lineage_to_current.len()
            invariant
                j <= s.lineage_to_current.len(),
                ids@.len() == j,
                forall|m: int| 0 <= m < j ==> (#[trigger] ids@[m])@ == uuid_text(s.lineage_to_current@[m]),
            decreases s.lineage_to_current.len() - j,
        {
            ids.push(uuid_to_string(s.lineage_to_current[j]));
            j += 1;
        }
        out.push(
            LineageSourceResponse {
                source_memory_id: uuid_to_string(s.source_memory_id),
                lineage_to_current: ids,
            },
        );
        i += 1;
    }
    out
}

/// No two collapsed memories share an id; each belongs to the profile and
/// carries at least one lineage source.
pub open spec fn well_collapsed(gs: Seq<CollapsedModel>, profile_id: u128) -> bool {
    &&& forall|i: int, j: int|
        0 <= i < j < gs.len() ==> (#[trigger] gs[i]).retrieved.memory.id != (#[trigger] gs[j]).retrieved.memory.id
    &&& forall|i: int|
        0 <= i < gs.len() ==> (#[trigger] gs[i]).retrieved.memory.profile_id == profile_id
            && gs[i].sources.len() > 0
}

proof fn lemma_collapse_step_well(
    gs: Seq<CollapsedModel>,
    r: RetrievedMemory,
    res: CurrentMemoryResolution,
    profile_id: u128,
)
    requires
        well_collapsed(gs, profile_id),
    ensures
        well_collapsed(collapse_step(gs, r, res, profile_id), profile_id),
{
    if res.current_memory.profile_id == profile_id {
        let k = group_of(gs, res.current_memory.id);
        if k >= 0 {
            let g2 = absorb(gs[k], r, res);
            assert(g2.retrieved.memory == gs[k].retrieved.memory);
            assert(g2.sources.len() >= gs[k].sources.len());
            let out = gs.update(k, g2);
            assert forall|i: int, j: int| 0 <= i < j < out.len() implies (#[trigger] out[i]).retrieved.memory.id
                != (#[trigger] out[j]).retrieved.memory.id by {
                assert(out[i].retrieved.memory == gs[i].retrieved.memory);
                assert(out[j].retrieved.memory == gs[j].retrieved.memory);
            }
            assert forall|i: int| 0 <= i < out.len() implies (#[trigger] out[i]).retrieved.memory.profile_id
                == profile_id && out[i].sources.len() > 0 by {
                assert(out[i].retrieved.memory == gs[i].retrieved.memory);
            }
        } else {
            let out = gs.push(new_group(r, res));
            assert forall|i: int, j: int| 0 <= i < j < out.len() implies (#[trigger] out[i]).retrieved.memory.id
                != (#[trigger] out[j]).retrieved.memory.id by {
                if j == gs.len() {
                    assert(!(exists|m: int| 0 <= m < gs.len() && gs[m].retrieved.memory.id == res.current_memory.id));
                    assert(gs[i].retrieved.memory.id != res.current_memory.id);
                }
            }
        }
    }
}

/// Collapsing keeps one entry per current memory, and only current memories
/// of the profile: no two collapsed memories share an id, each one belongs
/// to the profile, and each carries at least one lineage source.
pub proof fn collapse_law(items: Seq<(RetrievedMemory, CurrentMemoryResolution)>, profile_id: u128)
    ensures
        well_collapsed(collapse(items, profile_id), profile_id),
    decreases items.len(),
{
    if items.len() > 0 {
        collapse_law(items.drop_last(), profile_id);
        lemma_collapse_step_well(
            collapse(items.drop_last(), profile_id),
            items.last().0,
            items.last().1,
            profile_id,
        );
    }
}

/// A match by what collapsing reads of it: the profile and id of its
/// current memory, its similarity key and its score key.
pub open spec fn match_keys(items: Seq<(RetrievedMemory, CurrentMemoryResolution)>) -> Seq<(u128, u128, u32, u32)> {
    Seq::new(
        items.len(),
        |j: int|
            (
                items[j].1.current_memory.profile_id,
                items[j].1.current_memory.id,
                items[j].0.similarity_key,
                items[j].0.score_key,
            ),
    )
}

/// A collapsed memory by its id, similarity key and score key.
pub open spec fn group_keys(gs: Seq<CollapsedModel>) -> Seq<(u128, u32, u32)> {
    Seq::new(
        gs.len(),
        |g: int| (gs[g].retrieved.memory.id, gs[g].retrieved.similarity_key, gs[g].retrieved.score_key),
    )
}

/// Every match of the profile has a collapsed memory for its current id.
pub open spec fn all_landed(ms: Seq<(u128, u128, u32, u32)>, gs: Seq<(u128, u32, u32)>, profile_id: u128) -> bool {
    forall|j: int|
        0 <= j < ms.len() && (#[trigger] ms[j]).0 == profile_id ==> exists|g: int|
            0 <= g < gs.len() && (#[trigger] gs[g]).0 == ms[j].1
}

/// No match landing on a collapsed memory is more similar or scores more
/// than it.
pub open spec fn bounded_by_best(ms: Seq<(u128, u128, u32, u32)>, gs: Seq<(u128, u32, u32)>, profile_id: u128) -> bool {
    forall|g: int, j: int|
        0 <= g < gs.len() && 0 <= j < ms.len() && (#[trigger] ms[j]).0 == profile_id && ms[j].1 == (
        #[trigger] gs[g]).0 ==> ms[j].2 <= gs[g].1 && ms[j].3 <= gs[g].2
}

/// Each collapsed memory's similarity and score are those of some match
/// that landed on it.
pub open spec fn best_attained(ms: Seq<(u128, u128, u32, u32)>, gs: Seq<(u128, u32, u32)>, profile_id: u128) -> bool {
    forall|g: int| 0 <= g < gs.len() ==> #[trigger] attained_at(ms, gs[g], profile_id)
}

/// Some match landing on the collapsed memory has its similarity, and some
/// has its score.
pub open spec fn attained_at(ms: Seq<(u128, u128, u32, u32)>, g: (u128, u32, u32), profile_id: u128) -> bool {
    &&& exists|j: int| 0 <= j < ms.len() && ms[j].0 == profile_id && ms[j].1 == g.0 && ms[j].2 == g.1
    &&& exists|j: int| 0 <= j < ms.len() && ms[j].0 == profile_id && ms[j].1 == g.0 && ms[j].3 == g.2
}

proof fn lemma_group_of(gs: Seq<CollapsedModel>, id: u128, profile_id: u128)
    requires
        well_collapsed(gs, profile_id),
    ensures
        group_of(gs, id) >= 0 ==> group_of(gs, id) < gs.len() && gs[group_of(gs, id)].retrieved.memory.id
            == id,
        group_of(gs, id) < 0 ==> forall|m: int| 0 <= m < gs.len() ==> gs[m].retrieved.memory.id != id,
{
    if exists|k: int| 0 <= k < gs.len() && gs[k].retrieved.memory.id == id {
        let k0 = choose|k: int| 0 <= k < gs.len() && gs[k].retrieved.memory.id == id;
        assert forall|m: int| 0 <= m < k0 implies gs[m].retrieved.memory.id != id by {
            assert(gs[m].retrieved.memory.id != gs[k0].retrieved.memory.id);
        }
    }
}

/// What one collapsing step does to the ids, similarities and scores.
proof fn lemma_step_keys(gs: Seq<CollapsedModel>, r: RetrievedMemory, res: CurrentMemoryResolution, profile_id: u128)
    requires
        well_collapsed(gs, profile_id),
    ensures
        ({
            let p = group_keys(gs);
            let q = group_keys(collapse_step(gs, r, res, profile_id));
            let id = res.current_memory.id;
            &&& res.current_memory.profile_id != profile_id ==> q == p
            &&& res.current_memory.profile_id == profile_id ==> {
                ||| (exists|k: int|
                    0 <= k < p.len() && p[k].0 == id && q == p.update(
                        k,
                        (id, max_key(p[k].1, r.similarity_key), max_key(p[k].2, r.score_key)),
                    ))
                ||| ((forall|m: int| 0 <= m < p.len() ==> p[m].0 != id) && q == p.push(
                    (id, r.similarity_key, r.score_key),
                ))
            }
        }),
{
    let p = group_keys(gs);
    let out = collapse_step(gs, r, res, profile_id);
    let id = res.current_memory.id;
    if res.current_memory.profile_id == profile_id {
        lemma_group_of(gs, id, profile_id);
        let k = group_of(gs, id);
        if k >= 0 {
            assert(group_keys(out) =~= p.update(
                k,
                (id, max_key(p[k].1, r.similarity_key), max_key(p[k].2, r.score_key)),
            ));
        } else {
            assert forall|m: int| 0 <= m < p.len() implies p[m].0 != id by {}
            assert(group_keys(out) =~= p.push((id, r.similarity_key, r.score_key)));
        }
    } else {
        assert(group_keys(out) =~= p);
    }
}

/// Collapsed ids are distinct.
pub open spec fn distinct_ids(gs: Seq<(u128, u32, u32)>) -> bool {
    forall|a: int, b: int| 0 <= a < b < gs.len() ==> (#[trigger] gs[a]).0 != (#[trigger] gs[b]).0
}

/// Whether a match key lands on memory `id` of the profile.
pub open spec fn key_lands(m: (u128, u128, u32, u32), profile_id: u128, id: u128) -> bool {
    m.0 == profile_id && m.1 == id
}

/// The highest similarity (`which` false) or score (`which` true) among
/// the matches landing on `id`; none when no match lands there.
pub open spec fn best_of(ms: Seq<(u128, u128, u32, u32)>, profile_id: u128, id: u128, which: bool) -> Option<u32>
    decreases ms.len(),
{
    if ms.len() == 0 {
        None
    } else {
        let b = best_of(ms.drop_last(), profile_id, id, which);
        let t = ms.last();
        let v = if which {
            t.3
        } else {
            t.2
        };
        if key_lands(t, profile_id, id) {
            Some(
                match b {
                    Some(x) => max_key(x, v),
                    None => v,
                },
            )
        } else {
            b
        }
    }
}

/// The value of a match key that `best_of` reads.
pub open spec fn key_value(m: (u128, u128, u32, u32), which: bool) -> u32 {
    if which {
        m.3
    } else {
        m.2
    }
}

/// `best_of` is the maximum: present exactly when some match lands, at
/// least the value of each landing match, and equal to one of them.
proof fn lemma_best_of(ms: Seq<(u128, u128, u32, u32)>, profile_id: u128, id: u128, which: bool)
    ensures
        forall|j: int|
            0 <= j < ms.len() && key_lands(#[trigger] ms[j], profile_id, id) ==> (best_of(
                ms,
                profile_id,
                id,
                which,
            ) matches Some(v) && key_value(ms[j], which) <= v),
        best_of(ms, profile_id, id, which) matches Some(v) ==> exists|j: int|
            0 <= j < ms.len() && key_lands(#[trigger] ms[j], profile_id, id) && key_value(ms[j], which)
                == v,
    decreases ms.len(),
{
    if ms.len() > 0 {
        let d = ms.drop_last();
        lemma_best_of(d, profile_id, id, which);
        let n = d.len() as int;
        assert forall|j: int|
            0 <= j < ms.len() && key_lands(#[trigger] ms[j], profile_id, id) implies (best_of(
                ms,
                profile_id,
                id,
                which,
            ) matches Some(v) && key_value(ms[j], which) <= v) by {
            if j < n {
                assert(ms[j] == d[j]);
                assert(key_lands(d[j], profile_id, id));
            }
        }
        if best_of(ms, profile_id, id, which) is Some {
            let v = best_of(ms, profile_id, id, which)->0;
            if key_lands(ms.last(), profile_id, id) && key_value(ms.last(), which) == v {
                assert(ms[n] == ms.last());
            } else {
                let j = choose|j: int|
                    0 <= j < d.len() && key_lands(#[trigger] d[j], profile_id, id) && key_value(d[j], which)
                        == v;
                assert(ms[j] == d[j]);
            }
        }
    }
}

/// The collapsed keys hold the best similarity and score of the matches
/// landing on them, and every id some match lands on has a collapsed memory.
pub open spec fn keys_are_best(ms: Seq<(u128, u128, u32, u32)>, q: Seq<(u128, u32, u32)>, profile_id: u128) -> bool {
    &&& forall|g: int|
        0 <= g < q.len() ==> best_of(ms, profile_id, (#[trigger] q[g]).0, false) == Some(q[g].1)
            && best_of(ms, profile_id, q[g].0, true) == Some(q[g].2)
    &&& forall|id: u128, which: bool|
        (#[trigger] best_of(ms, profile_id, id, which)) is Some ==> exists|g: int|
            0 <= g < q.len() && q[g].0 == id
}

proof fn lemma_best_of_push(ms: Seq<(u128, u128, u32, u32)>, t: (u128, u128, u32, u32), profile_id: u128, id: u128, which: bool)
    ensures
        best_of(ms.push(t), profile_id, id, which) == if key_lands(t, profile_id, id) {
            Some(
                match best_of(ms, profile_id, id, which) {
                    Some(x) => max_key(x, key_value(t, which)),
                    None => key_value(t, which),
                },
            )
        } else {
            best_of(ms, profile_id, id, which)
        },
{
    assert(ms.push(t).drop_last() =~= ms);
    assert(ms.push(t).last() == t);
}

#[verifier::rlimit(30)]
proof fn lemma_keys_are_best_step(
    ms: Seq<(u128, u128, u32, u32)>,
    p: Seq<(u128, u32, u32)>,
    q: Seq<(u128, u32, u32)>,
    t: (u128, u128, u32, u32),
    profile_id: u128,
)
    requires
        distinct_ids(p),
        keys_are_best(ms, p, profile_id),
        t.0 != profile_id ==> q == p,
        t.0 == profile_id ==> {
            ||| (exists|k: int|
                0 <= k < p.len() && p[k].0 == t.1 && q == p.update(
                    k,
                    (t.1, max_key(p[k].1, t.2), max_key(p[k].2, t.3)),
                ))
            ||| ((forall|m: int| 0 <= m < p.len() ==> p[m].0 != t.1) && q == p.push((t.1, t.2, t.3)))
        },
    ensures
        keys_are_best(ms.push(t), q, profile_id),
{
    let ns = ms.push(t);
    assert forall|g: int| 0 <= g < q.len() implies best_of(ns, profile_id, (#[trigger] q[g]).0, false)
        == Some(q[g].1) && best_of(ns, profile_id, q[g].0, true) == Some(q[g].2) by {
        lemma_best_of_push(ms, t, profile_id, q[g].0, false);
        lemma_best_of_push(ms, t, profile_id, q[g].0, true);
        if t.0 != profile_id {
            assert(q[g] == p[g]);
        } else if exists|k: int|
            0 <= k < p.len() && p[k].0 == t.1 && q == p.update(
                k,
                (t.1, max_key(p[k].1, t.2), max_key(p[k].2, t.3)),
            ) {
            let k = choose|k: int|
                0 <= k < p.len() && p[k].0 == t.1 && q == p.update(
                    k,
                    (t.1, max_key(p[k].1, t.2), max_key(p[k].2, t.3)),
                );
            if g == k {
                assert(p[k].0 == t.1);
            } else {
                assert(q[g] == p[g]);
                assert(p[g].0 != p[k].0);
            }
        } else {
            if g < p.len() {
                assert(q[g] == p[g]);
                assert(p[g].0 != t.1);
            } else {
                assert(q[g] == (t.1, t.2, t.3));
                if best_of(ms, profile_id, t.1, false) is Some {
                    let g0 = choose|g0: int| 0 <= g0 < p.len() && p[g0].0 == t.1;
                    assert(p[g0].0 != t.1);
                }
                if best_of(ms, profile_id, t.1, true) is Some {
                    let g0 = choose|g0: int| 0 <= g0 < p.len() && p[g0].0 == t.1;
                    assert(p[g0].0 != t.1);
                }
            }
        }
    }
    assert forall|id: u128, which: bool| (#[trigger] best_of(ns, profile_id, id, which)) is Some implies exists|g: int|
        0 <= g < q.len() && q[g].0 == id by {
        lemma_best_of_push(ms, t, profile_id, id, which);
        if key_lands(t, profile_id, id) {
            if exists|k: int|
                0 <= k < p.len() && p[k].0 == t.1 && q == p.update(
                    k,
                    (t.1, max_key(p[k].1, t.2), max_key(p[k].2, t.3)),
                ) {
                let k = choose|k: int|
                    0 <= k < p.len() && p[k].0 == t.1 && q == p.update(
                        k,
                        (t.1, max_key(p[k].1, t.2), max_key(p[k].2, t.3)),
                    );
                assert(q[k].0 == id);
            } else {
                assert(q[p.len() as int].0 == id);
            }
        } else {
            let g0 = choose|g0: int| 0 <= g0 < p.len() && p[g0].0 == id;
            if t.0 != profile_id {
                assert(q[g0] == p[g0]);
            } else if exists|k: int|
                0 <= k < p.len() && p[k].0 == t.1 && q == p.update(
                    k,
                    (t.1, max_key(p[k].1, t.2), max_key(p[k].2, t.3)),
                ) {
                let k = choose|k: int|
                    0 <= k < p.len() && p[k].0 == t.1 && q == p.update(
                        k,
                        (t.1, max_key(p[k].1, t.2), max_key(p[k].2, t.3)),
                    );
                assert(q[g0].0 == p[g0].0);
            } else {
                assert(q[g0] == p[g0]);
            }
        }
    }
}

proof fn lemma_collapse_keys_are_best(items: Seq<(RetrievedMemory, CurrentMemoryResolution)>, profile_id: u128)
    ensures
        keys_are_best(match_keys(items), group_keys(collapse(items, profile_id)), profile_id),
    decreases items.len(),
{
    if items.len() > 0 {
        let prev = items.drop_last();
        let gs = collapse(prev, profile_id);
        lemma_collapse_keys_are_best(prev, profile_id);
        collapse_law(prev, profile_id);
        let (r, res) = items.last();
        lemma_step_keys(gs, r, res, profile_id);
        let p = group_keys(gs);
        assert forall|a: int, b: int| 0 <= a < b < p.len() implies (#[trigger] p[a]).0 != (#[trigger] p[b]).0 by {
            assert(gs[a].retrieved.memory.id != gs[b].retrieved.memory.id);
        }
        let t = (res.current_memory.profile_id, res.current_memory.id, r.similarity_key, r.score_key);
        assert(match_keys(items) =~= match_keys(prev).push(t));
        lemma_keys_are_best_step(match_keys(prev), p, group_keys(collapse(items, profile_id)), t, profile_id);
    } else {
        assert(keys_are_best(match_keys(items), group_keys(collapse(items, profile_id)), profile_id));
    }
}

proof fn lemma_best_landed(ms: Seq<(u128, u128, u32, u32)>, q: Seq<(u128, u32, u32)>, profile_id: u128)
    requires
        keys_are_best(ms, q, profile_id),
    ensures
        all_landed(ms, q, profile_id),
{
    assert forall|j: int| 0 <= j < ms.len() && (#[trigger] ms[j]).0 == profile_id implies exists|g: int|
        0 <= g < q.len() && (#[trigger] q[g]).0 == ms[j].1 by {
        lemma_best_of(ms, profile_id, ms[j].1, false);
        assert(key_lands(ms[j], profile_id, ms[j].1));
        assert(best_of(ms, profile_id, ms[j].1, false) is Some);
        let g = choose|g: int| 0 <= g < q.len() && q[g].0 == ms[j].1;
        assert(q[g].0 == ms[j].1);
    }
}

proof fn lemma_best_bounded(ms: Seq<(u128, u128, u32, u32)>, q: Seq<(u128, u32, u32)>, profile_id: u128)
    requires
        keys_are_best(ms, q, profile_id),
    ensures
        bounded_by_best(ms, q, profile_id),
{
    assert forall|g: int, j: int|
        0 <= g < q.len() && 0 <= j < ms.len() && (#[trigger] ms[j]).0 == profile_id && ms[j].1 == (
        #[trigger] q[g]).0 implies ms[j].2 <= q[g].1 && ms[j].3 <= q[g].2 by {
        lemma_best_of(ms, profile_id, q[g].0, false);
        lemma_best_of(ms, profile_id, q[g].0, true);
        assert(key_lands(ms[j], profile_id, q[g].0));
    }
}

proof fn lemma_best_attained(ms: Seq<(u128, u128, u32, u32)>, q: Seq<(u128, u32, u32)>, profile_id: u128)
    requires
        keys_are_best(ms, q, profile_id),
    ensures
        best_attained(ms, q, profile_id),
{
    assert forall|g: int| 0 <= g < q.len() implies #[trigger] attained_at(ms, q[g], profile_id) by {
        lemma_best_of(ms, profile_id, q[g].0, false);
        lemma_best_of(ms, profile_id, q[g].0, true);
        let j1 = choose|j: int|
            0 <= j < ms.len() && key_lands(#[trigger] ms[j], profile_id, q[g].0) && key_value(ms[j], false)
                == q[g].1;
        let j2 = choose|j: int|
            0 <= j < ms.len() && key_lands(#[trigger] ms[j], profile_id, q[g].0) && key_value(ms[j], true)
                == q[g].2;
        assert(ms[j1].2 == q[g].1);
        assert(ms[j2].3 == q[g].2);
    }
}

/// The similarity and the score of a collapsed memory are the best of the
/// matches collapsed onto it: at least each of theirs and equal to one of
/// them; and every match whose current memory is in the profile is
/// collapsed onto a memory.
pub proof fn collapse_keeps_best(items: Seq<(RetrievedMemory, CurrentMemoryResolution)>, profile_id: u128)
    ensures
        all_landed(match_keys(items), group_keys(collapse(items, profile_id)), profile_id),
        bounded_by_best(match_keys(items), group_keys(collapse(items, profile_id)), profile_id),
        best_attained(match_keys(items), group_keys(collapse(items, profile_id)), profile_id),
{
    lemma_collapse_keys_are_best(items, profile_id);
    let ms = match_keys(items);
    let q = group_keys(collapse(items, profile_id));
    lemma_best_landed(ms, q, profile_id);
    lemma_best_bounded(ms, q, profile_id);
    lemma_best_attained(ms, q, profile_id);
}

} // verus!
