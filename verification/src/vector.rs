//! Vector search: collection naming, the payload stored with each vector,
//! the conditions a search filter puts on it, and the merging of results
//! from several collections.
use vstd::prelude::*;
use crate::ids::{uuid_text, uuid_to_string};
use crate::ranking::{rank_desc, rank_desc_is_sorted_permutation, rank_desc_is_stable, sort_by_rank_desc, with_rank, Ranked};
use crate::text::{chars_of, push_char, push_str};

verus! {

/// `-` becomes `_`, every other character stays.
pub open spec fn underscored(s: Seq<char>) -> Seq<char> {
    Seq::new(s.len(), |i: int| if s[i] == '-' { '_' } else { s[i] })
}

/// The collection of a provider: `memories_` and the provider name with
/// dashes turned into underscores.
pub open spec fn spec_collection_name(provider_name: Seq<char>) -> Seq<char> {
    "memories_"@ + underscored(provider_name)
}

/// The collection name of an embedding provider.
pub fn collection_name(provider_name: &str) -> (r: String)
    ensures
        r@ == spec_collection_name(provider_name@),
{
    let cs = chars_of(provider_name);
    let mut r = "memories_".to_owned();
    let ghost start = r@;
    proof {
        reveal_strlit("memories_");
    }
    let mut i: usize = 0;
    while i < cs.len()
        invariant
            i <= cs.len(),
            cs@ == provider_name@,
            start == "memories_"@,
            r@ == start + underscored(provider_name@.take(i as int)),
        decreases cs.len() - i,
    {
        let c = cs[i];
        if c == '-' {
            push_char(&mut r, '_');
        } else {
            push_char(&mut r, c);
        }
        i += 1;
        assert(r@ =~= start + underscored(provider_name@.take(i as int)));
    }
    assert(provider_name@.take(cs.len() as int) =~= provider_name@);
    r
}

/// The payload stored with a memory's vector.
#[derive(Debug, Clone)]
pub struct VectorPayload {
    pub profile_id: u128,
    pub owner_id: String,
    pub memory_id: u128,
    pub scope_id: Option<String>,
    pub category: Option<String>,
    pub is_global: bool,
    pub status: String,
}

/// A payload value: text or a flag.
#[derive(Debug, Clone)]
pub enum PayloadValue {
    Text(String),
    Flag(bool),
}

/// The model of a payload value.
pub enum PayloadModel {
    Text(Seq<char>),
    Flag(bool),
}

/// The model of a payload value.
pub open spec fn payload_model(v: PayloadValue) -> PayloadModel {
    match v {
        PayloadValue::Text(s) => PayloadModel::Text(s@),
        PayloadValue::Flag(b) => PayloadModel::Flag(b),
    }
}

/// The entries of a payload: profile, owner and memory ids, the scope and
/// category when present, the global flag and the status.
pub open spec fn payload_entries(p: VectorPayload) -> Seq<(Seq<char>, PayloadModel)> {
    seq![
        ("profile_id"@, PayloadModel::Text(uuid_text(p.profile_id))),
        ("owner_id"@, PayloadModel::Text(p.owner_id@)),
        ("memory_id"@, PayloadModel::Text(uuid_text(p.memory_id))),
    ] + match p.scope_id {
        Some(s) => seq![("scope_id"@, PayloadModel::Text(s@))],
        None => Seq::empty(),
    } + match p.category {
        Some(c) => seq![("category"@, PayloadModel::Text(c@))],
        None => Seq::empty(),
    } + seq![("is_global"@, PayloadModel::Flag(p.is_global)), ("status"@, PayloadModel::Text(p.status@))]
}

/// The model of payload entries.
pub open spec fn entries_model(es: Seq<(String, PayloadValue)>) -> Seq<(Seq<char>, PayloadModel)> {
    Seq::new(es.len(), |i: int| (es[i].0@, payload_model(es[i].1)))
}

impl VectorPayload {
    /// The payload as named entries, in the order the vector store gets them.
    pub fn entries(&self) -> (r: Vec<(String, PayloadValue)>)
        ensures
            entries_model(r@) == payload_entries(*self),
    {
        let mut r: Vec<(String, PayloadValue)> = Vec::new();
        r.push(("profile_id".to_owned(), PayloadValue::Text(uuid_to_string(self.profile_id))));
        r.push(("owner_id".to_owned(), PayloadValue::Text(self.owner_id.clone())));
        r.push(("memory_id".to_owned(), PayloadValue::Text(uuid_to_string(self.memory_id))));
        if let Some(scope_id) = &self.scope_id {
            r.push(("scope_id".to_owned(), PayloadValue::Text(scope_id.clone())));
        }
        if let Some(category) = &self.category {
            r.push(("category".to_owned(), PayloadValue::Text(category.clone())));
        }
        r.push(("is_global".to_owned(), PayloadValue::Flag(self.is_global)));
        r.push(("status".to_owned(), PayloadValue::Text(self.status.clone())));
        assert(entries_model(r@) =~= payload_entries(*self));
        r
    }
}

/// The filter of a vector search.
#[derive(Debug, Clone)]
pub struct VectorFilter {
    pub profile_id: Option<u128>,
    pub owner_id: Option<String>,
    pub scope_id: Option<String>,
    pub category_prefix: Option<String>,
    pub is_global: Option<bool>,
    pub include_global: Option<bool>,
    pub statuses: Option<Vec<String>>,
}

impl Default for VectorFilter {
    fn default() -> (f: Self)
        ensures
            f.profile_id is None,
            f.owner_id is None,
            f.scope_id is None,
            f.category_prefix is None,
            f.is_global is None,
            f.include_global is None,
            f.statuses is None,
    {
        VectorFilter {
            profile_id: None,
            owner_id: None,
            scope_id: None,
            category_prefix: None,
            is_global: None,
            include_global: None,
            statuses: None,
        }
    }
}

/// The condition a filter puts on the scope of a memory.
#[derive(Debug, Clone)]
pub enum ScopeCondition {
    /// No condition
    Any,
    /// The memory's scope is this one
    Scope(String),
    /// The memory's scope is this one, or the memory is global
    ScopeOrGlobal(String),
    /// The memory is global
    Global,
}

/// The conditions of a vector search, all of which must hold.
#[derive(Debug, Clone)]
pub struct FilterConditions {
    /// `profile_id` equals this text
    pub profile_id: Option<String>,
    /// `owner_id` equals this text
    pub owner_id: Option<String>,
    /// The scope condition
    pub scope: ScopeCondition,
    /// `category` matches this pattern (a prefix followed by `*`)
    pub category_pattern: Option<String>,
    /// `is_global` equals this flag
    pub is_global: Option<bool>,
    /// `status` is one of these; no condition when empty
    pub any_status: Vec<String>,
}

impl FilterConditions {
    /// How many conditions the search must meet (the empty filter has none).
    pub open spec fn spec_must_count(&self) -> nat {
        (if self.profile_id is Some { 1nat } else { 0nat }) + (if self.owner_id is Some {
            1nat
        } else {
            0nat
        }) + (if self.scope is Any { 0nat } else { 1nat }) + (if self.category_pattern is Some {
            1nat
        } else {
            0nat
        }) + (if self.is_global is Some { 1nat } else { 0nat }) + (if self.any_status@.len() > 0 {
            1nat
        } else {
            0nat
        })
    }

    /// How many conditions the search must meet.
    pub fn must_count(&self) -> (n: usize)
        ensures
            n == self.spec_must_count(),
    {
        let mut n: usize = 0;
        if self.profile_id.is_some() {
            n += 1;
        }
        if self.owner_id.is_some() {
            n += 1;
        }
        match self.scope {
            ScopeCondition::Any => {},
            _ => {
                n += 1;
            },
        }
        if self.category_pattern.is_some() {
            n += 1;
        }
        if self.is_global.is_some() {
            n += 1;
        }
        if self.any_status.len() > 0 {
            n += 1;
        }
        n
    }
}

impl VectorFilter {
    /// The search conditions of this filter: global memories are included
    /// only when asked for; a category prefix matches by wildcard.
    pub fn to_conditions(&self) -> (c: FilterConditions)
        ensures
            match self.profile_id {
                Some(p) => c.profile_id matches Some(t) && t@ == uuid_text(p),
                None => c.profile_id is None,
            },
            c.owner_id == self.owner_id,
            match self.scope_id {
                Some(s) => if self.include_global == Some(true) {
                    c.scope == ScopeCondition::ScopeOrGlobal(s)
                } else {
                    c.scope == ScopeCondition::Scope(s)
                },
                None => if self.include_global == Some(true) {
                    c.scope is Global
                } else {
                    c.scope is Any
                },
            },
            match self.category_prefix {
                Some(p) => c.category_pattern matches Some(t) && t@ == p@ + "*"@,
                None => c.category_pattern is None,
            },
            c.is_global == self.is_global,
            match self.statuses {
                Some(v) => c.any_status@ == v@,
                None => c.any_status@.len() == 0,
            },
    {
        let profile_id = match self.profile_id {
            Some(p) => Some(uuid_to_string(p)),
            None => None,
        };
        let include_global = match self.include_global {
            Some(b) => b,
            None => false,
        };
        let scope = match &self.scope_id {
            Some(s) => if include_global {
                ScopeCondition::ScopeOrGlobal(s.clone())
            } else {
                ScopeCondition::Scope(s.clone())
            },
            None => if include_global {
                ScopeCondition::Global
            } else {
                ScopeCondition::Any
            },
        };
        let category_pattern = match &self.category_prefix {
            Some(p) => {
                let mut t = p.clone();
                push_char(&mut t, '*');
                proof {
                    reveal_strlit("*");
                }
                Some(t)
            },
            None => None,
        };
        let any_status = match &self.statuses {
            Some(v) => {
                let mut out: Vec<String> = Vec::new();
                let mut i: usize = 0;
                while i < v.len()
                    invariant
                        i <= v.len(),
                        out@ == v@.take(i as int),
                    decreases v.len() - i,
                {
                    out.push(v[i].clone());
                    i += 1;
                    assert(out@ =~= v@.take(i as int));
                }
                assert(v@.take(v.len() as int) =~= v@);
                out
            },
            None => Vec::new(),
        };
        FilterConditions {
            profile_id,
            owner_id: self.owner_id.clone(),
            scope,
            category_pattern,
            is_global: self.is_global,
            any_status,
        }
    }
}

/// One hit of a vector search: a memory and the order key of its score.
#[derive(Debug, Clone, Copy, PartialEq, Eq, Structural)]
pub struct ScoredId {
    pub memory_id: u128,
    pub score_key: u32,
}

impl Ranked for ScoredId {
    open spec fn rank(&self) -> u32 {
        self.score_key
    }

    fn rank_key(&self) -> (k: u32) {
        self.score_key
    }
}

/// Whether some hit in `s` is for `id`.
pub open spec fn has_memory(s: Seq<ScoredId>, id: u128) -> bool {
    exists|k: int| 0 <= k < s.len() && s[k].memory_id == id
}

/// The hits with each memory's first hit only.
pub open spec fn first_per_memory(s: Seq<ScoredId>) -> Seq<ScoredId>
    decreases s.len(),
{
    if s.len() == 0 {
        Seq::empty()
    } else {
        let p = first_per_memory(s.drop_last());
        if has_memory(p, s.last().memory_id) {
            p
        } else {
            p.push(s.last())
        }
    }
}

/// The merged results of searches in several collections: all hits from
/// the highest score to the lowest (equal scores in first-seen order), each memory once
/// with its best score, at most `limit` of them.
pub open spec fn merged_results(all: Seq<ScoredId>, limit: nat) -> Seq<ScoredId> {
    let d = first_per_memory(rank_desc(all));
    if d.len() <= limit {
        d
    } else {
        d.take(limit as int)
    }
}

/// Merges the hits of several searches. Once the hits run from the highest
/// score down, a memory's first hit is its best one, so keeping each
/// memory's first hit keeps its highest score; the kept hits are still in
/// order.
pub fn merge_search_results(all: Vec<ScoredId>, limit: usize) -> (r: Vec<ScoredId>)
    ensures
        r@ == merged_results(all@, limit as nat),
        forall|k: u32| #[trigger] with_rank(rank_desc(all@), k) == with_rank(all@, k),
{
    proof {
        assert forall|k: u32| #[trigger] with_rank(rank_desc(all@), k) == with_rank(all@, k) by {
            rank_desc_is_stable(all@, k);
        }
    }
    let sorted = sort_by_rank_desc(all);
    let mut deduped: Vec<ScoredId> = Vec::new();
    let mut i: usize = 0;
    while i < sorted.len()
        invariant
            i <= sorted.len(),
            deduped@ == first_per_memory(sorted@.take(i as int)),
        decreases sorted.len() - i,
    {
        assert(sorted@.take(i as int + 1).drop_last() =~= sorted@.take(i as int));
        let hit = sorted[i];
        let mut seen = false;
        let mut k: usize = 0;
        while k < deduped.len()
            invariant
                k <= deduped.len(),
                seen == (exists|m: int| 0 <= m < k && deduped@[m].memory_id == hit.memory_id),
            decreases deduped.len() - k,
        {
            if deduped[k].memory_id == hit.memory_id {
                seen = true;
            }
            k += 1;
        }
        if !seen {
            deduped.push(hit);
        }
        i += 1;
    }
    assert(sorted@.take(sorted.len() as int) =~= sorted@);
    if deduped.len() > limit {
        deduped.truncate(limit);
    }
    deduped
}

/// Keeping each memory's first hit leaves no memory twice, and keeps a hit
/// for every memory that had one.
pub proof fn first_per_memory_law(s: Seq<ScoredId>)
    ensures
        forall|i: int, j: int|
            0 <= i < j < first_per_memory(s).len() ==> (#[trigger] first_per_memory(s)[i]).memory_id
                != (#[trigger] first_per_memory(s)[j]).memory_id,
        forall|k: int| 0 <= k < s.len() ==> has_memory(first_per_memory(s), (#[trigger] s[k]).memory_id),
        forall|i: int| 0 <= i < first_per_memory(s).len() ==> s.contains(#[trigger] first_per_memory(s)[i]),
    decreases s.len(),
{
    if s.len() > 0 {
        let d = s.drop_last();
        first_per_memory_law(d);
        let p = first_per_memory(d);
        let x = s.last();
        assert forall|k: int| 0 <= k < s.len() implies has_memory(first_per_memory(s), (#[trigger] s[k]).memory_id) by {
            if k < d.len() {
                assert(d[k] == s[k]);
                assert(has_memory(p, d[k].memory_id));
                let w = choose|w: int| 0 <= w < p.len() && p[w].memory_id == d[k].memory_id;
                if !has_memory(p, x.memory_id) {
                    assert(p.push(x)[w] == p[w]);
                }
            } else {
                if !has_memory(p, x.memory_id) {
                    assert(p.push(x)[p.len() as int] == x);
                }
            }
        }
        assert forall|i: int| 0 <= i < first_per_memory(s).len() implies s.contains(#[trigger] first_per_memory(s)[i]) by {
            if i < p.len() {
                assert(d.contains(p[i]));
                let w = choose|w: int| 0 <= w < d.len() && d[w] == p[i];
                assert(s[w] == d[w]);
            } else {
                assert(s[s.len() - 1] == x);
            }
        }
    }
}

/// Whether hits run from the highest score key to the lowest.
pub open spec fn sorted_desc(s: Seq<ScoredId>) -> bool {
    forall|i: int, j: int| 0 <= i < j < s.len() ==> (#[trigger] s[i]).score_key >= (#[trigger] s[j]).score_key
}

/// On hits sorted from the highest score down, keeping each memory's first
/// hit keeps them sorted and keeps each memory's best hit.
proof fn lemma_first_per_memory_sorted(s: Seq<ScoredId>)
    requires
        sorted_desc(s),
    ensures
        sorted_desc(first_per_memory(s)),
        forall|i: int, k: int|
            0 <= i < first_per_memory(s).len() && 0 <= k < s.len() && (#[trigger] s[k]).memory_id == (
            #[trigger] first_per_memory(s)[i]).memory_id ==> s[k].score_key <= first_per_memory(
                s,
            )[i].score_key,
        forall|i: int|
            0 <= i < first_per_memory(s).len() ==> exists|k: int|
                0 <= k < s.len() && s[k] == #[trigger] first_per_memory(s)[i],
    decreases s.len(),
{
    if s.len() > 0 {
        let d = s.drop_last();
        assert forall|i: int, j: int| 0 <= i < j < d.len() implies (#[trigger] d[i]).score_key >= (
        #[trigger] d[j]).score_key by {
            assert(d[i] == s[i] && d[j] == s[j]);
        }
        lemma_first_per_memory_sorted(d);
        first_per_memory_law(d);
        let p = first_per_memory(d);
        let x = s.last();
        let n = d.len() as int;
        assert(s[n] == x);
        let out = first_per_memory(s);
        assert forall|i: int| 0 <= i < out.len() implies exists|k: int|
            0 <= k < s.len() && s[k] == #[trigger] out[i] by {
            if i < p.len() {
                assert(out[i] == p[i]);
                let k = choose|k: int| 0 <= k < d.len() && d[k] == #[trigger] p[i];
                assert(s[k] == d[k]);
            } else {
                assert(out[i] == x);
            }
        }
        assert forall|i: int, j: int| 0 <= i < j < out.len() implies (#[trigger] out[i]).score_key >= (
        #[trigger] out[j]).score_key by {
            if j < p.len() {
                assert(out[i] == p[i] && out[j] == p[j]);
            } else {
                assert(out[i] == p[i]);
                assert(out[j] == x);
                let k = choose|k: int| 0 <= k < d.len() && d[k] == #[trigger] p[i];
                assert(s[k] == d[k]);
                assert(s[k].score_key >= s[n].score_key);
            }
        }
        assert forall|i: int, k: int|
            0 <= i < out.len() && 0 <= k < s.len() && (#[trigger] s[k]).memory_id == (
            #[trigger] out[i]).memory_id implies s[k].score_key <= out[i].score_key by {
            if i < p.len() {
                assert(out[i] == p[i]);
                let w = choose|w: int| 0 <= w < d.len() && d[w] == #[trigger] p[i];
                assert(s[w] == d[w]);
                if k < n {
                    assert(s[k] == d[k]);
                } else {
                    assert(w < k);
                }
            } else {
                assert(out[i] == x);
                assert(!has_memory(p, x.memory_id));
                if k < n {
                    assert(s[k] == d[k]);
                    assert(has_memory(p, d[k].memory_id));
                }
            }
        }
    }
}

/// The merged results hold at most `limit` hits, each memory at most once,
/// each a hit that was found, and each with its memory's best score; when
/// fewer than `limit` come back, every memory found is among them; and a
/// memory left out scores no higher than any memory kept.
pub proof fn merged_results_law(all: Seq<ScoredId>, limit: nat)
    ensures
        merged_results(all, limit).len() <= limit,
        forall|i: int, j: int|
            0 <= i < j < merged_results(all, limit).len() ==> (#[trigger] merged_results(all, limit)[i]).memory_id
                != (#[trigger] merged_results(all, limit)[j]).memory_id,
        forall|i: int| 0 <= i < merged_results(all, limit).len() ==> all.contains(
            #[trigger] merged_results(all, limit)[i],
        ),
        forall|i: int, k: int|
            0 <= i < merged_results(all, limit).len() && 0 <= k < all.len() && (#[trigger] all[k]).memory_id
                == (#[trigger] merged_results(all, limit)[i]).memory_id ==> all[k].score_key
                <= merged_results(all, limit)[i].score_key,
        forall|k: int|
            0 <= k < all.len() && !has_memory(merged_results(all, limit), (#[trigger] all[k]).memory_id)
                ==> merged_results(all, limit).len() == limit && forall|i: int|
                0 <= i < merged_results(all, limit).len() ==> all[k].score_key <= (
                #[trigger] merged_results(all, limit)[i]).score_key,
{
    broadcast use vstd::seq_lib::group_to_multiset_ensures;
    let s = rank_desc(all);
    rank_desc_is_sorted_permutation(all);
    assert(sorted_desc(s)) by {
        assert forall|i: int, j: int| 0 <= i < j < s.len() implies (#[trigger] s[i]).score_key >= (
        #[trigger] s[j]).score_key by {
            assert(s[i].rank() >= s[j].rank());
        }
    }
    lemma_first_per_memory_sorted(s);
    first_per_memory_law(s);
    let d = first_per_memory(s);
    let m = merged_results(all, limit);
    assert forall|i: int| 0 <= i < m.len() implies #[trigger] m[i] == d[i] by {}
    // every hit of `all` is a hit of `s`, and back
    assert forall|k: int| 0 <= k < all.len() implies s.contains(#[trigger] all[k]) by {
        assert(all.contains(all[k]));
        assert(all.to_multiset().count(all[k]) > 0);
    }
    assert forall|k: int| 0 <= k < s.len() implies all.contains(#[trigger] s[k]) by {
        assert(s.contains(s[k]));
        assert(s.to_multiset().count(s[k]) > 0);
    }
    assert forall|i: int| 0 <= i < m.len() implies all.contains(#[trigger] m[i]) by {
        let k = choose|k: int| 0 <= k < s.len() && s[k] == #[trigger] d[i];
        assert(all.contains(s[k]));
    }
    assert forall|i: int, j: int| 0 <= i < j < m.len() implies (#[trigger] m[i]).memory_id != (
    #[trigger] m[j]).memory_id by {
        assert(d[i].memory_id != d[j].memory_id);
    }
    assert forall|i: int, k: int|
        0 <= i < m.len() && 0 <= k < all.len() && (#[trigger] all[k]).memory_id == (
        #[trigger] m[i]).memory_id implies all[k].score_key <= m[i].score_key by {
        assert(s.contains(all[k]));
        let w = choose|w: int| 0 <= w < s.len() && s[w] == all[k];
        assert(s[w].memory_id == d[i].memory_id);
    }
    assert forall|k: int|
        0 <= k < all.len() && !has_memory(m, (#[trigger] all[k]).memory_id) implies m.len() == limit
        && forall|i: int| 0 <= i < m.len() ==> all[k].score_key <= (#[trigger] m[i]).score_key by {
        assert(s.contains(all[k]));
        let w = choose|w: int| 0 <= w < s.len() && s[w] == all[k];
        assert(has_memory(d, s[w].memory_id));
        let j = choose|j: int| 0 <= j < d.len() && d[j].memory_id == s[w].memory_id;
        if d.len() <= limit {
            assert(m == d);
            assert(m[j].memory_id == all[k].memory_id);
        } else {
            assert(m.len() == limit);
            if j < limit {
                assert(m[j] == d[j]);
            }
            assert forall|i: int| 0 <= i < m.len() implies all[k].score_key <= (#[trigger] m[i]).score_key by {
                assert(m[i] == d[i]);
                assert(s[w].score_key <= d[j].score_key);
                assert(d[i].score_key >= d[j].score_key);
            }
        }
    }
}

} // verus!
