//! Administration: eviction runs and the rebuilding of embeddings.
use vstd::prelude::*;
use crate::embedding::EmbeddingError;
use crate::error::AppError;
use crate::status::{EmbeddingStatus, Status};
use crate::text::{push_str, str_eq};

verus! {

/// Request to trigger eviction.
#[derive(Debug, Clone)]
pub struct EvictionRequest {
    /// Owner ID to run eviction for (optional, runs for all if not specified)
    pub owner_id: Option<String>,
    /// Only report what would be evicted
    pub dry_run: bool,
}

/// What an eviction run did.
#[derive(Debug, Clone)]
pub struct EvictionResult {
    pub cooldown_count: usize,
    pub candidate_count: usize,
    pub archived_count: usize,
    pub capacity_limit_reached: bool,
    pub total_affected: usize,
}

/// Response of an eviction run.
#[derive(Debug, Clone)]
pub struct EvictionResponse {
    pub dry_run: bool,
    pub cooldown_count: usize,
    pub candidate_count: usize,
    pub archived_count: usize,
    pub capacity_limit_reached: bool,
    pub total_affected: usize,
}

impl EvictionResponse {
    /// The response for a run that was carried out.
    pub fn from_result(result: EvictionResult) -> (r: EvictionResponse)
        ensures
            !r.dry_run,
            r.cooldown_count == result.cooldown_count,
            r.candidate_count == result.candidate_count,
            r.archived_count == result.archived_count,
            r.capacity_limit_reached == result.capacity_limit_reached,
            r.total_affected == result.total_affected,
    {
        EvictionResponse {
            dry_run: false,
            cooldown_count: result.cooldown_count,
            candidate_count: result.candidate_count,
            archived_count: result.archived_count,
            capacity_limit_reached: result.capacity_limit_reached,
            total_affected: result.total_affected,
        }
    }
}

/// Whom an eviction run or a decay update covers: one owner, or every owner
/// of the profile when the request names none.
#[derive(Debug, Clone)]
pub enum OwnerScope {
    Owner(String),
    AllOwners,
}

/// The scope of a request's optional `owner_id`.
pub fn owner_scope(owner_id: Option<String>) -> (r: OwnerScope)
    ensures
        match owner_id {
            Some(o) => r == OwnerScope::Owner(o),
            None => r is AllOwners,
        },
{
    match owner_id {
        Some(o) => OwnerScope::Owner(o),
        None => OwnerScope::AllOwners,
    }
}

impl OwnerScope {
    /// Whether the scope covers an owner.
    pub open spec fn spec_covers(self, owner: Seq<char>) -> bool {
        match self {
            OwnerScope::Owner(o) => o@ == owner,
            OwnerScope::AllOwners => true,
        }
    }

    /// Whether the scope covers an owner.
    pub fn covers(&self, owner: &str) -> (r: bool)
        ensures
            r == self.spec_covers(owner@),
    {
        match self {
            OwnerScope::Owner(o) => str_eq(o.as_str(), owner),
            OwnerScope::AllOwners => true,
        }
    }

    /// The owners to run for, given the profile's owners: the named owner
    /// alone, or every owner of the profile.
    pub fn owners_to_run(&self, profile_owners: &Vec<String>) -> (r: Vec<String>)
        ensures
            match *self {
                OwnerScope::Owner(o) => r@.len() == 1 && r@[0]@ == o@,
                OwnerScope::AllOwners => r@.len() == profile_owners@.len() && forall|i: int|
                    0 <= i < r@.len() ==> (#[trigger] r@[i])@ == profile_owners@[i]@,
            },
    {
        match self {
            OwnerScope::Owner(o) => vec![o.clone()],
            OwnerScope::AllOwners => {
                let mut r: Vec<String> = Vec::new();
                let mut i: usize = 0;
                while i < profile_owners.len()
                    invariant
                        i <= profile_owners.len(),
                        r@.len() == i,
                        forall|k: int| 0 <= k < i ==> (#[trigger] r@[k])@ == profile_owners@[k]@,
                    decreases profile_owners.len() - i,
                {
                    r.push(profile_owners[i].clone());
                    i += 1;
                }
                r
            },
        }
    }

    /// The owner echoed in a response: the named one, or none for all.
    pub fn owner_id(&self) -> (r: Option<String>)
        ensures
            match *self {
                OwnerScope::Owner(o) => r matches Some(x) && x@ == o@,
                OwnerScope::AllOwners => r is None,
            },
    {
        match self {
            OwnerScope::Owner(o) => Some(o.clone()),
            OwnerScope::AllOwners => None,
        }
    }
}

/// How many of the statuses are `s`.
pub open spec fn count_status(statuses: Seq<Status>, s: Status) -> nat
    decreases statuses.len(),
{
    if statuses.len() == 0 {
        0
    } else {
        count_status(statuses.drop_last(), s) + if statuses.last() == s {
            1nat
        } else {
            0nat
        }
    }
}

/// How many of the statuses are `s`.
fn count_of(statuses: &Vec<Status>, s: Status) -> (n: usize)
    ensures
        n == count_status(statuses@, s),
{
    let mut n: usize = 0;
    let mut i: usize = 0;
    while i < statuses.len()
        invariant
            i <= statuses.len(),
            n == count_status(statuses@.take(i as int), s),
            n <= i,
        decreases statuses.len() - i,
    {
        assert(statuses@.take(i as int + 1).drop_last() =~= statuses@.take(i as int));
        if statuses[i] == s {
            n += 1;
        }
        i += 1;
    }
    assert(statuses@.take(i as int) =~= statuses@);
    n
}

/// The answer of a dry run over the statuses of the eviction candidates:
/// active ones would cool down, cooling ones become candidates, candidates
/// be archived.
pub fn dry_run_response(candidate_statuses: &Vec<Status>) -> (r: EvictionResponse)
    ensures
        r.dry_run,
        r.cooldown_count == count_status(candidate_statuses@, Status::Active),
        r.candidate_count == count_status(candidate_statuses@, Status::Cooldown),
        r.archived_count == count_status(candidate_statuses@, Status::Candidate),
        !r.capacity_limit_reached,
        r.total_affected == candidate_statuses@.len(),
{
    EvictionResponse {
        dry_run: true,
        cooldown_count: count_of(candidate_statuses, Status::Active),
        candidate_count: count_of(candidate_statuses, Status::Cooldown),
        archived_count: count_of(candidate_statuses, Status::Candidate),
        capacity_limit_reached: false,
        total_affected: candidate_statuses.len(),
    }
}

/// How many candidates a dry run looks at.
pub const DRY_RUN_CANDIDATE_LIMIT: i64 = 100;

/// Request to rebuild embeddings.
#[derive(Debug, Clone)]
pub struct RebuildEmbeddingsRequest {
    /// Owner to rebuild for; all owners of the profile when absent
    pub owner_id: Option<String>,
    /// Maximum number of memories to process
    pub limit: Option<usize>,
    /// Include memories whose embedding is still pending
    pub include_pending: bool,
    /// Include memories whose previous embedding attempt failed
    pub include_failed: bool,
}

/// Pending embeddings are rebuilt unless left out.
pub fn default_rebuild_pending() -> (r: bool)
    ensures
        r,
{
    true
}

/// Failed embeddings are rebuilt unless left out.
pub fn default_rebuild_failed() -> (r: bool)
    ensures
        r,
{
    true
}

/// The most memories one rebuild processes.
pub const MAX_REBUILD_LIMIT: usize = 1000;

/// How many memories a rebuild processes when the request gives no limit.
pub const DEFAULT_REBUILD_LIMIT: usize = 100;

impl RebuildEmbeddingsRequest {
    /// The embedding statuses to rebuild: pending, then failed, as asked;
    /// asking for neither is refused.
    pub fn statuses(&self) -> (r: Result<Vec<EmbeddingStatus>, AppError>)
        ensures
            !self.include_pending && !self.include_failed ==> (r matches Err(AppError::Validation(m))
                && m@ == "at least one embedding status must be selected"@),
            self.include_pending || self.include_failed ==> (r matches Ok(v) && v@ == (if self.include_pending {
                seq![EmbeddingStatus::Pending]
            } else {
                Seq::empty()
            }) + (if self.include_failed {
                seq![EmbeddingStatus::Failed]
            } else {
                Seq::empty()
            })),
    {
        let mut statuses: Vec<EmbeddingStatus> = Vec::new();
        if self.include_pending {
            statuses.push(EmbeddingStatus::Pending);
        }
        if self.include_failed {
            statuses.push(EmbeddingStatus::Failed);
        }
        if statuses.len() == 0 {
            return Err(
                AppError::Validation("at least one embedding status must be selected".to_owned()),
            );
        }
        proof {
            assert(statuses@ =~= (if self.include_pending {
                seq![EmbeddingStatus::Pending]
            } else {
                Seq::empty()
            }) + (if self.include_failed {
                seq![EmbeddingStatus::Failed]
            } else {
                Seq::empty()
            }));
        }
        Ok(statuses)
    }

    /// How many memories to process: the requested limit (100 by default),
    /// never more than 1000.
    pub fn effective_limit(&self) -> (r: i64)
        ensures
            r == (match self.limit {
                Some(l) => if l < MAX_REBUILD_LIMIT {
                    l
                } else {
                    MAX_REBUILD_LIMIT
                },
                None => DEFAULT_REBUILD_LIMIT,
            }),
    {
        let l = match self.limit {
            Some(l) => l,
            None => DEFAULT_REBUILD_LIMIT,
        };
        if l < MAX_REBUILD_LIMIT {
            l as i64
        } else {
            MAX_REBUILD_LIMIT as i64
        }
    }
}

/// A memory whose embedding could not be rebuilt.
#[derive(Debug, Clone)]
pub struct RebuildEmbeddingFailure {
    pub memory_id: u128,
    pub error: String,
}

/// How rebuilding one memory went.
#[derive(Debug)]
pub enum RebuildOutcome {
    /// The embedding could not be generated
    EmbeddingFailed(EmbeddingError),
    /// The vector could not be stored, with the store's message
    UpsertFailed(String),
    /// The vector was stored and the memory marked completed
    Stored,
}

/// The embedding status and provider written for a memory once its rebuild
/// is over: `Completed` with the provider whose vector was stored, or
/// `Failed` with no provider.
pub fn status_write(stored: bool, provider: &str) -> (r: (EmbeddingStatus, Option<String>))
    ensures
        stored ==> r.0 == EmbeddingStatus::Completed && (r.1 matches Some(p) && p@ == provider@),
        !stored ==> r.0 == EmbeddingStatus::Failed && r.1 is None,
{
    if stored {
        (EmbeddingStatus::Completed, Some(provider.to_owned()))
    } else {
        (EmbeddingStatus::Failed, None)
    }
}

/// The progress of a rebuild over the selected memories: the memories in
/// the order they were selected, the ones rebuilt and the ones that failed
/// so far, and (as a ghost) whether each memory tried so far was stored.
pub struct RebuildProgress {
    pub selected: Vec<u128>,
    pub rebuilt_memory_ids: Vec<u128>,
    pub failures: Vec<RebuildEmbeddingFailure>,
    pub stored: Ghost<Seq<bool>>,
}

/// The ids among `ids` whose flag is set (`want`), in their order.
pub open spec fn ids_with(ids: Seq<u128>, flags: Seq<bool>, want: bool) -> Seq<u128>
    decreases ids.len(),
{
    if ids.len() == 0 || flags.len() != ids.len() {
        Seq::empty()
    } else {
        ids_with(ids.drop_last(), flags.drop_last(), want) + if flags.last() == want {
            seq![ids.last()]
        } else {
            Seq::empty()
        }
    }
}

/// The memory ids of failures, in their order.
pub open spec fn failure_ids(fs: Seq<RebuildEmbeddingFailure>) -> Seq<u128> {
    fs.map_values(|f: RebuildEmbeddingFailure| f.memory_id)
}

/// The stored and the failed ids of a sequence split it: their counts add
/// up to its length.
pub proof fn ids_with_split(ids: Seq<u128>, flags: Seq<bool>)
    requires
        flags.len() == ids.len(),
    ensures
        ids_with(ids, flags, true).len() + ids_with(ids, flags, false).len() == ids.len(),
    decreases ids.len(),
{
    if ids.len() > 0 {
        ids_with_split(ids.drop_last(), flags.drop_last());
    }
}

/// Response of an embedding rebuild.
#[derive(Debug)]
pub struct RebuildEmbeddingsResponse {
    pub scanned_count: usize,
    pub rebuilt_count: usize,
    pub failed_count: usize,
    pub rebuilt_memory_ids: Vec<u128>,
    pub failures: Vec<RebuildEmbeddingFailure>,
}

/// The failure message for a rebuild outcome.
pub open spec fn failure_message(o: RebuildOutcome) -> Seq<char> {
    match o {
        RebuildOutcome::EmbeddingFailed(e) => "embedding generation failed: "@ + e.spec_message(),
        RebuildOutcome::UpsertFailed(m) => "vector upsert failed: "@ + m@,
        RebuildOutcome::Stored => Seq::empty(),
    }
}

impl RebuildProgress {
    /// How many selected memories were tried so far.
    pub open spec fn tried(self) -> nat {
        self.stored@.len()
    }

    /// The rebuilt ids are the tried memories that were stored and the
    /// failures those that were not, each in selection order.
    pub open spec fn wf(self) -> bool {
        &&& self.tried() <= self.selected@.len()
        &&& self.rebuilt_memory_ids@ == ids_with(
            self.selected@.take(self.tried() as int),
            self.stored@,
            true,
        )
        &&& failure_ids(self.failures@) == ids_with(
            self.selected@.take(self.tried() as int),
            self.stored@,
            false,
        )
    }

    /// Nothing done yet over the selected memories.
    pub fn start(selected: Vec<u128>) -> (p: RebuildProgress)
        ensures
            p.wf(),
            p.selected == selected,
            p.tried() == 0,
    {
        let p = RebuildProgress {
            selected,
            rebuilt_memory_ids: Vec::new(),
            failures: Vec::new(),
            stored: Ghost(Seq::empty()),
        };
        assert(failure_ids(p.failures@) =~= Seq::<u128>::empty());
        p
    }

    /// The next memory to try, if any is left.
    pub fn next_memory(&self) -> (r: Option<u128>)
        requires
            self.wf(),
        ensures
            self.tried() < self.selected@.len() ==> r == Some(self.selected@[self.tried() as int]),
            self.tried() == self.selected@.len() ==> r is None,
    {
        proof {
            let done = self.selected@.take(self.tried() as int);
            assert(done.len() == self.stored@.len());
            ids_with_split(done, self.stored@);
            assert(failure_ids(self.failures@).len() == self.failures@.len());
            assert(self.rebuilt_memory_ids@.len() + self.failures@.len() == self.tried());
        }
        let total = self.selected.len();
        assert(self.rebuilt_memory_ids@.len() + self.failures@.len() <= total);
        let n = self.rebuilt_memory_ids.len() + self.failures.len();
        if n < self.selected.len() {
            Some(self.selected[n])
        } else {
            None
        }
    }

    /// Records how rebuilding the next selected memory went, and says which
    /// embedding status the memory is to be given: `Completed` once its
    /// vector was stored, `Failed` otherwise (with the failure's message).
    pub fn record(&mut self, outcome: RebuildOutcome) -> (status: EmbeddingStatus)
        requires
            old(self).wf(),
            old(self).tried() < old(self).selected@.len(),
        ensures
            final(self).wf(),
            final(self).selected == old(self).selected,
            final(self).stored@ == old(self).stored@.push(outcome is Stored),
            outcome is Stored ==> status == EmbeddingStatus::Completed && final(self).failures@
                == old(self).failures@,
            !(outcome is Stored) ==> status == EmbeddingStatus::Failed
                && final(self).failures@.len() == old(self).failures@.len() + 1
                && final(self).failures@.take(old(self).failures@.len() as int) == old(self).failures@
                && final(self).failures@.last().memory_id == old(self).selected@[old(self).tried() as int]
                && final(self).failures@.last().error@ == failure_message(outcome),
    {
        proof {
            let done = self.selected@.take(self.tried() as int);
            assert(done.len() == self.stored@.len());
            ids_with_split(done, self.stored@);
            assert(failure_ids(self.failures@).len() == self.failures@.len());
            assert(self.rebuilt_memory_ids@.len() + self.failures@.len() == self.tried());
        }
        let total = self.selected.len();
        assert(self.rebuilt_memory_ids@.len() + self.failures@.len() <= total);
        let n = self.rebuilt_memory_ids.len() + self.failures.len();
        let memory_id = self.selected[n];
        let ghost t = self.tried() as int;
        let ghost sel = self.selected@;
        let ghost old_fails = self.failures@;
        let ghost stored_now = outcome is Stored;
        let status = match outcome {
            RebuildOutcome::Stored => {
                self.rebuilt_memory_ids.push(memory_id);
                EmbeddingStatus::Completed
            },
            RebuildOutcome::EmbeddingFailed(e) => {
                let mut error = "embedding generation failed: ".to_owned();
                push_str(&mut error, e.to_string().as_str());
                self.failures.push(RebuildEmbeddingFailure { memory_id, error });
                EmbeddingStatus::Failed
            },
            RebuildOutcome::UpsertFailed(m) => {
                let mut error = "vector upsert failed: ".to_owned();
                push_str(&mut error, m.as_str());
                self.failures.push(RebuildEmbeddingFailure { memory_id, error });
                EmbeddingStatus::Failed
            },
        };
        proof {
            self.stored@ = self.stored@.push(stored_now);
            assert(sel.take(t + 1).drop_last() =~= sel.take(t));
            assert(self.stored@.drop_last() =~= old(self).stored@);
            assert(sel.take(t + 1).last() == memory_id);
            assert(self.stored@.last() == stored_now);
            assert(self.tried() == t + 1);
            assert(sel.take(t + 1).len() == self.stored@.len());
            assert(ids_with(sel.take(t + 1), self.stored@, true) == ids_with(sel.take(t), old(self).stored@, true) + if stored_now {
                seq![memory_id]
            } else {
                Seq::<u128>::empty()
            });
            assert(ids_with(sel.take(t + 1), self.stored@, false) == ids_with(sel.take(t), old(self).stored@, false) + if !stored_now {
                seq![memory_id]
            } else {
                Seq::<u128>::empty()
            });
            assert(self.failures@.take(old_fails.len() as int) =~= old_fails);
            if stored_now {
                assert(self.rebuilt_memory_ids@ =~= old(self).rebuilt_memory_ids@ + seq![memory_id]);
                assert(self.failures@ == old_fails);
            } else {
                assert(self.rebuilt_memory_ids@ =~= old(self).rebuilt_memory_ids@ + Seq::<u128>::empty());
            }
            assert(self.selected@.take(self.tried() as int) == sel.take(t + 1));
            assert(failure_ids(self.failures@) =~= if stored_now {
                failure_ids(old_fails)
            } else {
                failure_ids(old_fails).push(memory_id)
            });
            assert(self.tried() <= self.selected@.len());
            assert(self.rebuilt_memory_ids@ == ids_with(self.selected@.take(self.tried() as int), self.stored@, true));
            assert(failure_ids(self.failures@) == ids_with(self.selected@.take(self.tried() as int), self.stored@, false));
        }
        status
    }

    /// The response once every selected memory was tried: as many scanned as
    /// selected, split into the rebuilt and the failed ones.
    pub fn finish(self) -> (r: RebuildEmbeddingsResponse)
        requires
            self.wf(),
            self.tried() == self.selected@.len(),
        ensures
            r.scanned_count == self.selected@.len(),
            r.scanned_count == r.rebuilt_count + r.failed_count,
            r.rebuilt_count == r.rebuilt_memory_ids@.len(),
            r.failed_count == r.failures@.len(),
            r.rebuilt_memory_ids@ == ids_with(self.selected@, self.stored@, true),
            failure_ids(r.failures@) == ids_with(self.selected@, self.stored@, false),
            r.failures == self.failures,
    {
        proof {
            assert(self.selected@.take(self.tried() as int) =~= self.selected@);
            ids_with_split(self.selected@, self.stored@);
            assert(failure_ids(self.failures@).len() == self.failures@.len());
        }
        let rebuilt_count = self.rebuilt_memory_ids.len();
        let failed_count = self.failures.len();
        RebuildEmbeddingsResponse {
            scanned_count: self.selected.len(),
            rebuilt_count,
            failed_count,
            rebuilt_memory_ids: self.rebuilt_memory_ids,
            failures: self.failures,
        }
    }
}

} // verus!
