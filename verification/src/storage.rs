//! How failures of the database are reported: unique-constraint violations
//! that mean "already exists", and rows that were not found.
use vstd::prelude::*;
use crate::error::AppError;
use crate::ids::{uuid_text, uuid_to_string};
use crate::text::{
    char_views, chars_of, is_blank, is_blank_str, push_str, split_chars, split_text, str_eq,
    string_of_chars, trim, trimmed_chars,
};

verus! {

/// A failed database operation: the violated constraint, when the database
/// named one, and the failure's message.
#[derive(Debug, Clone)]
pub struct DbFailure {
    pub constraint: Option<String>,
    pub message: String,
}

/// Whether the failure violated the named constraint.
pub open spec fn violates(f: DbFailure, constraint: Seq<char>) -> bool {
    f.constraint matches Some(c) && c@ == constraint
}

fn violated(f: &DbFailure, constraint: &str) -> (r: bool)
    ensures
        r == violates(*f, constraint@),
{
    match &f.constraint {
        Some(c) => str_eq(c.as_str(), constraint),
        None => false,
    }
}

/// The error for a failed profile insert: a second profile with the same
/// name is a validation error, anything else a database error.
pub fn profile_insert_error(f: DbFailure) -> (e: AppError)
    ensures
        violates(f, "idx_system_profiles_name"@) ==> (e matches AppError::Validation(m) && m@
            == "System profile already exists. Use update instead."@),
        !violates(f, "idx_system_profiles_name"@) ==> e == AppError::Database(f.message),
{
    if violated(&f, "idx_system_profiles_name") {
        AppError::Validation("System profile already exists. Use update instead.".to_owned())
    } else {
        AppError::Database(f.message)
    }
}

/// The error for a failed structured-event insert: an event has at most one
/// structured event.
pub fn structured_event_insert_error(f: DbFailure, event_id: u128) -> (e: AppError)
    ensures
        violates(f, "structured_events_event_id_key"@) ==> (e matches AppError::Validation(m) && m@
            == "Structured event already exists for event_id: "@ + uuid_text(event_id)),
        !violates(f, "structured_events_event_id_key"@) ==> e == AppError::Database(f.message),
{
    if violated(&f, "structured_events_event_id_key") {
        let mut m = "Structured event already exists for event_id: ".to_owned();
        push_str(&mut m, uuid_to_string(event_id).as_str());
        AppError::Validation(m)
    } else {
        AppError::Database(f.message)
    }
}

/// A row looked up by id, or the not-found error for that event.
pub fn event_or_not_found<T>(row: Option<T>, id: u128) -> (r: Result<T, AppError>)
    ensures
        match row {
            Some(t) => r == Ok::<T, AppError>(t),
            None => r == Err::<T, AppError>(AppError::EventNotFound(id)),
        },
{
    match row {
        Some(t) => Ok(t),
        None => Err(AppError::EventNotFound(id)),
    }
}

/// A memory looked up by id, or the not-found error for that memory.
pub fn memory_or_not_found<T>(row: Option<T>, id: u128) -> (r: Result<T, AppError>)
    ensures
        match row {
            Some(t) => r == Ok::<T, AppError>(t),
            None => r == Err::<T, AppError>(AppError::MemoryNotFound(id)),
        },
{
    match row {
        Some(t) => Ok(t),
        None => Err(AppError::MemoryNotFound(id)),
    }
}

/// The event reset for a retry, or the refusal: only a failed event of the
/// profile can be retried.
pub fn retry_reset_result<T>(row: Option<T>) -> (r: Result<T, AppError>)
    ensures
        match row {
            Some(t) => r == Ok::<T, AppError>(t),
            None => r matches Err(AppError::Validation(m)) && m@
                == "event is not failed or does not belong to the requested system profile"@,
        },
{
    match row {
        Some(t) => Ok(t),
        None => Err(
            AppError::Validation(
                "event is not failed or does not belong to the requested system profile".to_owned(),
            ),
        ),
    }
}

/// The updated profile, or the refusal when there is no profile to update.
pub fn profile_update_result<T>(row: Option<T>) -> (r: Result<T, AppError>)
    ensures
        match row {
            Some(t) => r == Ok::<T, AppError>(t),
            None => r matches Err(AppError::Validation(m)) && m@
                == "System profile not found. Initialize first."@,
        },
{
    match row {
        Some(t) => Ok(t),
        None => Err(AppError::Validation("System profile not found. Initialize first.".to_owned())),
    }
}

/// Options for full-text search.
#[derive(Debug, Clone)]
pub struct FullTextSearchOptions {
    /// Whether to return highlighted snippets
    pub highlight: bool,
    /// Maximum number of results
    pub limit: Option<usize>,
}

impl Default for FullTextSearchOptions {
    fn default() -> (o: Self)
        ensures
            !o.highlight,
            o.limit is None,
    {
        FullTextSearchOptions { highlight: false, limit: None }
    }
}

/// The row limit of a full-text search: the requested limit (100 by
/// default), never more than 1000.
pub open spec fn spec_fulltext_limit(limit: Option<usize>) -> int {
    match limit {
        Some(l) => if l < 1000 {
            l as int
        } else {
            1000
        },
        None => 100,
    }
}

/// Whether a full-text search runs, and with how many rows: a blank query
/// matches nothing and is not run.
pub fn fulltext_plan(query: &str, options: &FullTextSearchOptions) -> (r: Option<i64>)
    ensures
        is_blank(query@) ==> r is None,
        !is_blank(query@) ==> r == Some(spec_fulltext_limit(options.limit) as i64),
{
    if is_blank_str(query) {
        return None;
    }
    let l = match options.limit {
        Some(l) => l,
        None => 100,
    };
    if l < 1000 {
        Some(l as i64)
    } else {
        Some(1000)
    }
}

/// The trimmed pieces that are not empty, in order.
pub open spec fn kept_pieces(pieces: Seq<Seq<char>>) -> Seq<Seq<char>>
    decreases pieces.len(),
{
    if pieces.len() == 0 {
        Seq::empty()
    } else {
        kept_pieces(pieces.drop_last()) + if trim(pieces.last()).len() > 0 {
            seq![trim(pieces.last())]
        } else {
            Seq::empty()
        }
    }
}

/// The highlights of a full-text headline: its fragments between ` ... `,
/// trimmed, the empty ones dropped.
pub open spec fn spec_highlights(headline: Seq<char>) -> Seq<Seq<char>> {
    kept_pieces(split_text(headline, " ... "@))
}

/// The views of a list of texts.
pub open spec fn string_views(vs: Seq<String>) -> Seq<Seq<char>> {
    vs.map_values(|v: String| v@)
}

/// Splits a full-text headline into highlights; no headline gives none.
pub fn highlights_from_headline(headline: Option<String>) -> (r: Option<Vec<String>>)
    ensures
        match headline {
            None => r is None,
            Some(h) => r matches Some(v) && string_views(v@) == spec_highlights(h@),
        },
{
    match headline {
        None => None,
        Some(h) => {
            let cs = chars_of(h.as_str());
            let sep = chars_of(" ... ");
            proof {
                reveal_strlit(" ... ");
            }
            let pieces = split_chars(&cs, &sep);
            let ghost ps = char_views(pieces@);
            let mut out: Vec<String> = Vec::new();
            let mut i: usize = 0;
            while i < pieces.len()
                invariant
                    i <= pieces@.len(),
                    ps == char_views(pieces@),
                    string_views(out@) == kept_pieces(ps.take(i as int)),
                decreases pieces.len() - i,
            {
                let t = trimmed_chars(&pieces[i]);
                proof {
                    assert(ps.take(i as int + 1).drop_last() =~= ps.take(i as int));
                    assert(ps.take(i as int + 1).last() == pieces@[i as int]@);
                }
                let ghost before = string_views(out@);
                if t.len() > 0 {
                    let piece = string_of_chars(&t);
                    out.push(piece);
                    assert(string_views(out@) =~= before + seq![t@]);
                } else {
                    assert(before + Seq::<Seq<char>>::empty() =~= before);
                }
                i += 1;
            }
            assert(ps.take(pieces@.len() as int) =~= ps);
            Some(out)
        },
    }
}

} // verus!
