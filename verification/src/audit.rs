//! Audit log: operations recorded against memories, entries, and the
//! parameters of an audit query.
use vstd::prelude::*;
use crate::json::JsonValue;
use crate::text::{str_eq, to_unicode_lower, unicode_lowercase};

verus! {

/// Audit operation type.
#[derive(Debug, Clone, Copy, PartialEq, Eq, Structural)]
pub enum AuditOperation {
    /// Memory created
    Create,
    /// Memory updated
    Update,
    /// Memory deleted (archived)
    Delete,
    /// Memory status changed
    StatusChange,
    /// Memory hit recorded
    Hit,
}

impl AuditOperation {
    /// The snake_case name of the operation.
    pub open spec fn spec_name(self) -> Seq<char> {
        match self {
            AuditOperation::Create => "create"@,
            AuditOperation::Update => "update"@,
            AuditOperation::Delete => "delete"@,
            AuditOperation::StatusChange => "status_change"@,
            AuditOperation::Hit => "hit"@,
        }
    }

    /// The operation whose name is exactly `t`.
    pub open spec fn spec_from_name(t: Seq<char>) -> Option<AuditOperation> {
        if t == "create"@ {
            Some(AuditOperation::Create)
        } else if t == "update"@ {
            Some(AuditOperation::Update)
        } else if t == "delete"@ {
            Some(AuditOperation::Delete)
        } else if t == "status_change"@ {
            Some(AuditOperation::StatusChange)
        } else if t == "hit"@ {
            Some(AuditOperation::Hit)
        } else {
            None
        }
    }

    /// The snake_case name of the operation.
    pub fn as_str(&self) -> (s: &'static str)
        ensures
            s@ == self.spec_name(),
    {
        match self {
            AuditOperation::Create => "create",
            AuditOperation::Update => "update",
            AuditOperation::Delete => "delete",
            AuditOperation::StatusChange => "status_change",
            AuditOperation::Hit => "hit",
        }
    }

    /// The display text of the operation.
    pub fn to_string(&self) -> (s: String)
        ensures
            s@ == self.spec_name(),
    {
        self.as_str().to_owned()
    }

    /// The operation named by an already lowercased text.
    pub fn from_lowercase_name(t: &str) -> (r: Option<AuditOperation>)
        ensures
            r == Self::spec_from_name(t@),
    {
        if str_eq(t, "create") {
            Some(AuditOperation::Create)
        } else if str_eq(t, "update") {
            Some(AuditOperation::Update)
        } else if str_eq(t, "delete") {
            Some(AuditOperation::Delete)
        } else if str_eq(t, "status_change") {
            Some(AuditOperation::StatusChange)
        } else if str_eq(t, "hit") {
            Some(AuditOperation::Hit)
        } else {
            None
        }
    }

    /// Parses an operation name case-insensitively, `None` for unknown names.
    pub fn from_str(s: &str) -> (r: Option<AuditOperation>)
        ensures
            r == Self::spec_from_name(unicode_lowercase(s@)),
    {
        let lower = to_unicode_lower(s);
        Self::from_lowercase_name(lower.as_str())
    }
}

/// Audit log entry.
#[derive(Debug)]
pub struct AuditLogEntry {
    pub id: u128,
    /// System profile ID this entry belongs to
    pub profile_id: u128,
    /// Memory ID this entry relates to
    pub memory_id: u128,
    /// Operation type, by name
    pub operation: String,
    /// Actor who performed the operation (optional)
    pub actor_id: Option<String>,
    /// Previous value (for updates)
    pub old_value: Option<JsonValue>,
    /// New value (for creates and updates)
    pub new_value: Option<JsonValue>,
    /// Reason for the operation (optional)
    pub reason: Option<String>,
    /// Timestamp of the operation (milliseconds since the epoch)
    pub created_at: i64,
}

/// Query parameters for audit log retrieval.
#[derive(Debug, Clone)]
pub struct AuditQueryParams {
    pub profile_id: u128,
    pub memory_id: Option<u128>,
    pub start_time: Option<i64>,
    pub end_time: Option<i64>,
    pub operation: Option<AuditOperation>,
    pub limit: Option<i64>,
    pub offset: Option<i64>,
}

/// The page size used when a query gives none.
pub const DEFAULT_AUDIT_LIMIT: i64 = 100;

impl AuditQueryParams {
    /// The page size and offset that a query runs with: 100 and 0 unless given.
    pub fn page(&self) -> (r: (i64, i64))
        ensures
            r.0 == (match self.limit {
                Some(l) => l,
                None => DEFAULT_AUDIT_LIMIT,
            }),
            r.1 == (match self.offset {
                Some(o) => o,
                None => 0,
            }),
    {
        let limit = match self.limit {
            Some(l) => l,
            None => DEFAULT_AUDIT_LIMIT,
        };
        let offset = match self.offset {
            Some(o) => o,
            None => 0,
        };
        (limit, offset)
    }

    /// The operation name the query filters on, if any.
    pub fn operation_name(&self) -> (r: Option<String>)
        ensures
            match self.operation {
                Some(op) => r matches Some(s) && s@ == op.spec_name(),
                None => r is None,
            },
    {
        match self.operation {
            Some(op) => Some(op.to_string()),
            None => None,
        }
    }
}

/// An audit query request as the HTTP query string gives it.
#[derive(Debug, Clone)]
pub struct AuditQueryRequest {
    pub memory_id: Option<u128>,
    pub start_time: Option<i64>,
    pub end_time: Option<i64>,
    pub operation: Option<String>,
    pub limit: Option<i64>,
    pub offset: Option<i64>,
}

impl AuditQueryRequest {
    /// The query parameters for a profile; an unknown operation name means
    /// no operation filter.
    pub fn into_query_params(self, profile_id: u128) -> (p: AuditQueryParams)
        ensures
            p.profile_id == profile_id,
            p.memory_id == self.memory_id,
            p.start_time == self.start_time,
            p.end_time == self.end_time,
            p.operation == (match self.operation {
                Some(op) => AuditOperation::spec_from_name(unicode_lowercase(op@)),
                None => None,
            }),
            p.limit == self.limit,
            p.offset == self.offset,
    {
        let operation = match &self.operation {
            Some(op) => AuditOperation::from_str(op.as_str()),
            None => None,
        };
        AuditQueryParams {
            profile_id,
            memory_id: self.memory_id,
            start_time: self.start_time,
            end_time: self.end_time,
            operation,
            limit: self.limit,
            offset: self.offset,
        }
    }
}

/// Every operation's name reads back as that operation.
pub proof fn audit_operation_round_trip(op: AuditOperation)
    ensures
        AuditOperation::spec_from_name(op.spec_name()) == Some(op),
{
    reveal_strlit("create");
    reveal_strlit("update");
    reveal_strlit("delete");
    reveal_strlit("status_change");
    reveal_strlit("hit");
    assert("update"@[0] != "create"@[0]);
    assert("delete"@[0] != "create"@[0]);
    assert("delete"@[0] != "update"@[0]);
    assert("update"@ != "create"@);
    assert("delete"@ != "create"@);
    assert("delete"@ != "update"@);
    assert("status_change"@.len() != "create"@.len());
    assert("hit"@.len() != "create"@.len());
}

} // verus!
