//! Scope types: who a memory belongs to.
use vstd::prelude::*;
use crate::text::{str_eq, to_unicode_lower, unicode_lowercase};

verus! {

/// Memory scope type determining ownership.
#[derive(Debug, Clone, Copy, PartialEq, Eq, Hash, Structural)]
pub enum ScopeType {
    /// Memory belongs to a specific user
    User,
    /// Memory belongs to an organization
    Org,
    /// Memory belongs to a project
    Project,
    /// Memory belongs to a specific task
    Task,
    /// Memory belongs to a session
    Session,
}

impl ScopeType {
    /// The snake_case name of the scope type.
    pub open spec fn spec_name(self) -> Seq<char> {
        match self {
            ScopeType::User => "user"@,
            ScopeType::Org => "org"@,
            ScopeType::Project => "project"@,
            ScopeType::Task => "task"@,
            ScopeType::Session => "session"@,
        }
    }

    /// The scope type whose name is exactly `s`.
    pub open spec fn spec_from_name(s: Seq<char>) -> Option<ScopeType> {
        if s == "user"@ {
            Some(ScopeType::User)
        } else if s == "org"@ {
            Some(ScopeType::Org)
        } else if s == "project"@ {
            Some(ScopeType::Project)
        } else if s == "task"@ {
            Some(ScopeType::Task)
        } else if s == "session"@ {
            Some(ScopeType::Session)
        } else {
            None
        }
    }

    /// All valid scope types, in declaration order.
    pub fn all() -> (r: Vec<ScopeType>)
        ensures
            r@ == seq![
                ScopeType::User,
                ScopeType::Org,
                ScopeType::Project,
                ScopeType::Task,
                ScopeType::Session,
            ],
    {
        vec![ScopeType::User, ScopeType::Org, ScopeType::Project, ScopeType::Task, ScopeType::Session]
    }

    /// The scope type named by an already lowercased text.
    pub fn from_lowercase_name(t: &str) -> (r: Option<ScopeType>)
        ensures
            r == Self::spec_from_name(t@),
    {
        if str_eq(t, "user") {
            Some(ScopeType::User)
        } else if str_eq(t, "org") {
            Some(ScopeType::Org)
        } else if str_eq(t, "project") {
            Some(ScopeType::Project)
        } else if str_eq(t, "task") {
            Some(ScopeType::Task)
        } else if str_eq(t, "session") {
            Some(ScopeType::Session)
        } else {
            None
        }
    }

    /// Parses a scope type name case-insensitively, `None` for unknown names.
    pub fn from_str(s: &str) -> (r: Option<ScopeType>)
        ensures
            r == Self::spec_from_name(unicode_lowercase(s@)),
    {
        let lower = to_unicode_lower(s);
        Self::from_lowercase_name(lower.as_str())
    }

    /// The snake_case name of the scope type.
    pub fn as_str(&self) -> (s: &'static str)
        ensures
            s@ == self.spec_name(),
    {
        match self {
            ScopeType::User => "user",
            ScopeType::Org => "org",
            ScopeType::Project => "project",
            ScopeType::Task => "task",
            ScopeType::Session => "session",
        }
    }

    /// The display text of the scope type.
    pub fn to_string(&self) -> (s: String)
        ensures
            s@ == self.spec_name(),
    {
        self.as_str().to_owned()
    }
}

/// Every scope type's name reads back as that scope type.
pub proof fn scope_name_round_trip(t: ScopeType)
    ensures
        ScopeType::spec_from_name(t.spec_name()) == Some(t),
{
    reveal_strlit("user");
    reveal_strlit("org");
    reveal_strlit("project");
    reveal_strlit("task");
    reveal_strlit("session");
    assert("task"@[0] != "user"@[0]);
    assert("project"@[0] != "session"@[0]);
}

} // verus!
