//! Memory layers: lifecycle tiers with their TTL and cooldown rules.
use vstd::prelude::*;

verus! {

/// Memory layer determining lifecycle and TTL behavior.
#[derive(Debug, Clone, Copy, PartialEq, Eq, Hash, Structural)]
pub enum Layer {
    /// Short-lived memories, typically minute-level TTL (default: 1 hour)
    Session,
    /// Medium-lived memories, typically day-level TTL (default: 7 days)
    Task,
    /// Long-lived memories, no automatic expiry, requires manual confirmation
    LongTerm,
}

/// One hour, in seconds.
pub const SESSION_TTL_SECONDS: i64 = 3600;

/// Seven days, in seconds.
pub const TASK_TTL_SECONDS: i64 = 604800;

/// One day, in seconds.
pub const SESSION_COOLDOWN_SECONDS: i64 = 86400;

/// Thirty days, in seconds.
pub const LONG_TERM_COOLDOWN_SECONDS: i64 = 2592000;

impl Layer {
    /// The default TTL of the layer; long-term memories never expire.
    pub open spec fn spec_default_ttl_seconds(self) -> Option<i64> {
        match self {
            Layer::Session => Some(SESSION_TTL_SECONDS),
            Layer::Task => Some(TASK_TTL_SECONDS),
            Layer::LongTerm => None,
        }
    }

    /// The inactivity after which a memory of the layer cools down.
    pub open spec fn spec_cooldown_threshold_seconds(self) -> i64 {
        match self {
            Layer::Session => SESSION_COOLDOWN_SECONDS,
            Layer::Task => TASK_TTL_SECONDS,
            Layer::LongTerm => LONG_TERM_COOLDOWN_SECONDS,
        }
    }

    /// The snake_case name of the layer.
    pub open spec fn spec_name(self) -> Seq<char> {
        match self {
            Layer::Session => "session"@,
            Layer::Task => "task"@,
            Layer::LongTerm => "long_term"@,
        }
    }

    /// Long-term memories cannot be created directly and require manual confirmation.
    pub fn allows_direct_creation(&self) -> (r: bool)
        ensures
            r == !(*self is LongTerm),
    {
        match self {
            Layer::LongTerm => false,
            _ => true,
        }
    }

    /// The default TTL in seconds for this layer; `None` for long-term memories.
    pub fn default_ttl_seconds(&self) -> (r: Option<i64>)
        ensures
            r == self.spec_default_ttl_seconds(),
    {
        match self {
            Layer::Session => Some(SESSION_TTL_SECONDS),
            Layer::Task => Some(TASK_TTL_SECONDS),
            Layer::LongTerm => None,
        }
    }

    /// The cooldown threshold in seconds for this layer.
    pub fn cooldown_threshold_seconds(&self) -> (r: i64)
        ensures
            r == self.spec_cooldown_threshold_seconds(),
    {
        match self {
            Layer::Session => SESSION_COOLDOWN_SECONDS,
            Layer::Task => TASK_TTL_SECONDS,
            Layer::LongTerm => LONG_TERM_COOLDOWN_SECONDS,
        }
    }

    /// The snake_case name of the layer.
    pub fn as_str(&self) -> (s: &'static str)
        ensures
            s@ == self.spec_name(),
    {
        match self {
            Layer::Session => "session",
            Layer::Task => "task",
            Layer::LongTerm => "long_term",
        }
    }

    /// The display text of the layer.
    pub fn to_string(&self) -> (s: String)
        ensures
            s@ == self.spec_name(),
    {
        self.as_str().to_owned()
    }
}

/// The layers get longer-lived from session to task to long-term: each one
/// expires no sooner and cools down no sooner than the one before it.
pub proof fn layer_lifetimes_are_ordered()
    ensures
        Layer::Session.spec_default_ttl_seconds()->0 < Layer::Task.spec_default_ttl_seconds()->0,
        Layer::LongTerm.spec_default_ttl_seconds() is None,
        Layer::Session.spec_cooldown_threshold_seconds()
            < Layer::Task.spec_cooldown_threshold_seconds(),
        Layer::Task.spec_cooldown_threshold_seconds()
            < Layer::LongTerm.spec_cooldown_threshold_seconds(),
        forall|l: Layer| #[trigger] l.spec_default_ttl_seconds() matches Some(t) ==> t > 0,
{
}

} // verus!
