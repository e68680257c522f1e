//! Status enums: memory lifecycle status, embedding and processing status,
//! memory category, inference type and processing mode.
use vstd::prelude::*;
use crate::text::{push_str, str_eq, to_unicode_lower, unicode_lowercase};

verus! {

/// Memory lifecycle status.
#[derive(Debug, Clone, Copy, PartialEq, Eq, Hash, Structural)]
pub enum Status {
    /// Active and participates in retrieval
    Active,
    /// Cooling down due to inactivity
    Cooldown,
    /// Candidate for eviction
    Candidate,
    /// Superseded by a newer version
    Superseded,
    /// Archived (evicted or manually archived)
    Archived,
}

impl Status {
    /// Whether a memory in this status may appear in retrieval results.
    pub open spec fn spec_is_retrievable(self) -> bool {
        self is Active || self is Cooldown
    }

    /// Whether a memory in this status is left out of all retrieval.
    pub open spec fn spec_is_excluded(self) -> bool {
        self is Candidate || self is Superseded || self is Archived
    }

    /// Check if this status allows the memory to be included in retrieval results
    pub fn is_retrievable(&self) -> (r: bool)
        ensures
            r == self.spec_is_retrievable(),
    {
        match self {
            Status::Active | Status::Cooldown => true,
            _ => false,
        }
    }

    /// Check if this status should apply a penalty to retrieval score
    pub fn has_retrieval_penalty(&self) -> (r: bool)
        ensures
            r == (*self is Cooldown),
    {
        match self {
            Status::Cooldown => true,
            _ => false,
        }
    }

    /// Check if this status is excluded from all retrieval
    pub fn is_excluded(&self) -> (r: bool)
        ensures
            r == self.spec_is_excluded(),
    {
        match self {
            Status::Candidate | Status::Superseded | Status::Archived => true,
            _ => false,
        }
    }

    /// Check if this is a current version status (not superseded)
    pub fn is_current(&self) -> (r: bool)
        ensures
            r == !(*self is Superseded),
    {
        match self {
            Status::Superseded => false,
            _ => true,
        }
    }

    /// The snake_case name of the status.
    pub open spec fn spec_name(self) -> Seq<char> {
        match self {
            Status::Active => "active"@,
            Status::Cooldown => "cooldown"@,
            Status::Candidate => "candidate"@,
            Status::Superseded => "superseded"@,
            Status::Archived => "archived"@,
        }
    }

    /// The snake_case name of the status.
    pub fn as_str(&self) -> (s: &'static str)
        ensures
            s@ == self.spec_name(),
    {
        match self {
            Status::Active => "active",
            Status::Cooldown => "cooldown",
            Status::Candidate => "candidate",
            Status::Superseded => "superseded",
            Status::Archived => "archived",
        }
    }

    /// The display text of the status.
    pub fn to_string(&self) -> (s: String)
        ensures
            s@ == self.spec_name(),
    {
        self.as_str().to_owned()
    }
}

impl Default for Status {
    fn default() -> (s: Self)
        ensures
            s == Status::Active,
    {
        Status::Active
    }
}

/// Embedding generation status.
#[derive(Debug, Clone, Copy, PartialEq, Eq, Hash, Structural)]
pub enum EmbeddingStatus {
    /// Embedding generation pending
    Pending,
    /// Embedding successfully generated
    Completed,
    /// Embedding generation failed after retries
    Failed,
}

impl EmbeddingStatus {
    /// The snake_case name of the status.
    pub open spec fn spec_name(self) -> Seq<char> {
        match self {
            EmbeddingStatus::Pending => "pending"@,
            EmbeddingStatus::Completed => "completed"@,
            EmbeddingStatus::Failed => "failed"@,
        }
    }

    /// The snake_case name of the status.
    pub fn as_str(&self) -> (s: &'static str)
        ensures
            s@ == self.spec_name(),
    {
        match self {
            EmbeddingStatus::Pending => "pending",
            EmbeddingStatus::Completed => "completed",
            EmbeddingStatus::Failed => "failed",
        }
    }

    /// The display text of the status.
    pub fn to_string(&self) -> (s: String)
        ensures
            s@ == self.spec_name(),
    {
        self.as_str().to_owned()
    }
}

impl Default for EmbeddingStatus {
    fn default() -> (s: Self)
        ensures
            s == EmbeddingStatus::Pending,
    {
        EmbeddingStatus::Pending
    }
}

/// LLM processing status.
#[derive(Debug, Clone, Copy, PartialEq, Eq, Hash, Structural)]
pub enum ProcessingStatus {
    /// Waiting for LLM processing
    Pending,
    /// Currently claimed by a worker or request.
    Processing,
    /// LLM processing completed successfully
    Completed,
    /// LLM processing failed
    Failed,
    /// LLM processing was skipped (not requested)
    Skipped,
}

impl ProcessingStatus {
    /// The snake_case name of the status.
    pub open spec fn spec_name(self) -> Seq<char> {
        match self {
            ProcessingStatus::Pending => "pending"@,
            ProcessingStatus::Processing => "processing"@,
            ProcessingStatus::Completed => "completed"@,
            ProcessingStatus::Failed => "failed"@,
            ProcessingStatus::Skipped => "skipped"@,
        }
    }

    /// The snake_case name of the status.
    pub fn as_str(&self) -> (s: &'static str)
        ensures
            s@ == self.spec_name(),
    {
        match self {
            ProcessingStatus::Pending => "pending",
            ProcessingStatus::Processing => "processing",
            ProcessingStatus::Completed => "completed",
            ProcessingStatus::Failed => "failed",
            ProcessingStatus::Skipped => "skipped",
        }
    }

    /// The display text of the status.
    pub fn to_string(&self) -> (s: String)
        ensures
            s@ == self.spec_name(),
    {
        self.as_str().to_owned()
    }
}

impl Default for ProcessingStatus {
    fn default() -> (s: Self)
        ensures
            s == ProcessingStatus::Skipped,
    {
        ProcessingStatus::Skipped
    }
}

/// Memory category for classification.
#[derive(Debug, Clone, Copy, PartialEq, Eq, Hash, Structural)]
pub enum MemoryCategory {
    /// User preferences
    UserPreference,
    /// Behavior patterns
    BehaviorPattern,
    /// Business rules
    BusinessRule,
    /// Factual knowledge
    FactualKnowledge,
    /// Other category
    Other,
}

impl MemoryCategory {
    /// The snake_case name of the category.
    pub open spec fn spec_name(self) -> Seq<char> {
        match self {
            MemoryCategory::UserPreference => "user_preference"@,
            MemoryCategory::BehaviorPattern => "behavior_pattern"@,
            MemoryCategory::BusinessRule => "business_rule"@,
            MemoryCategory::FactualKnowledge => "factual_knowledge"@,
            MemoryCategory::Other => "other"@,
        }
    }

    /// The category that a lowercased name denotes, if any.
    pub open spec fn spec_from_lower(t: Seq<char>) -> Option<MemoryCategory> {
        if t == "user_preference"@ || t == "userpreference"@ {
            Some(MemoryCategory::UserPreference)
        } else if t == "behavior_pattern"@ || t == "behaviorpattern"@ {
            Some(MemoryCategory::BehaviorPattern)
        } else if t == "business_rule"@ || t == "businessrule"@ {
            Some(MemoryCategory::BusinessRule)
        } else if t == "factual_knowledge"@ || t == "factualknowledge"@ {
            Some(MemoryCategory::FactualKnowledge)
        } else if t == "other"@ {
            Some(MemoryCategory::Other)
        } else {
            None
        }
    }

    /// The snake_case name of the category.
    pub fn as_str(&self) -> (s: &'static str)
        ensures
            s@ == self.spec_name(),
    {
        match self {
            MemoryCategory::UserPreference => "user_preference",
            MemoryCategory::BehaviorPattern => "behavior_pattern",
            MemoryCategory::BusinessRule => "business_rule",
            MemoryCategory::FactualKnowledge => "factual_knowledge",
            MemoryCategory::Other => "other",
        }
    }

    /// The display text of the category.
    pub fn to_string(&self) -> (s: String)
        ensures
            s@ == self.spec_name(),
    {
        self.as_str().to_owned()
    }

    /// The value named by an already lowercased text.
    pub fn from_lowercase_name(t: &str) -> (r: Option<MemoryCategory>)
        ensures
            r == Self::spec_from_lower(t@),
    {
        if str_eq(t, "user_preference") || str_eq(t, "userpreference") {
            Some(MemoryCategory::UserPreference)
        } else if str_eq(t, "behavior_pattern") || str_eq(t, "behaviorpattern") {
            Some(MemoryCategory::BehaviorPattern)
        } else if str_eq(t, "business_rule") || str_eq(t, "businessrule") {
            Some(MemoryCategory::BusinessRule)
        } else if str_eq(t, "factual_knowledge") || str_eq(t, "factualknowledge") {
            Some(MemoryCategory::FactualKnowledge)
        } else if str_eq(t, "other") {
            Some(MemoryCategory::Other)
        } else {
            None
        }
    }

    /// Parses a category name, case-insensitively; unknown names are refused
    /// with the message `Unknown memory category: <name>`.
    pub fn parse(s: &str) -> (r: Result<MemoryCategory, String>)
        ensures
            match Self::spec_from_lower(unicode_lowercase(s@)) {
                Some(c) => r == Ok::<MemoryCategory, String>(c),
                None => r is Err && r->Err_0@ == "Unknown memory category: "@ + s@,
            },
    {
        let lower = to_unicode_lower(s);
        match Self::from_lowercase_name(lower.as_str()) {
            Some(c) => Ok(c),
            None => Err(prefixed_message("Unknown memory category: ", s)),
        }
    }
}

/// A message made of a fixed prefix and the offending text.
pub fn prefixed_message(prefix: &str, s: &str) -> (r: String)
    ensures
        r@ == prefix@ + s@,
{
    let mut m = prefix.to_owned();
    push_str(&mut m, s);
    m
}

impl Default for MemoryCategory {
    fn default() -> (s: Self)
        ensures
            s == MemoryCategory::Other,
    {
        MemoryCategory::Other
    }
}

impl std::str::FromStr for MemoryCategory {
    type Err = String;

    fn from_str(s: &str) -> (r: Result<Self, Self::Err>)
        ensures
            match MemoryCategory::spec_from_lower(unicode_lowercase(s@)) {
                Some(t) => r == Ok::<MemoryCategory, String>(t),
                None => r is Err && r->Err_0@ == "Unknown memory category: "@ + s@,
            },
    {
        MemoryCategory::parse(s)
    }
}

/// Inference type for memories extracted from events.
#[derive(Debug, Clone, Copy, PartialEq, Eq, Hash, Structural)]
pub enum InferenceType {
    /// Direct fact extracted from the event
    Fact,
    /// Inferred user preference
    Preference,
    /// Identified behavior pattern
    Pattern,
    /// Extracted business rule
    Rule,
}

impl InferenceType {
    /// The snake_case name of the inference type.
    pub open spec fn spec_name(self) -> Seq<char> {
        match self {
            InferenceType::Fact => "fact"@,
            InferenceType::Preference => "preference"@,
            InferenceType::Pattern => "pattern"@,
            InferenceType::Rule => "rule"@,
        }
    }

    /// The inference type that a lowercased name denotes, if any.
    pub open spec fn spec_from_lower(t: Seq<char>) -> Option<InferenceType> {
        if t == "fact"@ {
            Some(InferenceType::Fact)
        } else if t == "preference"@ {
            Some(InferenceType::Preference)
        } else if t == "pattern"@ {
            Some(InferenceType::Pattern)
        } else if t == "rule"@ {
            Some(InferenceType::Rule)
        } else {
            None
        }
    }

    /// The snake_case name of the inference type.
    pub fn as_str(&self) -> (s: &'static str)
        ensures
            s@ == self.spec_name(),
    {
        match self {
            InferenceType::Fact => "fact",
            InferenceType::Preference => "preference",
            InferenceType::Pattern => "pattern",
            InferenceType::Rule => "rule",
        }
    }

    /// The display text of the inference type.
    pub fn to_string(&self) -> (s: String)
        ensures
            s@ == self.spec_name(),
    {
        self.as_str().to_owned()
    }

    /// The value named by an already lowercased text.
    pub fn from_lowercase_name(t: &str) -> (r: Option<InferenceType>)
        ensures
            r == Self::spec_from_lower(t@),
    {
        if str_eq(t, "fact") {
            Some(InferenceType::Fact)
        } else if str_eq(t, "preference") {
            Some(InferenceType::Preference)
        } else if str_eq(t, "pattern") {
            Some(InferenceType::Pattern)
        } else if str_eq(t, "rule") {
            Some(InferenceType::Rule)
        } else {
            None
        }
    }

    /// Parses an inference type name, case-insensitively; unknown names are
    /// refused with the message `Unknown inference type: <name>`.
    pub fn parse(s: &str) -> (r: Result<InferenceType, String>)
        ensures
            match Self::spec_from_lower(unicode_lowercase(s@)) {
                Some(c) => r == Ok::<InferenceType, String>(c),
                None => r is Err && r->Err_0@ == "Unknown inference type: "@ + s@,
            },
    {
        let lower = to_unicode_lower(s);
        match Self::from_lowercase_name(lower.as_str()) {
            Some(c) => Ok(c),
            None => Err(prefixed_message("Unknown inference type: ", s)),
        }
    }
}

impl Default for InferenceType {
    fn default() -> (s: Self)
        ensures
            s == InferenceType::Fact,
    {
        InferenceType::Fact
    }
}

impl std::str::FromStr for InferenceType {
    type Err = String;

    fn from_str(s: &str) -> (r: Result<Self, Self::Err>)
        ensures
            match InferenceType::spec_from_lower(unicode_lowercase(s@)) {
                Some(t) => r == Ok::<InferenceType, String>(t),
                None => r is Err && r->Err_0@ == "Unknown inference type: "@ + s@,
            },
    {
        InferenceType::parse(s)
    }
}

/// Processing mode for event-to-memory extraction.
#[derive(Debug, Clone, Copy, PartialEq, Eq, Hash, Structural)]
pub enum ProcessingMode {
    /// Full automation
    Auto,
    /// Assisted mode (default)
    Assisted,
    /// Manual mode
    Manual,
}

impl ProcessingMode {
    /// The snake_case name of the mode.
    pub open spec fn spec_name(self) -> Seq<char> {
        match self {
            ProcessingMode::Auto => "auto"@,
            ProcessingMode::Assisted => "assisted"@,
            ProcessingMode::Manual => "manual"@,
        }
    }

    /// The mode that a lowercased name denotes, if any.
    pub open spec fn spec_from_lower(t: Seq<char>) -> Option<ProcessingMode> {
        if t == "auto"@ {
            Some(ProcessingMode::Auto)
        } else if t == "assisted"@ {
            Some(ProcessingMode::Assisted)
        } else if t == "manual"@ {
            Some(ProcessingMode::Manual)
        } else {
            None
        }
    }

    /// The snake_case name of the mode.
    pub fn as_str(&self) -> (s: &'static str)
        ensures
            s@ == self.spec_name(),
    {
        match self {
            ProcessingMode::Auto => "auto",
            ProcessingMode::Assisted => "assisted",
            ProcessingMode::Manual => "manual",
        }
    }

    /// The display text of the mode.
    pub fn to_string(&self) -> (s: String)
        ensures
            s@ == self.spec_name(),
    {
        self.as_str().to_owned()
    }

    /// The value named by an already lowercased text.
    pub fn from_lowercase_name(t: &str) -> (r: Option<ProcessingMode>)
        ensures
            r == Self::spec_from_lower(t@),
    {
        if str_eq(t, "auto") {
            Some(ProcessingMode::Auto)
        } else if str_eq(t, "assisted") {
            Some(ProcessingMode::Assisted)
        } else if str_eq(t, "manual") {
            Some(ProcessingMode::Manual)
        } else {
            None
        }
    }

    /// Parses a mode name, case-insensitively; unknown names are refused with
    /// the message `Unknown processing mode: <name>`.
    pub fn parse(s: &str) -> (r: Result<ProcessingMode, String>)
        ensures
            match Self::spec_from_lower(unicode_lowercase(s@)) {
                Some(c) => r == Ok::<ProcessingMode, String>(c),
                None => r is Err && r->Err_0@ == "Unknown processing mode: "@ + s@,
            },
    {
        let lower = to_unicode_lower(s);
        match Self::from_lowercase_name(lower.as_str()) {
            Some(c) => Ok(c),
            None => Err(prefixed_message("Unknown processing mode: ", s)),
        }
    }
}

impl Default for ProcessingMode {
    fn default() -> (s: Self)
        ensures
            s == ProcessingMode::Assisted,
    {
        ProcessingMode::Assisted
    }
}

impl std::str::FromStr for ProcessingMode {
    type Err = String;

    fn from_str(s: &str) -> (r: Result<Self, Self::Err>)
        ensures
            match ProcessingMode::spec_from_lower(unicode_lowercase(s@)) {
                Some(t) => r == Ok::<ProcessingMode, String>(t),
                None => r is Err && r->Err_0@ == "Unknown processing mode: "@ + s@,
            },
    {
        ProcessingMode::parse(s)
    }
}

/// Every category, inference type and processing mode is read back from
/// its own name.
pub proof fn status_names_round_trip(c: MemoryCategory, i: InferenceType, m: ProcessingMode)
    ensures
        MemoryCategory::spec_from_lower(c.spec_name()) == Some(c),
        InferenceType::spec_from_lower(i.spec_name()) == Some(i),
        ProcessingMode::spec_from_lower(m.spec_name()) == Some(m),
{
    reveal_strlit("user_preference");
    reveal_strlit("userpreference");
    reveal_strlit("behavior_pattern");
    reveal_strlit("behaviorpattern");
    reveal_strlit("business_rule");
    reveal_strlit("businessrule");
    reveal_strlit("factual_knowledge");
    reveal_strlit("factualknowledge");
    reveal_strlit("other");
    reveal_strlit("fact");
    reveal_strlit("preference");
    reveal_strlit("pattern");
    reveal_strlit("rule");
    reveal_strlit("auto");
    reveal_strlit("assisted");
    reveal_strlit("manual");
    assert("behavior_pattern"@[0] != "user_preference"@[0]);
    assert("business_rule"@[1] != "behavior_pattern"@[1]);
    assert("business_rule"@[0] != "user_preference"@[0]);
    assert("factual_knowledge"@[0] != "user_preference"@[0]);
    assert("factual_knowledge"@[0] != "behavior_pattern"@[0]);
    assert("factual_knowledge"@[0] != "business_rule"@[0]);
    assert("factual_knowledge"@[0] != "behaviorpattern"@[0]);
    assert("factual_knowledge"@[0] != "businessrule"@[0]);
    assert("factual_knowledge"@[0] != "userpreference"@[0]);
    assert("business_rule"@[0] != "userpreference"@[0]);
    assert("business_rule"@[1] != "behaviorpattern"@[1]);
    assert("behavior_pattern"@[0] != "userpreference"@[0]);
    assert("other"@[0] != "user_preference"@[0]);
    assert("other"@[0] != "behavior_pattern"@[0]);
    assert("other"@[0] != "business_rule"@[0]);
    assert("other"@[0] != "factual_knowledge"@[0]);
    assert("other"@[0] != "userpreference"@[0]);
    assert("other"@[0] != "behaviorpattern"@[0]);
    assert("other"@[0] != "businessrule"@[0]);
    assert("other"@[0] != "factualknowledge"@[0]);
    assert("preference"@[0] != "fact"@[0]);
    assert("pattern"@[1] != "preference"@[1]);
    assert("pattern"@[0] != "fact"@[0]);
    assert("rule"@[0] != "fact"@[0]);
    assert("rule"@[0] != "preference"@[0]);
    assert("rule"@[0] != "pattern"@[0]);
    assert("assisted"@[0] != "auto"@[0] || "assisted"@[1] != "auto"@[1]);
    assert("manual"@[0] != "auto"@[0]);
    assert("manual"@[0] != "assisted"@[0]);
}

} // verus!
