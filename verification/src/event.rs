//! Events: raw occurrences that memories are extracted from, their
//! processing lifecycle, and their relations to memories.
use vstd::prelude::*;
use crate::error::{is_validation_error, AppError};
use crate::ids::{is_random_uuid, new_uuid_v4, now_millis};
use crate::json::JsonValue;
use crate::status::{prefixed_message, ProcessingStatus};
use crate::text::{ascii_lower_seq, is_blank, is_blank_str, str_eq, to_ascii_lower, to_unicode_lower, unicode_lowercase};

verus! {

/// Relation type between an event and a memory.
#[derive(Debug, Clone, Copy, PartialEq, Eq, Structural)]
pub enum EventMemoryRelationType {
    /// Memory was created from this event
    CreatedFrom,
    /// Memory was reinforced by this event (evidence accumulation)
    ReinforcedBy,
}

impl EventMemoryRelationType {
    /// The snake_case name of the relation type.
    pub open spec fn spec_name(self) -> Seq<char> {
        match self {
            EventMemoryRelationType::CreatedFrom => "created_from"@,
            EventMemoryRelationType::ReinforcedBy => "reinforced_by"@,
        }
    }

    /// The relation type named by a lowercased text (with or without the underscore).
    pub open spec fn spec_from_lower(t: Seq<char>) -> Option<EventMemoryRelationType> {
        if t == "created_from"@ || t == "createdfrom"@ {
            Some(EventMemoryRelationType::CreatedFrom)
        } else if t == "reinforced_by"@ || t == "reinforcedby"@ {
            Some(EventMemoryRelationType::ReinforcedBy)
        } else {
            None
        }
    }

    /// The snake_case name of the relation type.
    pub fn as_str(&self) -> (s: &'static str)
        ensures
            s@ == self.spec_name(),
    {
        match self {
            EventMemoryRelationType::CreatedFrom => "created_from",
            EventMemoryRelationType::ReinforcedBy => "reinforced_by",
        }
    }

    /// The display text of the relation type.
    pub fn to_string(&self) -> (s: String)
        ensures
            s@ == self.spec_name(),
    {
        self.as_str().to_owned()
    }

    /// The relation type named by an already lowercased text.
    pub fn from_lowercase_name(t: &str) -> (r: Option<EventMemoryRelationType>)
        ensures
            r == Self::spec_from_lower(t@),
    {
        if str_eq(t, "created_from") || str_eq(t, "createdfrom") {
            Some(EventMemoryRelationType::CreatedFrom)
        } else if str_eq(t, "reinforced_by") || str_eq(t, "reinforcedby") {
            Some(EventMemoryRelationType::ReinforcedBy)
        } else {
            None
        }
    }

    /// Parses a relation type case-insensitively; unknown names are refused
    /// with `Unknown relation type: <name>`.
    pub fn parse(s: &str) -> (r: Result<EventMemoryRelationType, String>)
        ensures
            match Self::spec_from_lower(unicode_lowercase(s@)) {
                Some(t) => r == Ok::<EventMemoryRelationType, String>(t),
                None => r is Err && r->Err_0@ == "Unknown relation type: "@ + s@,
            },
    {
        let lower = to_unicode_lower(s);
        match Self::from_lowercase_name(lower.as_str()) {
            Some(t) => Ok(t),
            None => Err(prefixed_message("Unknown relation type: ", s)),
        }
    }
}

impl std::str::FromStr for EventMemoryRelationType {
    type Err = String;

    fn from_str(s: &str) -> (r: Result<Self, Self::Err>)
        ensures
            match EventMemoryRelationType::spec_from_lower(unicode_lowercase(s@)) {
                Some(t) => r == Ok::<EventMemoryRelationType, String>(t),
                None => r is Err && r->Err_0@ == "Unknown relation type: "@ + s@,
            },
    {
        EventMemoryRelationType::parse(s)
    }
}

/// Recommended source classification for incoming events.
#[derive(Debug, Clone, Copy, PartialEq, Eq, Hash, Structural)]
pub enum EventSource {
    /// Conversation or chat message.
    Conversation,
    /// Explicit user action such as click, submit, or preference update.
    UserAction,
    /// Internal system event or automation signal.
    SystemEvent,
    /// Manual operator or admin input.
    Manual,
    /// Generic API ingestion.
    Api,
}

impl EventSource {
    /// The snake_case name of the source.
    pub open spec fn spec_name(self) -> Seq<char> {
        match self {
            EventSource::Conversation => "conversation"@,
            EventSource::UserAction => "user_action"@,
            EventSource::SystemEvent => "system_event"@,
            EventSource::Manual => "manual"@,
            EventSource::Api => "api"@,
        }
    }

    /// The source whose name is exactly `t`.
    pub open spec fn spec_from_name(t: Seq<char>) -> Option<EventSource> {
        if t == "conversation"@ {
            Some(EventSource::Conversation)
        } else if t == "user_action"@ {
            Some(EventSource::UserAction)
        } else if t == "system_event"@ {
            Some(EventSource::SystemEvent)
        } else if t == "manual"@ {
            Some(EventSource::Manual)
        } else if t == "api"@ {
            Some(EventSource::Api)
        } else {
            None
        }
    }

    /// The snake_case name of the source.
    pub fn as_str(&self) -> (s: &'static str)
        ensures
            s@ == self.spec_name(),
    {
        match self {
            EventSource::Conversation => "conversation",
            EventSource::UserAction => "user_action",
            EventSource::SystemEvent => "system_event",
            EventSource::Manual => "manual",
            EventSource::Api => "api",
        }
    }

    /// The display text of the source.
    pub fn to_string(&self) -> (s: String)
        ensures
            s@ == self.spec_name(),
    {
        self.as_str().to_owned()
    }

    /// Parses a source name, ignoring ASCII case; unknown names are refused
    /// with `Unknown event source: <name>`.
    pub fn parse(source: &str) -> (r: Result<EventSource, String>)
        ensures
            match Self::spec_from_name(ascii_lower_seq(source@)) {
                Some(t) => r == Ok::<EventSource, String>(t),
                None => r is Err && r->Err_0@ == "Unknown event source: "@ + source@,
            },
    {
        let lower = to_ascii_lower(source);
        let t = lower.as_str();
        if str_eq(t, "conversation") {
            Ok(EventSource::Conversation)
        } else if str_eq(t, "user_action") {
            Ok(EventSource::UserAction)
        } else if str_eq(t, "system_event") {
            Ok(EventSource::SystemEvent)
        } else if str_eq(t, "manual") {
            Ok(EventSource::Manual)
        } else if str_eq(t, "api") {
            Ok(EventSource::Api)
        } else {
            Err(prefixed_message("Unknown event source: ", source))
        }
    }
}

impl std::str::FromStr for EventSource {
    type Err = String;

    fn from_str(source: &str) -> (r: Result<Self, Self::Err>)
        ensures
            match EventSource::spec_from_name(ascii_lower_seq(source@)) {
                Some(t) => r == Ok::<EventSource, String>(t),
                None => r is Err && r->Err_0@ == "Unknown event source: "@ + source@,
            },
    {
        EventSource::parse(source)
    }
}

/// Every source's name parses back to that source.
pub proof fn event_source_round_trip(s: EventSource)
    ensures
        EventSource::spec_from_name(ascii_lower_seq(s.spec_name())) == Some(s),
{
    reveal_strlit("conversation");
    reveal_strlit("user_action");
    reveal_strlit("system_event");
    reveal_strlit("manual");
    reveal_strlit("api");
    assert(ascii_lower_seq(s.spec_name()) =~= s.spec_name());
    assert("user_action"@[0] != "conversation"@[0]);
    assert("system_event"@[0] != "user_action"@[0]);
    assert("system_event"@[0] != "conversation"@[0]);
}

/// Event entity representing a raw occurrence. Times are milliseconds since
/// the Unix epoch; the relevance score is held by the bits of its `f32`.
#[derive(Debug)]
pub struct Event {
    /// Unique identifier
    pub id: u128,
    /// System profile ID - which business system this event belongs to
    pub profile_id: u128,
    /// Owner ID - user-defined, not validated semantically
    pub owner_id: String,
    /// Scope identifier - user-defined, null = global context
    pub scope_id: Option<String>,
    /// Raw event content (immutable)
    pub content: String,
    /// Optional context to help understand the event (immutable)
    pub context: Option<String>,
    /// LLM-generated summary of the event
    pub summary: Option<String>,
    /// Profile-aware structured analysis result for this event
    pub analysis_payload: Option<JsonValue>,
    /// Schema version used to generate the analysis payload
    pub analysis_schema_version: Option<i32>,
    /// Recommended event source classification.
    pub source: Option<EventSource>,
    /// Current event processing status
    pub processing_status: ProcessingStatus,
    /// Processing error message when status is failed
    pub error_message: Option<String>,
    /// When processing reached a terminal status
    pub processed_at: Option<i64>,
    /// Whether processing intentionally skipped this event
    pub skipped: bool,
    /// Structured skip reason when skipped
    pub skip_reason: Option<String>,
    /// Bits of the relevance score used by the skip decision
    pub relevance_score_bits: Option<u32>,
    /// When the event occurred
    pub event_time: i64,
    /// When the event record was created
    pub created_at: i64,
}

/// Input for creating a new event.
#[derive(Debug, Clone)]
pub struct CreateEventInput {
    /// System profile ID - which business system this event belongs to
    pub profile_id: u128,
    /// Owner ID - user-defined, not validated semantically
    pub owner_id: String,
    /// Scope identifier - user-defined, null = global context
    pub scope_id: Option<String>,
    /// Raw event content
    pub content: String,
    /// Optional context
    pub context: Option<String>,
    /// Recommended event source classification.
    pub source: Option<EventSource>,
    /// When the event occurred (defaults to now)
    pub event_time: Option<i64>,
}

/// A processing status from which the event does not move on.
pub open spec fn is_terminal_status(s: ProcessingStatus) -> bool {
    s is Completed || s is Failed || s is Skipped
}

impl Event {
    /// The fields an event is created from are those of the input.
    pub open spec fn created_from_input(self, input: CreateEventInput) -> bool {
        &&& self.profile_id == input.profile_id
        &&& self.owner_id == input.owner_id
        &&& self.scope_id == input.scope_id
        &&& self.content == input.content
        &&& self.context == input.context
        &&& self.source == input.source
        &&& self.summary is None
        &&& self.analysis_payload is None
        &&& self.analysis_schema_version is None
        &&& self.processing_status == ProcessingStatus::Pending
        &&& self.error_message is None
        &&& self.processed_at is None
        &&& !self.skipped
        &&& self.skip_reason is None
        &&& self.relevance_score_bits is None
        &&& (input.event_time matches Some(t) ==> self.event_time == t)
        &&& (input.event_time is None ==> self.event_time == self.created_at)
    }

    /// The facts of an event that processing never changes.
    pub open spec fn same_occurrence(self, other: Event) -> bool {
        &&& self.id == other.id
        &&& self.profile_id == other.profile_id
        &&& self.owner_id == other.owner_id
        &&& self.scope_id == other.scope_id
        &&& self.content == other.content
        &&& self.context == other.context
        &&& self.source == other.source
        &&& self.event_time == other.event_time
        &&& self.created_at == other.created_at
    }

    /// A new pending event with a fresh random id, created now.
    pub fn new(input: CreateEventInput) -> (e: Event)
        ensures
            e.created_from_input(input),
            is_random_uuid(e.id),
    {
        let now = now_millis();
        let event_time = match input.event_time {
            Some(t) => t,
            None => now,
        };
        Event {
            id: new_uuid_v4(),
            profile_id: input.profile_id,
            owner_id: input.owner_id,
            scope_id: input.scope_id,
            content: input.content,
            context: input.context,
            summary: None,
            analysis_payload: None,
            analysis_schema_version: None,
            source: input.source,
            processing_status: ProcessingStatus::Pending,
            error_message: None,
            processed_at: None,
            skipped: false,
            skip_reason: None,
            relevance_score_bits: None,
            event_time,
            created_at: now,
        }
    }

    /// Marks the event as processed with a summary.
    pub fn mark_processed(&mut self, summary: String)
        ensures
            final(self).same_occurrence(*old(self)),
            final(self).summary == Some(summary),
            final(self).processing_status == ProcessingStatus::Completed,
            final(self).error_message is None,
            final(self).processed_at is Some,
            !final(self).skipped,
            final(self).skip_reason is None,
            final(self).analysis_payload == old(self).analysis_payload,
            final(self).analysis_schema_version == old(self).analysis_schema_version,
            final(self).relevance_score_bits == old(self).relevance_score_bits,
    {
        self.summary = Some(summary);
        self.processing_status = ProcessingStatus::Completed;
        self.error_message = None;
        self.processed_at = Some(now_millis());
        self.skipped = false;
        self.skip_reason = None;
    }

    /// Marks the event as processed with a summary and an analysis payload.
    pub fn mark_processed_with_analysis(
        &mut self,
        summary: String,
        analysis_payload: Option<JsonValue>,
        analysis_schema_version: Option<i32>,
    )
        ensures
            final(self).same_occurrence(*old(self)),
            final(self).summary == Some(summary),
            final(self).analysis_payload == analysis_payload,
            final(self).analysis_schema_version == analysis_schema_version,
            final(self).processing_status == ProcessingStatus::Completed,
            final(self).error_message is None,
            final(self).processed_at is Some,
            !final(self).skipped,
            final(self).skip_reason is None,
            final(self).relevance_score_bits == old(self).relevance_score_bits,
    {
        self.summary = Some(summary);
        self.analysis_payload = analysis_payload;
        self.analysis_schema_version = analysis_schema_version;
        self.processing_status = ProcessingStatus::Completed;
        self.error_message = None;
        self.processed_at = Some(now_millis());
        self.skipped = false;
        self.skip_reason = None;
    }

    /// Marks the event as skipped by relevance checks.
    pub fn mark_skipped(&mut self, skip_reason: String, relevance_score_bits: Option<u32>)
        ensures
            final(self).same_occurrence(*old(self)),
            final(self).processing_status == ProcessingStatus::Skipped,
            final(self).error_message is None,
            final(self).processed_at is Some,
            final(self).skipped,
            final(self).skip_reason == Some(skip_reason),
            final(self).relevance_score_bits == relevance_score_bits,
            final(self).summary == old(self).summary,
            final(self).analysis_payload == old(self).analysis_payload,
            final(self).analysis_schema_version == old(self).analysis_schema_version,
    {
        self.processing_status = ProcessingStatus::Skipped;
        self.error_message = None;
        self.processed_at = Some(now_millis());
        self.skipped = true;
        self.skip_reason = Some(skip_reason);
        self.relevance_score_bits = relevance_score_bits;
    }

    /// Marks the event as failed.
    pub fn mark_failed(&mut self, error_message: String)
        ensures
            final(self).same_occurrence(*old(self)),
            final(self).processing_status == ProcessingStatus::Failed,
            final(self).error_message == Some(error_message),
            final(self).processed_at is Some,
            !final(self).skipped,
            final(self).skip_reason == old(self).skip_reason,
            final(self).summary == old(self).summary,
            final(self).analysis_payload == old(self).analysis_payload,
            final(self).analysis_schema_version == old(self).analysis_schema_version,
            final(self).relevance_score_bits == old(self).relevance_score_bits,
    {
        self.processing_status = ProcessingStatus::Failed;
        self.error_message = Some(error_message);
        self.processed_at = Some(now_millis());
        self.skipped = false;
    }

    /// Whether the event reached a terminal processing status.
    pub fn is_terminal(&self) -> (r: bool)
        ensures
            r == is_terminal_status(self.processing_status),
    {
        match self.processing_status {
            ProcessingStatus::Completed | ProcessingStatus::Failed | ProcessingStatus::Skipped => true,
            _ => false,
        }
    }
}

/// Processing ends in exactly three statuses: an event that is pending or
/// being processed is not terminal, and the status each mark leaves
/// (completed, failed, skipped) is.
pub proof fn terminal_statuses_law(s: ProcessingStatus)
    ensures
        is_terminal_status(s) <==> !(s is Pending || s is Processing),
        is_terminal_status(ProcessingStatus::Completed),
        is_terminal_status(ProcessingStatus::Failed),
        is_terminal_status(ProcessingStatus::Skipped),
{
}

/// Validation for event creation.
#[derive(Debug)]
pub struct CreateEventValidation;

/// The outcome of validating an event creation request.
pub open spec fn event_input_check(owner_id: Seq<char>, content: Seq<char>) -> Option<Seq<char>> {
    if is_blank(owner_id) {
        Some("owner_id cannot be empty"@)
    } else if is_blank(content) {
        Some("content cannot be empty"@)
    } else {
        None
    }
}

impl CreateEventValidation {
    /// Validates an event creation request: the owner id and the content
    /// must not be blank.
    pub fn validate(input: &CreateEventInput) -> (r: Result<(), AppError>)
        ensures
            match event_input_check(input.owner_id@, input.content@) {
                None => r is Ok,
                Some(m) => is_validation_error(r, m),
            },
    {
        if is_blank_str(input.owner_id.as_str()) {
            return Err(AppError::Validation("owner_id cannot be empty".to_owned()));
        }
        if is_blank_str(input.content.as_str()) {
            return Err(AppError::Validation("content cannot be empty".to_owned()));
        }
        Ok(())
    }
}

/// Relation between an event and a memory.
#[derive(Debug, Clone)]
pub struct EventMemoryRelation {
    /// Unique identifier
    pub id: u128,
    /// Event ID
    pub event_id: u128,
    /// Memory ID
    pub memory_id: u128,
    /// Type of relation
    pub relation_type: EventMemoryRelationType,
    /// When the relation was created
    pub created_at: i64,
}

impl EventMemoryRelation {
    /// A new relation with a fresh random id, created now.
    pub fn new(event_id: u128, memory_id: u128, relation_type: EventMemoryRelationType) -> (r: EventMemoryRelation)
        ensures
            r.event_id == event_id,
            r.memory_id == memory_id,
            r.relation_type == relation_type,
            is_random_uuid(r.id),
    {
        EventMemoryRelation {
            id: new_uuid_v4(),
            event_id,
            memory_id,
            relation_type,
            created_at: now_millis(),
        }
    }

    /// A "created_from" relation.
    pub fn created_from(event_id: u128, memory_id: u128) -> (r: EventMemoryRelation)
        ensures
            r.event_id == event_id,
            r.memory_id == memory_id,
            r.relation_type == EventMemoryRelationType::CreatedFrom,
            is_random_uuid(r.id),
    {
        Self::new(event_id, memory_id, EventMemoryRelationType::CreatedFrom)
    }

    /// A "reinforced_by" relation.
    pub fn reinforced_by(event_id: u128, memory_id: u128) -> (r: EventMemoryRelation)
        ensures
            r.event_id == event_id,
            r.memory_id == memory_id,
            r.relation_type == EventMemoryRelationType::ReinforcedBy,
            is_random_uuid(r.id),
    {
        Self::new(event_id, memory_id, EventMemoryRelationType::ReinforcedBy)
    }
}

} // verus!
