//! Structured events: an event parsed into six core elements (time,
//! location, actor, cause, process, result) and two auxiliary ones
//! (background, details).
use vstd::prelude::*;
use crate::ids::{is_random_uuid, new_uuid_v4, now_millis};
use crate::text::{is_blank, is_blank_str, push_str};

verus! {

/// An event parsed into the six elements and two auxiliary elements.
#[derive(Debug, Clone)]
pub struct StructuredEvent {
    /// Unique identifier
    pub id: u128,
    /// Reference to the original event
    pub event_id: u128,
    /// Time element: when the event occurred
    pub time_element: Option<String>,
    /// Location element: device, page, content position
    pub location_element: Option<String>,
    /// Actor element: user identifier (required)
    pub actor_element: String,
    /// Cause element: why the event was triggered
    pub cause_element: Option<String>,
    /// Process element: what happened step by step
    pub process_element: Option<String>,
    /// Result element: outcome of the event
    pub result_element: Option<String>,
    /// Background auxiliary: context or scenario
    pub background_element: Option<String>,
    /// Details auxiliary: key details, follow-up actions
    pub details_element: Option<String>,
    /// Event category (based on the profile's event categories)
    pub category: Option<String>,
    /// When this structured event was created (milliseconds since the epoch)
    pub created_at: i64,
}

/// Input for creating a structured event.
#[derive(Debug, Clone)]
pub struct CreateStructuredEventInput {
    pub event_id: u128,
    pub time_element: Option<String>,
    pub location_element: Option<String>,
    pub actor_element: String,
    pub cause_element: Option<String>,
    pub process_element: Option<String>,
    pub result_element: Option<String>,
    pub background_element: Option<String>,
    pub details_element: Option<String>,
    pub category: Option<String>,
}

/// The structured event fields as an LLM returns them.
#[derive(Debug, Clone)]
pub struct ParsedStructuredEvent {
    pub time: Option<String>,
    pub location: Option<String>,
    pub actor: String,
    pub cause: Option<String>,
    pub process: Option<String>,
    pub result: Option<String>,
    pub background: Option<String>,
    pub details: Option<String>,
    pub category: Option<String>,
}

/// `key=value` as a summary part.
pub open spec fn part(key: Seq<char>, value: Seq<char>) -> Seq<char> {
    key + "="@ + value
}

/// `, key=value` when a value is present, else nothing.
pub open spec fn optional_part(key: Seq<char>, value: Option<String>) -> Seq<char> {
    match value {
        Some(v) => ", "@ + part(key, v@),
        None => Seq::empty(),
    }
}

impl StructuredEvent {
    /// The elements of a structured event are those of the input.
    pub open spec fn holds_input(self, input: CreateStructuredEventInput) -> bool {
        &&& self.event_id == input.event_id
        &&& self.time_element == input.time_element
        &&& self.location_element == input.location_element
        &&& self.actor_element == input.actor_element
        &&& self.cause_element == input.cause_element
        &&& self.process_element == input.process_element
        &&& self.result_element == input.result_element
        &&& self.background_element == input.background_element
        &&& self.details_element == input.details_element
        &&& self.category == input.category
    }

    /// A new structured event with a fresh random id, created now.
    pub fn new(input: CreateStructuredEventInput) -> (e: StructuredEvent)
        ensures
            e.holds_input(input),
            is_random_uuid(e.id),
    {
        StructuredEvent {
            id: new_uuid_v4(),
            event_id: input.event_id,
            time_element: input.time_element,
            location_element: input.location_element,
            actor_element: input.actor_element,
            cause_element: input.cause_element,
            process_element: input.process_element,
            result_element: input.result_element,
            background_element: input.background_element,
            details_element: input.details_element,
            category: input.category,
            created_at: now_millis(),
        }
    }

    /// A new structured event for `event_id` from LLM-parsed fields.
    pub fn from_parsed(event_id: u128, parsed: ParsedStructuredEvent) -> (e: StructuredEvent)
        ensures
            is_random_uuid(e.id),
            e.event_id == event_id,
            e.time_element == parsed.time,
            e.location_element == parsed.location,
            e.actor_element == parsed.actor,
            e.cause_element == parsed.cause,
            e.process_element == parsed.process,
            e.result_element == parsed.result,
            e.background_element == parsed.background,
            e.details_element == parsed.details,
            e.category == parsed.category,
    {
        StructuredEvent {
            id: new_uuid_v4(),
            event_id,
            time_element: parsed.time,
            location_element: parsed.location,
            actor_element: parsed.actor,
            cause_element: parsed.cause,
            process_element: parsed.process,
            result_element: parsed.result,
            background_element: parsed.background,
            details_element: parsed.details,
            category: parsed.category,
            created_at: now_millis(),
        }
    }

    /// A non-blank actor and at least one other element.
    pub open spec fn spec_has_minimal_info(self) -> bool {
        !is_blank(self.actor_element@) && (self.time_element is Some
            || self.location_element is Some || self.cause_element is Some
            || self.process_element is Some || self.result_element is Some
            || self.background_element is Some || self.details_element is Some)
    }

    /// Whether the actor and at least one other element are present.
    pub fn has_minimal_info(&self) -> (r: bool)
        ensures
            r == self.spec_has_minimal_info(),
    {
        !is_blank_str(self.actor_element.as_str()) && (self.time_element.is_some()
            || self.location_element.is_some() || self.cause_element.is_some()
            || self.process_element.is_some() || self.result_element.is_some()
            || self.background_element.is_some() || self.details_element.is_some())
    }

    /// The summary text: `actor=…`, then `time=…`, `location=…` and
    /// `category=…` for those present, joined by `, `.
    pub open spec fn spec_summary(self) -> Seq<char> {
        part("actor"@, self.actor_element@) + optional_part("time"@, self.time_element)
            + optional_part("location"@, self.location_element) + optional_part(
            "category"@,
            self.category,
        )
    }

    /// A summary of the structured event for logging.
    pub fn summary(&self) -> (r: String)
        ensures
            r@ == self.spec_summary(),
    {
        let mut s = "actor=".to_owned();
        push_str(&mut s, self.actor_element.as_str());
        if let Some(time) = &self.time_element {
            push_str(&mut s, ", time=");
            push_str(&mut s, time.as_str());
        }
        if let Some(location) = &self.location_element {
            push_str(&mut s, ", location=");
            push_str(&mut s, location.as_str());
        }
        if let Some(category) = &self.category {
            push_str(&mut s, ", category=");
            push_str(&mut s, category.as_str());
        }
        proof {
            reveal_strlit("actor=");
            reveal_strlit("actor");
            reveal_strlit("=");
            reveal_strlit(", time=");
            reveal_strlit("time");
            reveal_strlit(", location=");
            reveal_strlit("location");
            reveal_strlit(", category=");
            reveal_strlit("category");
            reveal_strlit(", ");
        }
        assert(s@ =~= self.spec_summary());
        s
    }
}

} // verus!
