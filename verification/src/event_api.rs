//! The decisions of the event endpoints: requests handed to ingestion,
//! ownership checks, status codes and previews of related memories.
use vstd::prelude::*;
use crate::error::AppError;
use crate::event::{Event, EventMemoryRelationType, EventSource};
use crate::ids::{uuid_text, uuid_to_string};
use vstd::utf8::encode_utf8;
use crate::text::{chars_of, push_char, push_str};

verus! {

/// Request body to create and process an event.
#[derive(Debug, Clone)]
pub struct CreateEventApiRequest {
    pub owner_id: String,
    pub content: String,
    pub context: Option<String>,
    pub scope_id: Option<String>,
    pub source: Option<EventSource>,
}

/// An event ingestion request for a profile.
#[derive(Debug, Clone)]
pub struct CreateFromEventRequest {
    pub profile_id: u128,
    pub owner_id: String,
    pub content: String,
    pub context: Option<String>,
    pub scope_id: Option<String>,
    pub source: Option<EventSource>,
}

impl CreateEventApiRequest {
    /// The ingestion request for this body in a profile.
    pub fn into_service_request(self, profile_id: u128) -> (r: CreateFromEventRequest)
        ensures
            r.profile_id == profile_id,
            r.owner_id == self.owner_id,
            r.content == self.content,
            r.context == self.context,
            r.scope_id == self.scope_id,
            r.source == self.source,
    {
        CreateFromEventRequest {
            profile_id,
            owner_id: self.owner_id,
            content: self.content,
            context: self.context,
            scope_id: self.scope_id,
            source: self.source,
        }
    }
}

/// HTTP 200.
pub const OK: u16 = 200;

/// HTTP 201.
pub const CREATED: u16 = 201;

/// HTTP 202.
pub const ACCEPTED: u16 = 202;

/// The status of a synchronous event creation: a skipped event created no
/// memory and is answered 200, any other 201.
pub fn create_event_status(skipped: bool) -> (code: u16)
    ensures
        code == (if skipped { OK } else { CREATED }),
{
    if skipped {
        OK
    } else {
        CREATED
    }
}

/// The message answered when an event is accepted for background processing.
pub open spec fn accepted_message(profile_id: u128, event_id: u128) -> Seq<char> {
    "Event created. Check status at GET /api/v1/systems/"@ + uuid_text(profile_id) + "/events/"@
        + uuid_text(event_id)
}

/// The message answered when an event is accepted for background processing.
pub fn accepted_event_message(profile_id: u128, event_id: u128) -> (r: String)
    ensures
        r@ == accepted_message(profile_id, event_id),
{
    let mut m = "Event created. Check status at GET /api/v1/systems/".to_owned();
    push_str(&mut m, uuid_to_string(profile_id).as_str());
    push_str(&mut m, "/events/");
    push_str(&mut m, uuid_to_string(event_id).as_str());
    m
}

/// An event is shown only within the profile it belongs to.
pub fn check_event_profile(event: &Event, profile_id: u128) -> (r: Result<(), AppError>)
    ensures
        event.profile_id == profile_id ==> r is Ok,
        event.profile_id != profile_id ==> (r matches Err(AppError::Validation(m)) && m@
            == "event does not belong to the requested system profile"@),
{
    if event.profile_id != profile_id {
        return Err(
            AppError::Validation("event does not belong to the requested system profile".to_owned()),
        );
    }
    Ok(())
}

/// The length in bytes of a text's UTF-8 encoding (what `str::len` gives).
pub open spec fn byte_len(s: Seq<char>) -> usize {
    encode_utf8(s).len() as usize
}

/// The longest preview, in characters.
pub const PREVIEW_CHARS: usize = 100;

/// The preview of a memory's content: its first 100 characters, followed by
/// `...` when the content is longer than 100 bytes.
pub open spec fn spec_content_preview(content: Seq<char>) -> Seq<char> {
    (if content.len() <= PREVIEW_CHARS {
        content
    } else {
        content.take(PREVIEW_CHARS as int)
    }) + if byte_len(content) > PREVIEW_CHARS {
        "..."@
    } else {
        Seq::empty()
    }
}

/// The preview of a memory's content.
pub fn content_preview(content: &str) -> (r: String)
    ensures
        r@ == spec_content_preview(content@),
{
    let cs = chars_of(content);
    let n: usize = if cs.len() <= PREVIEW_CHARS {
        cs.len()
    } else {
        PREVIEW_CHARS
    };
    let mut r = String::new();
    let mut i: usize = 0;
    while i < n
        invariant
            i <= n,
            n <= cs.len(),
            cs@ == content@,
            r@ == cs@.take(i as int),
        decreases n - i,
    {
        push_char(&mut r, cs[i]);
        i += 1;
        assert(r@ =~= cs@.take(i as int));
    }
    assert(cs@.take(n as int) =~= (if content@.len() <= PREVIEW_CHARS {
        content@
    } else {
        content@.take(PREVIEW_CHARS as int)
    }));
    if content.len() > PREVIEW_CHARS {
        push_str(&mut r, "...");
    }
    r
}

/// A memory related to an event.
#[derive(Debug, Clone)]
pub struct RelatedMemoryResponse {
    pub memory_id: u128,
    pub relation_type: String,
    pub content_preview: String,
}

/// The related memory shown for a relation.
pub fn related_memory(memory_id: u128, content: &str, relation_type: EventMemoryRelationType) -> (r: RelatedMemoryResponse)
    ensures
        r.memory_id == memory_id,
        r.relation_type@ == relation_type.spec_name(),
        r.content_preview@ == spec_content_preview(content@),
{
    RelatedMemoryResponse {
        memory_id,
        relation_type: relation_type.to_string(),
        content_preview: content_preview(content),
    }
}

/// Related memories are left out of the answer when there are none.
pub fn related_memories_field(related: Vec<RelatedMemoryResponse>) -> (r: Option<Vec<RelatedMemoryResponse>>)
    ensures
        related@.len() == 0 ==> r is None,
        related@.len() > 0 ==> r == Some(related),
{
    if related.len() == 0 {
        None
    } else {
        Some(related)
    }
}

} // verus!
