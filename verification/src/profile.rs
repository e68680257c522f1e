//! System profiles: the business-system namespaces that memories and events
//! belong to, their validation and their updates.
use vstd::prelude::*;
use crate::error::{is_validation_error, AppError};
use crate::ids::{is_random_uuid, new_uuid_v4, now_millis};
use crate::text::{is_blank, is_blank_str};

verus! {

/// Maximum allowed length for the system name, in characters.
pub const MAX_NAME_LENGTH: usize = 100;

/// A system profile: one business system's memory namespace.
#[derive(Debug, Clone)]
pub struct SystemProfile {
    /// Unique identifier
    pub id: u128,
    /// System name (max 100 characters)
    pub name: String,
    /// Original user description (raw input)
    pub description: String,
    /// System purpose (LLM parsed)
    pub purpose: String,
    /// Business domain (LLM parsed)
    pub domain: String,
    /// Target audience (LLM parsed)
    pub target_audience: String,
    /// Valid event categories (LLM parsed)
    pub event_categories: Vec<String>,
    /// Memory types to prioritize (LLM parsed)
    pub memory_focus: Vec<String>,
    /// Things the system should not handle (LLM parsed)
    pub boundaries: Vec<String>,
    /// Complete prompt template for event extraction (LLM generated)
    pub extraction_prompt: String,
    /// Creation timestamp (milliseconds since the Unix epoch)
    pub created_at: i64,
    /// Last update timestamp (milliseconds since the Unix epoch)
    pub updated_at: i64,
}

/// Input for creating a new system profile.
#[derive(Debug, Clone)]
pub struct CreateProfileInput {
    /// System name (max 100 characters)
    pub name: String,
    /// User's natural language description of the system
    pub description: String,
}

/// Profile fields parsed from the description by an LLM.
#[derive(Debug, Clone)]
pub struct ParsedProfile {
    pub purpose: String,
    pub domain: String,
    pub target_audience: String,
    pub event_categories: Vec<String>,
    pub memory_focus: Vec<String>,
    pub boundaries: Vec<String>,
    pub extraction_prompt: String,
}

/// Input for updating a system profile; absent fields stay as they are.
#[derive(Debug, Clone)]
pub struct UpdateProfileInput {
    pub name: Option<String>,
    pub description: Option<String>,
    pub purpose: Option<String>,
    pub domain: Option<String>,
    pub target_audience: Option<String>,
    pub event_categories: Option<Vec<String>>,
    pub memory_focus: Option<Vec<String>>,
    pub boundaries: Option<Vec<String>>,
    pub extraction_prompt: Option<String>,
    /// Whether to re-parse the description with an LLM
    pub reparse: bool,
}

impl Default for UpdateProfileInput {
    fn default() -> (u: Self)
        ensures
            u.name is None,
            u.description is None,
            u.purpose is None,
            u.domain is None,
            u.target_audience is None,
            u.event_categories is None,
            u.memory_focus is None,
            u.boundaries is None,
            u.extraction_prompt is None,
            !u.reparse,
    {
        UpdateProfileInput {
            name: None,
            description: None,
            purpose: None,
            domain: None,
            target_audience: None,
            event_categories: None,
            memory_focus: None,
            boundaries: None,
            extraction_prompt: None,
            reparse: false,
        }
    }
}

/// Validation for profile creation and updates.
#[derive(Debug)]
pub struct ProfileValidation;

/// The outcome of validating a name.
pub open spec fn name_check(name: Seq<char>) -> Option<Seq<char>> {
    if is_blank(name) {
        Some("name cannot be empty"@)
    } else if name.len() > MAX_NAME_LENGTH {
        Some("name must be 100 characters or less"@)
    } else {
        None
    }
}

/// The outcome of validating a profile creation.
pub open spec fn create_check(name: Seq<char>, description: Seq<char>) -> Option<Seq<char>> {
    match name_check(name) {
        Some(m) => Some(m),
        None => if is_blank(description) {
            Some("description cannot be empty"@)
        } else {
            None
        },
    }
}

/// The outcome of validating a profile update.
pub open spec fn update_check(name: Option<String>) -> Option<Seq<char>> {
    match name {
        Some(n) => name_check(n@),
        None => None,
    }
}

/// The outcome as a result: `Ok` when there is no message.
pub open spec fn matches_check(r: Result<(), AppError>, c: Option<Seq<char>>) -> bool {
    match c {
        None => r is Ok,
        Some(m) => is_validation_error(r, m),
    }
}

impl ProfileValidation {
    /// Validates a profile creation: a valid name and a non-blank description.
    pub fn validate_create(input: &CreateProfileInput) -> (r: Result<(), AppError>)
        ensures
            matches_check(r, create_check(input.name@, input.description@)),
    {
        let n = Self::validate_name(input.name.as_str());
        if n.is_err() {
            return n;
        }
        if is_blank_str(input.description.as_str()) {
            return Err(AppError::Validation("description cannot be empty".to_owned()));
        }
        Ok(())
    }

    /// Validates a profile update: a name, when given, must be valid.
    pub fn validate_update(input: &UpdateProfileInput) -> (r: Result<(), AppError>)
        ensures
            matches_check(r, update_check(input.name)),
    {
        match &input.name {
            Some(name) => Self::validate_name(name.as_str()),
            None => Ok(()),
        }
    }

    /// Validates a name: not blank, at most `MAX_NAME_LENGTH` characters.
    pub fn validate_name(name: &str) -> (r: Result<(), AppError>)
        ensures
            matches_check(r, name_check(name@)),
    {
        if is_blank_str(name) {
            return Err(AppError::Validation("name cannot be empty".to_owned()));
        }
        if name.unicode_len() > MAX_NAME_LENGTH {
            return Err(AppError::Validation("name must be 100 characters or less".to_owned()));
        }
        Ok(())
    }
}

impl SystemProfile {
    /// A new profile with a fresh random id, created now, from validated
    /// input and the parsed fields.
    pub fn new(input: CreateProfileInput, parsed: ParsedProfile) -> (p: SystemProfile)
        ensures
            is_random_uuid(p.id),
            p.name == input.name,
            p.description == input.description,
            p.purpose == parsed.purpose,
            p.domain == parsed.domain,
            p.target_audience == parsed.target_audience,
            p.event_categories == parsed.event_categories,
            p.memory_focus == parsed.memory_focus,
            p.boundaries == parsed.boundaries,
            p.extraction_prompt == parsed.extraction_prompt,
            p.updated_at == p.created_at,
    {
        let now = now_millis();
        SystemProfile {
            id: new_uuid_v4(),
            name: input.name,
            description: input.description,
            purpose: parsed.purpose,
            domain: parsed.domain,
            target_audience: parsed.target_audience,
            event_categories: parsed.event_categories,
            memory_focus: parsed.memory_focus,
            boundaries: parsed.boundaries,
            extraction_prompt: parsed.extraction_prompt,
            created_at: now,
            updated_at: now,
        }
    }

    /// The profile after a partial update: each given field replaces the
    /// current one, the others stay.
    pub open spec fn updated_with(self, input: UpdateProfileInput, new: SystemProfile) -> bool {
        &&& new.id == self.id
        &&& new.created_at == self.created_at
        &&& new.name == (match input.name { Some(v) => v, None => self.name })
        &&& new.description == (match input.description { Some(v) => v, None => self.description })
        &&& new.purpose == (match input.purpose { Some(v) => v, None => self.purpose })
        &&& new.domain == (match input.domain { Some(v) => v, None => self.domain })
        &&& new.target_audience == (match input.target_audience {
            Some(v) => v,
            None => self.target_audience,
        })
        &&& new.event_categories == (match input.event_categories {
            Some(v) => v,
            None => self.event_categories,
        })
        &&& new.memory_focus == (match input.memory_focus {
            Some(v) => v,
            None => self.memory_focus,
        })
        &&& new.boundaries == (match input.boundaries { Some(v) => v, None => self.boundaries })
        &&& new.extraction_prompt == (match input.extraction_prompt {
            Some(v) => v,
            None => self.extraction_prompt,
        })
    }

    /// Applies a partial update and stamps the update time.
    pub fn apply_update(&mut self, input: UpdateProfileInput)
        ensures
            old(self).updated_with(input, *final(self)),
    {
        if let Some(name) = input.name {
            self.name = name;
        }
        if let Some(description) = input.description {
            self.description = description;
        }
        if let Some(purpose) = input.purpose {
            self.purpose = purpose;
        }
        if let Some(domain) = input.domain {
            self.domain = domain;
        }
        if let Some(target_audience) = input.target_audience {
            self.target_audience = target_audience;
        }
        if let Some(event_categories) = input.event_categories {
            self.event_categories = event_categories;
        }
        if let Some(memory_focus) = input.memory_focus {
            self.memory_focus = memory_focus;
        }
        if let Some(boundaries) = input.boundaries {
            self.boundaries = boundaries;
        }
        if let Some(extraction_prompt) = input.extraction_prompt {
            self.extraction_prompt = extraction_prompt;
        }
        self.updated_at = now_millis();
    }

    /// Applies the fields of an LLM re-parse and stamps the update time; the
    /// name and description stay.
    pub fn apply_parsed(&mut self, parsed: ParsedProfile)
        ensures
            final(self).id == old(self).id,
            final(self).created_at == old(self).created_at,
            final(self).name == old(self).name,
            final(self).description == old(self).description,
            final(self).purpose == parsed.purpose,
            final(self).domain == parsed.domain,
            final(self).target_audience == parsed.target_audience,
            final(self).event_categories == parsed.event_categories,
            final(self).memory_focus == parsed.memory_focus,
            final(self).boundaries == parsed.boundaries,
            final(self).extraction_prompt == parsed.extraction_prompt,
    {
        self.purpose = parsed.purpose;
        self.domain = parsed.domain;
        self.target_audience = parsed.target_audience;
        self.event_categories = parsed.event_categories;
        self.memory_focus = parsed.memory_focus;
        self.boundaries = parsed.boundaries;
        self.extraction_prompt = parsed.extraction_prompt;
        self.updated_at = now_millis();
    }
}

/// Request body to create a system profile.
#[derive(Debug, Clone)]
pub struct InitializeProfileRequest {
    pub name: String,
    pub description: String,
}

impl InitializeProfileRequest {
    /// The creation input for this request.
    pub fn into_input(self) -> (i: CreateProfileInput)
        ensures
            i.name == self.name,
            i.description == self.description,
    {
        CreateProfileInput { name: self.name, description: self.description }
    }
}

/// Request body to update a system profile.
#[derive(Debug, Clone)]
pub struct UpdateProfileRequest {
    pub name: Option<String>,
    pub description: Option<String>,
    pub purpose: Option<String>,
    pub domain: Option<String>,
    pub target_audience: Option<String>,
    pub event_categories: Option<Vec<String>>,
    pub memory_focus: Option<Vec<String>>,
    pub boundaries: Option<Vec<String>>,
    pub extraction_prompt: Option<String>,
    pub reparse: bool,
}

impl Default for UpdateProfileRequest {
    fn default() -> (u: Self)
        ensures
            u.name is None,
            u.description is None,
            u.purpose is None,
            u.domain is None,
            u.target_audience is None,
            u.event_categories is None,
            u.memory_focus is None,
            u.boundaries is None,
            u.extraction_prompt is None,
            !u.reparse,
    {
        UpdateProfileRequest {
            name: None,
            description: None,
            purpose: None,
            domain: None,
            target_audience: None,
            event_categories: None,
            memory_focus: None,
            boundaries: None,
            extraction_prompt: None,
            reparse: false,
        }
    }
}

impl UpdateProfileRequest {
    /// The update input for this request, field for field.
    pub fn into_input(self) -> (i: UpdateProfileInput)
        ensures
            i.name == self.name,
            i.description == self.description,
            i.purpose == self.purpose,
            i.domain == self.domain,
            i.target_audience == self.target_audience,
            i.event_categories == self.event_categories,
            i.memory_focus == self.memory_focus,
            i.boundaries == self.boundaries,
            i.extraction_prompt == self.extraction_prompt,
            i.reparse == self.reparse,
    {
        UpdateProfileInput {
            name: self.name,
            description: self.description,
            purpose: self.purpose,
            domain: self.domain,
            target_audience: self.target_audience,
            event_categories: self.event_categories,
            memory_focus: self.memory_focus,
            boundaries: self.boundaries,
            extraction_prompt: self.extraction_prompt,
            reparse: self.reparse,
        }
    }
}

/// An empty update changes nothing but the update time, and applying the
/// same update twice gives what applying it once gives.
pub proof fn profile_update_laws(
    p: SystemProfile,
    input: UpdateProfileInput,
    once: SystemProfile,
    twice: SystemProfile,
)
    requires
        p.updated_with(input, once),
        once.updated_with(input, twice),
    ensures
        twice.name == once.name && twice.description == once.description
            && twice.purpose == once.purpose && twice.domain == once.domain
            && twice.target_audience == once.target_audience
            && twice.event_categories == once.event_categories
            && twice.memory_focus == once.memory_focus && twice.boundaries == once.boundaries
            && twice.extraction_prompt == once.extraction_prompt,
        (input.name is None && input.description is None && input.purpose is None
            && input.domain is None && input.target_audience is None
            && input.event_categories is None && input.memory_focus is None
            && input.boundaries is None && input.extraction_prompt is None) ==> (once.name
            == p.name && once.description == p.description && once.purpose == p.purpose
            && once.domain == p.domain && once.target_audience == p.target_audience
            && once.event_categories == p.event_categories && once.memory_focus
            == p.memory_focus && once.boundaries == p.boundaries && once.extraction_prompt
            == p.extraction_prompt),
{
}

} // verus!
