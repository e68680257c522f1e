//! The registry of chat providers: stored records, the configuration built
//! from a record, and the rules for updating, enabling and choosing the
//! default provider.
use vstd::prelude::*;
use vstd::utf8::{decode_utf8, encode_utf8, valid_utf8};
use crate::error::AppError;
use crate::llm::{default_max_input_tokens, default_max_output_tokens, LlmProviderType};
use crate::text::push_str;

verus! {

/// The bits of the `f32` 0.3, the default sampling temperature.
pub const DEFAULT_TEMPERATURE_BITS: u32 = 0x3E99_999A;

/// Configuration of one chat provider; the temperature is held by the bits
/// of its `f32`.
#[derive(Debug, Clone)]
pub struct LlmProviderConfig {
    pub name: String,
    pub provider_type: LlmProviderType,
    pub endpoint: String,
    pub api_key: Option<String>,
    pub model: String,
    pub enabled: bool,
    pub max_input_tokens: u32,
    pub max_output_tokens: u32,
    pub temperature_bits: u32,
    pub rpm_limit: Option<u32>,
    pub tpm_limit: Option<u32>,
}

/// The configuration of the service's chat provider: named after its type
/// and model (`<type>-<model>`), enabled, with the default budgets and
/// temperature.
pub fn service_llm_config(
    provider_type: LlmProviderType,
    endpoint: String,
    api_key: Option<String>,
    model: String,
) -> (c: LlmProviderConfig)
    ensures
        c.name@ == provider_type.spec_name() + "-"@ + model@,
        c.provider_type == provider_type,
        c.endpoint == endpoint,
        c.api_key == api_key,
        c.model == model,
        c.enabled,
        c.max_input_tokens == 4000,
        c.max_output_tokens == 1000,
        c.temperature_bits == DEFAULT_TEMPERATURE_BITS,
        c.rpm_limit is None,
        c.tpm_limit is None,
{
    let mut name = provider_type.to_string();
    push_str(&mut name, "-");
    push_str(&mut name, model.as_str());
    LlmProviderConfig {
        name,
        provider_type,
        endpoint,
        api_key,
        model,
        enabled: true,
        max_input_tokens: default_max_input_tokens(),
        max_output_tokens: default_max_output_tokens(),
        temperature_bits: DEFAULT_TEMPERATURE_BITS,
        rpm_limit: None,
        tpm_limit: None,
    }
}

/// A stored chat provider. The API key is kept as the bytes of its text.
#[derive(Debug, Clone)]
pub struct LlmProviderRecord {
    pub name: String,
    pub provider_type: LlmProviderType,
    pub endpoint: String,
    pub api_key_encrypted: Option<Vec<u8>>,
    pub model: String,
    pub enabled: bool,
    pub is_default: bool,
    pub created_at: i64,
    pub updated_at: i64,
}

/// A partial update of a stored chat provider.
#[derive(Debug, Clone)]
pub struct UpdateLlmProviderInput {
    pub endpoint: Option<String>,
    pub api_key: Option<String>,
    pub model: Option<String>,
    pub enabled: Option<bool>,
}

impl Default for UpdateLlmProviderInput {
    fn default() -> (u: Self)
        ensures
            u.endpoint is None,
            u.api_key is None,
            u.model is None,
            u.enabled is None,
    {
        UpdateLlmProviderInput { endpoint: None, api_key: None, model: None, enabled: None }
    }
}

/// Decodes UTF-8 bytes into a text (`String::from_utf8`), `None` when the
/// bytes are not valid UTF-8.
#[verifier::external_body]
fn text_from_utf8(bytes: &Vec<u8>) -> (r: Option<String>)
    ensures
        r is Some <==> valid_utf8(bytes@),
        r matches Some(s) ==> s@ == decode_utf8(bytes@),
{
    String::from_utf8(bytes.clone()).ok()
}

/// The stored form of an API key: the bytes of its UTF-8 encoding.
pub fn stored_api_key(key: &str) -> (b: Vec<u8>)
    ensures
        b@ == encode_utf8(key@),
{
    vstd::slice::slice_to_vec(key.as_bytes())
}

impl LlmProviderRecord {
    /// The configuration of a stored provider. A stored key that is not
    /// valid UTF-8 counts as no key; the token budgets and temperature take
    /// their defaults and no rate limits apply.
    pub fn to_provider_config(&self) -> (c: LlmProviderConfig)
        ensures
            c.name == self.name,
            c.provider_type == self.provider_type,
            c.endpoint == self.endpoint,
            c.model == self.model,
            c.enabled == self.enabled,
            match self.api_key_encrypted {
                Some(bytes) => if valid_utf8(bytes@) {
                    c.api_key matches Some(k) && k@ == decode_utf8(bytes@)
                } else {
                    c.api_key is None
                },
                None => c.api_key is None,
            },
            c.max_input_tokens == 4000,
            c.max_output_tokens == 1000,
            c.temperature_bits == DEFAULT_TEMPERATURE_BITS,
            c.rpm_limit is None,
            c.tpm_limit is None,
    {
        let api_key = match &self.api_key_encrypted {
            Some(bytes) => text_from_utf8(bytes),
            None => None,
        };
        LlmProviderConfig {
            name: self.name.clone(),
            provider_type: self.provider_type,
            endpoint: self.endpoint.clone(),
            api_key,
            model: self.model.clone(),
            enabled: self.enabled,
            max_input_tokens: default_max_input_tokens(),
            max_output_tokens: default_max_output_tokens(),
            temperature_bits: DEFAULT_TEMPERATURE_BITS,
            rpm_limit: None,
            tpm_limit: None,
        }
    }
}

/// The values a provider is stored with after an update: each given value
/// replaces the stored one; a new key is stored as its bytes.
#[derive(Debug, Clone)]
pub struct ProviderUpdateValues {
    pub endpoint: String,
    pub api_key_encrypted: Option<Vec<u8>>,
    pub model: String,
    pub enabled: bool,
}

/// The values of a provider after a partial update.
pub fn updated_values(existing: &LlmProviderRecord, update: &UpdateLlmProviderInput) -> (v: ProviderUpdateValues)
    ensures
        v.endpoint == (match update.endpoint {
            Some(e) => e,
            None => existing.endpoint,
        }),
        v.model == (match update.model {
            Some(m) => m,
            None => existing.model,
        }),
        v.enabled == (match update.enabled {
            Some(b) => b,
            None => existing.enabled,
        }),
        update.api_key is Some ==> (v.api_key_encrypted is Some && v.api_key_encrypted->0@
            == encode_utf8(update.api_key->0@)),
        update.api_key is None ==> match existing.api_key_encrypted {
            Some(b) => v.api_key_encrypted is Some && v.api_key_encrypted->0@ == b@,
            None => v.api_key_encrypted is None,
        },
{
    let endpoint = match &update.endpoint {
        Some(e) => e.clone(),
        None => existing.endpoint.clone(),
    };
    let model = match &update.model {
        Some(m) => m.clone(),
        None => existing.model.clone(),
    };
    let enabled = match update.enabled {
        Some(b) => b,
        None => existing.enabled,
    };
    let api_key_encrypted = match &update.api_key {
        Some(k) => {
            let b = stored_api_key(k.as_str());
            assert(b@ == encode_utf8(k@));
            Some(b)
        },
        None => match &existing.api_key_encrypted {
            Some(b) => {
                let c = b.clone();
                assert(c@ =~= b@);
                Some(c)
            },
            None => None,
        },
    };
    ProviderUpdateValues { endpoint, api_key_encrypted, model, enabled }
}

/// Only an enabled provider can become the default.
pub fn check_can_be_default(provider: &LlmProviderRecord) -> (r: Result<(), AppError>)
    ensures
        provider.enabled ==> r is Ok,
        !provider.enabled ==> (r matches Err(AppError::ProviderDisabled(n)) && n == provider.name),
{
    if !provider.enabled {
        return Err(AppError::ProviderDisabled(provider.name.clone()));
    }
    Ok(())
}

/// The default provider cannot be disabled; another must become the
/// default first.
pub fn check_can_set_enabled(provider: &LlmProviderRecord, enabled: bool) -> (r: Result<(), AppError>)
    ensures
        (enabled || !provider.is_default) ==> r is Ok,
        (!enabled && provider.is_default) ==> (r matches Err(AppError::Validation(m)) && m@
            == "Cannot disable the default LLM provider. Set another provider as default first."@),
{
    if !enabled && provider.is_default {
        return Err(
            AppError::Validation(
                "Cannot disable the default LLM provider. Set another provider as default first.".to_owned(),
            ),
        );
    }
    Ok(())
}

/// A delete that removed nothing names a provider that does not exist.
pub fn check_deleted(name: &str, rows_affected: u64) -> (r: Result<(), AppError>)
    ensures
        rows_affected > 0 ==> r is Ok,
        rows_affected == 0 ==> (r matches Err(AppError::ProviderNotFound(n)) && n@ == name@),
{
    if rows_affected == 0 {
        return Err(AppError::ProviderNotFound(name.to_owned()));
    }
    Ok(())
}

} // verus!
