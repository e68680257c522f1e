//! Memory governance library: lifecycle rules, validation and retrieval planning.
use vstd::prelude::*;

pub mod text;
pub mod ids;
pub mod status;
pub mod json;
pub mod error;
pub mod metadata_filter;
pub mod layer;
pub mod scope;
pub mod health;
pub mod config;
pub mod event;
pub mod memory;
pub mod profile;
pub mod structured_event;
pub mod audit;
pub mod retry;
pub mod embedding;
pub mod llm;
pub mod ranking;
pub mod vector;
pub mod retrieval;
pub mod retrieval_api;
pub mod admin;
pub mod event_api;
pub mod memory_api;
pub mod provider_registry;
pub mod storage;

verus! {

} // verus!
