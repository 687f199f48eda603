//! Core of a task-search service: a bearer token gates a case-insensitive
//! substring search over the title and description of stored task records,
//! and the matches are rendered as a JSON array.
//!
//! The request path is modelled as an explicit state machine
//! (see [`pipeline`]); the matching semantics live in [`matching`] and the
//! response encoding in [`json`]. Network transport and the storage engine
//! stay outside this crate: callers hand in the raw header value, the query
//! parameter and the fetched records, and get the response back as a status
//! code and a body string.

pub mod auth;
pub mod json;
pub mod laws;
pub mod matching;
pub mod pipeline;
pub mod query;
pub mod task;
