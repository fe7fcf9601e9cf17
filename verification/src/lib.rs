//! Core of a wiki search synchronizer: a schema-tolerant page decoder, a
//! publication rule, a sync planner that maps wiki lifecycle events onto
//! index operations, query shaping, and a suggestion extractor.
//!
//! The search engine itself (index storage, network transport) is an external
//! collaborator: this crate only decides what to send it and how to interpret
//! what comes back.

pub mod codec;
pub mod page;
pub mod query;
pub mod sync;
pub mod text;
pub mod transformers;
