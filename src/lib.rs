//! A client-side query builder for PostgREST-style HTTP APIs.
//!
//! A chain of builder stages (relation, operation, filters) assembles one
//! request descriptor; the execution engine turns the reply to that request
//! into a typed outcome or a structured error.
pub mod builder;
pub mod client;
pub mod filter;
pub mod handler;
pub mod headers;
pub mod json;
pub mod request;
