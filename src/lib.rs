//! A filtering proxy for the container-engine HTTP API: each request head is
//! framed, checked against a per-method allow-list, and either forwarded
//! verbatim to the engine or answered with a canned refusal.

pub mod cli;
pub mod config;
pub mod connector;
pub mod errors;
pub mod filter;
pub mod pattern;
pub mod pipeline;
pub mod request;
pub mod responses;
