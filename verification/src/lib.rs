//! Adapter between a provider-agnostic chat-completion message model and an
//! OpenAI-style chat-completions wire format, together with the bounded,
//! backoff-governed retry policy that governs how the resulting HTTP calls
//! are executed.
//!
//! The crate is organised leaf-first: plain string helpers, the JSON wire
//! value model, the generic content model and configuration, the retry
//! engine, the static model registry, the tool-result payload parser, the
//! message and envelope converters, and the client and handler layers that
//! the unverified host shell drives.

pub mod strutil;
pub mod jsonval;
pub mod content;
pub mod state;
pub mod retry;
pub mod models;
pub mod parse;
pub mod convert;
pub mod request;
pub mod response;
pub mod client;
pub mod handler;
