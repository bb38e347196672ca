//! A relay that asks a generative-language service to polish a piece of text.
//!
//! The library holds the decisions around the single outbound call: checking
//! the configured credential, building the upstream payload, and reading the
//! upstream answer into either the rewritten text or a typed error.
pub mod credential;
pub mod error;
pub mod json;
pub mod request;
pub mod response;
pub mod text;
