//! Anthropic-compatible ingress: the rules by which a `/v1/messages` request
//! becomes an internal inference request, and an inference result becomes an
//! Anthropic response or a sequence of Anthropic stream events.
pub mod count_laws;
pub mod count_tokens;
pub mod error;
pub mod handler;
pub mod inference;
pub mod json;
pub mod model;
pub mod outside;
pub mod provider;
pub mod reader;
pub mod record_laws;
pub mod routes;
pub mod string_map;
pub mod text;
pub mod text_reader;
pub mod types;
pub mod view_laws;
