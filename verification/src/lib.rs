//! A client library for the Vertex AI Gemini API.
//!
//! The library models the API's JSON envelopes, distinguishes success
//! payloads from structured service errors, and drives the state machine
//! that turns a server-sent-events connection into an ordered sequence of
//! typed outcomes ending in exactly one end-of-stream sentinel.

pub mod client;
pub mod conversation;
pub mod dialogue;
pub mod error;
pub mod json;
pub mod stream;
pub mod types;
