//! Client for an LLM completion service: the message and completion
//! model, request bodies, and the exact classification of responses.

pub mod client;
pub mod error;
pub mod models;
