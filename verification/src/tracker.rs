//! Client for the work-item tracker's REST API: configuration, request
//! plans, response classification, and the typed issue model.

pub mod api_client;
pub mod commands;
pub mod error;
pub mod models;
pub mod search;
pub mod task;
