//! Verified client core for a small productivity toolbox: a work-item
//! tracker client and an LLM completion client, plus the text-editing
//! state of the terminal UI that drives them.
//!
//! Everything that computes — URL construction, request headers, JSON
//! bodies, response classification, pagination metadata, output
//! formatting, input handling — lives here with contracts. The network
//! and terminal I/O around it is ordinary unverified glue.

mod calendar;
pub mod http;
pub mod json;
pub mod jsonfmt;
pub mod llm;
pub mod num;
pub mod plan;
pub mod text;
pub mod tracker;
pub mod tui;

pub use calendar::name;
pub use http::{HttpResponse, Method, RequestPlan};
pub use llm::client::{
    classify_chat_response, content_or_error, LlmClient, LlmConfig,
};
pub use llm::error::LlmError;
pub use llm::models::{
    ChatCompletionRequest, ChatCompletionResponse, Choice, CompletionOptions, ErrorDetail,
    ErrorResponse, Message, Role, Usage,
};
pub use tracker::api_client::{
    handle_tracker_response, pagination_from_headers, parse_work_proxy_url, Language,
    PaginationMeta, PaginationParams, TrackerClient, TrackerConfig,
};
pub use tracker::commands::{format_issue_output, TrackerCommands};
pub use tracker::error::TrackerError;
pub use json::{parse_json, JsonData};
pub use tracker::models::{
    issue_from_json, issues_from_json, ExpandField, Issue, IssueType, ParentIssue, Priority,
    Project, ProjectInfo, Queue, Sprint, Status, User,
};
pub use tracker::search::{search_request_body, SearchParams, SearchRequest};
pub use tracker::task::GetIssueParams;
