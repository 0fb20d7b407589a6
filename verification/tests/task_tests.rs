//! Tests for the single-issue request plan.

use you_core::{ExpandField, GetIssueParams, Method, TrackerClient};

#[test]
fn get_issue_plan_targets_the_issue_resource() {
    let client = TrackerClient::with_token("test-token".to_string());
    let plan = client.get_issue_plan("TREK-123", None);
    assert_eq!(plan.method, Method::Get);
    assert_eq!(plan.url, "https://st-api.yandex-team.ru/v3/issues/TREK-123");
    assert!(plan.query.is_empty());
    assert!(plan.body.is_none());
}

#[test]
fn get_issue_plan_joins_expand_fields() {
    let client = TrackerClient::with_token("test-token".to_string());
    let params = GetIssueParams { expand: vec![ExpandField::Transitions, ExpandField::Attachments] };
    let plan = client.get_issue_plan("TREK-456", Some(params));
    assert_eq!(
        plan.query,
        vec![("expand".to_string(), "transitions,attachments".to_string())]
    );
}

#[test]
fn get_issue_plan_with_empty_expand_has_no_query() {
    let client = TrackerClient::with_token("test-token".to_string());
    let plan = client.get_issue_plan("TREK-1", Some(GetIssueParams::default()));
    assert!(plan.query.is_empty());
}
