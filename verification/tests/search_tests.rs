//! Tests for the search request body and query parameters.

use you_core::{search_request_body, ExpandField, Method, SearchParams, SearchRequest,
    TrackerClient};

#[test]
fn test_search_request_serialization() {
    let request = SearchRequest {
        filter: Some(vec![
            ("queue".to_string(), "TREK".to_string()),
            ("assignee".to_string(), "empty()".to_string()),
        ]),
        order: Some("+status".to_string()),
        ..SearchRequest::default()
    };

    let json = search_request_body(&request);
    assert!(json.contains("\"filter\""));
    assert!(json.contains("\"queue\""));
    assert!(json.contains("\"order\""));
    assert!(!json.contains("\"query\""));
}

#[test]
fn test_search_request_with_query() {
    let request = SearchRequest {
        query: Some("Queue: TREK Assignee: me()".to_string()),
        ..SearchRequest::default()
    };

    let json = search_request_body(&request);
    assert!(json.contains("\"query\""));
    assert!(json.contains("Queue: TREK"));
}

#[test]
fn test_search_request_with_keys() {
    let request = SearchRequest {
        keys: Some(vec!["TREK-1".to_string(), "TREK-2".to_string()]),
        ..SearchRequest::default()
    };

    let json = search_request_body(&request);
    assert!(json.contains("\"keys\""));
    assert!(json.contains("TREK-1"));
    assert!(json.contains("TREK-2"));
}

#[test]
fn test_search_request_empty_serialization() {
    let request = SearchRequest::default();
    let json = search_request_body(&request);
    assert_eq!(json, "{}");
}

#[test]
fn test_search_params_default() {
    let params = SearchParams::default();
    assert!(params.expand.is_empty());
    assert!(params.per_page.is_none());
    assert!(params.page.is_none());
    assert!(params.scroll_type.is_none());
}

#[test]
fn search_request_exact_body() {
    let request = SearchRequest {
        filter: Some(vec![("queue".to_string(), "TREK".to_string())]),
        order: Some("+status".to_string()),
        ..SearchRequest::default()
    };
    let json = search_request_body(&request);
    assert_eq!(json, "{\"filter\":{\"queue\":\"TREK\"},\"order\":\"+status\"}");
}

#[test]
fn search_request_escapes_strings() {
    let request = SearchRequest {
        query: Some("say \"hi\"\\now".to_string()),
        ..SearchRequest::default()
    };
    let json = search_request_body(&request);
    assert_eq!(json, "{\"query\":\"say \\\"hi\\\"\\\\now\"}");
    let parsed: serde_json::Value = serde_json::from_str(&json).expect("body must be valid JSON");
    assert_eq!(parsed["query"].as_str(), Some("say \"hi\"\\now"));
}

#[test]
fn search_plan_posts_to_search_resource() {
    let client = TrackerClient::with_token("test-token".to_string());
    let request = SearchRequest {
        query: Some("Queue: TREK".to_string()),
        ..SearchRequest::default()
    };
    let params = SearchParams {
        expand: vec![ExpandField::Attachments, ExpandField::Comments],
        per_page: Some(10),
        page: Some(2),
        ..SearchParams::default()
    };
    let plan = client.search_issues_plan(&request, Some(params));
    assert_eq!(plan.method, Method::Post);
    assert_eq!(plan.url, "https://st-api.yandex-team.ru/v3/issues/_search");
    assert_eq!(plan.body.as_deref(), Some("{\"query\":\"Queue: TREK\"}"));
    assert_eq!(
        plan.query,
        vec![
            ("expand".to_string(), "attachments,comments".to_string()),
            ("perPage".to_string(), "10".to_string()),
            ("page".to_string(), "2".to_string()),
        ]
    );
}

#[test]
fn search_plan_with_scroll_parameters() {
    let client = TrackerClient::with_token("test-token".to_string());
    let request = SearchRequest {
        query: Some("Queue: TREK".to_string()),
        ..SearchRequest::default()
    };
    let params = SearchParams {
        scroll_type: Some("sorted".to_string()),
        per_scroll: Some(100),
        scroll_ttl_millis: Some(60000),
        ..SearchParams::default()
    };
    let plan = client.search_issues_plan(&request, Some(params));
    assert_eq!(
        plan.query,
        vec![
            ("scrollType".to_string(), "sorted".to_string()),
            ("perScroll".to_string(), "100".to_string()),
            ("scrollTTLMillis".to_string(), "60000".to_string()),
        ]
    );
}

#[test]
fn search_results_parse_into_issues() {
    let json = r#"[
        {"key": "TREK-1", "summary": "Первая задача", "votes": 1},
        {"key": "TREK-2", "summary": "Вторая задача"}
    ]"#;
    let value = you_core::parse_json(json).expect("test JSON must parse");
    let issues = you_core::issues_from_json(&value).expect("records match the schema");
    assert_eq!(issues.len(), 2);
    assert_eq!(issues[0].key, "TREK-1");
    assert_eq!(issues[1].summary, "Вторая задача");
}
