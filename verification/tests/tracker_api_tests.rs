//! Tests for the tracker client: configuration, URL building, response
//! classification, and pagination metadata.

use you_core::{
    handle_tracker_response, pagination_from_headers, parse_work_proxy_url, HttpResponse,
    Language, Method, PaginationParams, TrackerClient, TrackerConfig, TrackerError,
};

fn response(status: u16, headers: Vec<(String, String)>, body: &str) -> HttpResponse {
    HttpResponse { status, headers, body: body.to_string() }
}

#[test]
fn test_tracker_config_builder() {
    let config = TrackerConfig::new("test-token".to_string())
        .with_org_id("123".to_string())
        .with_language(Language::English);

    assert_eq!(config.oauth_token, "test-token");
    assert_eq!(config.org_id, Some("123".to_string()));
    assert_eq!(config.language.as_str(), "en");
}

#[test]
fn test_pagination_params_default() {
    let pagination = PaginationParams::default();
    assert_eq!(pagination.per_page, Some(50));
    assert_eq!(pagination.page, Some(1));
}

#[test]
fn test_build_url() {
    let config = TrackerConfig::new("test-token".to_string());
    let client = TrackerClient::new(config);

    let url = client.build_url("/issues/TEST-1");
    assert_eq!(url, "https://st-api.yandex-team.ru/v3/issues/TEST-1");

    let url = client.build_url("issues/TEST-1");
    assert_eq!(url, "https://st-api.yandex-team.ru/v3/issues/TEST-1");
}

#[test]
fn test_error_display_unauthorized() {
    let error = TrackerError::Unauthorized;
    let error_msg = error.message();
    assert!(error_msg.contains("401"));
    assert!(error_msg.contains("not authenticated"));
}

#[test]
fn test_error_display_forbidden() {
    let error = TrackerError::Forbidden;
    let error_msg = error.message();
    assert!(error_msg.contains("403"));
    assert!(error_msg.contains("Insufficient permissions"));
}

#[test]
fn test_error_display_not_found() {
    let error = TrackerError::NotFound { resource: "TASK-123".to_string() };
    let error_msg = error.message();
    assert!(error_msg.contains("404"));
    assert!(error_msg.contains("TASK-123"));
}

#[test]
fn test_error_display_api_error() {
    let error = TrackerError::ApiError { status: 400, message: "Invalid request".to_string() };
    let error_msg = error.message();
    assert!(error_msg.contains("400"));
    assert!(error_msg.contains("Invalid request"));
}

#[test]
fn unauthorized_regardless_of_body() {
    for body in ["", "{}", "Unauthorized", "<html>nonsense</html>"] {
        let r = handle_tracker_response(response(401, vec![], body));
        assert!(matches!(r, Err(TrackerError::Unauthorized)));
    }
}

#[test]
fn forbidden_regardless_of_body() {
    let r = handle_tracker_response(response(403, vec![], "Forbidden"));
    assert!(matches!(r, Err(TrackerError::Forbidden)));
}

#[test]
fn not_found_carries_body_verbatim() {
    let r = handle_tracker_response(response(404, vec![], "Issue not found: TEST-404 "));
    match r {
        Err(TrackerError::NotFound { resource }) => {
            assert_eq!(resource, "Issue not found: TEST-404 ");
        }
        other => panic!("expected NotFound, got: {:?}", other),
    }
}

#[test]
fn other_status_becomes_api_error() {
    let r = handle_tracker_response(response(400, vec![], "Invalid request"));
    match r {
        Err(TrackerError::ApiError { status, message }) => {
            assert_eq!(status, 400);
            assert_eq!(message, "Invalid request");
        }
        other => panic!("expected ApiError, got: {:?}", other),
    }
}

#[test]
fn success_parses_json_body() {
    let r = handle_tracker_response(response(200, vec![], "{\"ok\":true}"));
    let (value, meta) = r.expect("2xx with valid JSON must succeed");
    assert!(matches!(value, you_core::JsonData::Obj(_)));
    assert!(meta.is_none());
}

#[test]
fn success_with_bad_json_is_decode_failure() {
    let r = handle_tracker_response(response(200, vec![], "not json"));
    assert!(matches!(r, Err(TrackerError::JsonParseFailed(_))));
}

#[test]
fn pagination_with_count_only() {
    let headers = vec![("X-Total-Count".to_string(), "100".to_string())];
    let meta = pagination_from_headers(&headers).expect("one header present");
    assert_eq!(meta.total_pages, None);
    assert_eq!(meta.total_count, Some(100));
}

#[test]
fn pagination_without_headers_is_absent() {
    let headers: Vec<(String, String)> = vec![];
    assert!(pagination_from_headers(&headers).is_none());
}

#[test]
fn pagination_with_both_headers() {
    let headers = vec![
        ("x-total-pages".to_string(), "10".to_string()),
        ("x-total-count".to_string(), "500".to_string()),
    ];
    let meta = pagination_from_headers(&headers).expect("headers present");
    assert_eq!(meta.total_pages, Some(10));
    assert_eq!(meta.total_count, Some(500));
}

#[test]
fn pagination_accepts_plus_signed_value() {
    let headers = vec![("X-Total-Count".to_string(), "+100".to_string())];
    let meta = pagination_from_headers(&headers).expect("one header present");
    assert_eq!(meta.total_count, Some(100));
}

#[test]
fn work_proxy_url_unicode_blank_is_config_error() {
    let r = parse_work_proxy_url("\u{a0}");
    assert!(matches!(r, Err(TrackerError::ConfigError(_))));
}

#[test]
fn pagination_with_unparseable_value() {
    let headers = vec![("X-Total-Count".to_string(), "many".to_string())];
    assert!(pagination_from_headers(&headers).is_none());
}

#[test]
fn success_carries_pagination_meta() {
    let headers = vec![
        ("X-Total-Pages".to_string(), "10".to_string()),
        ("X-Total-Count".to_string(), "500".to_string()),
    ];
    let r = handle_tracker_response(response(200, headers, "[]"));
    let (_, meta) = r.expect("2xx with valid JSON must succeed");
    let meta = meta.expect("pagination headers present");
    assert_eq!(meta.total_pages, Some(10));
    assert_eq!(meta.total_count, Some(500));
}

#[test]
fn work_proxy_url_gains_scheme() {
    let url = parse_work_proxy_url("  proxy.example:1080 ").expect("nonempty value");
    assert_eq!(url, "socks5://proxy.example:1080");
}

#[test]
fn work_proxy_url_empty_is_config_error() {
    let r = parse_work_proxy_url("   ");
    assert!(matches!(r, Err(TrackerError::ConfigError(_))));
}

#[test]
fn get_plan_carries_auth_and_language() {
    let client = TrackerClient::with_token("test-oauth-token".to_string());
    let plan = client.get_plan("test/auth", vec![]);
    assert_eq!(plan.method, Method::Get);
    assert_eq!(plan.method.as_str(), "GET");
    assert_eq!(plan.url, "https://st-api.yandex-team.ru/v3/test/auth");
    assert!(plan
        .headers
        .contains(&("Authorization".to_string(), "OAuth test-oauth-token".to_string())));
    assert!(plan.headers.contains(&("Accept-Language".to_string(), "ru".to_string())));
    assert!(plan.body.is_none());
}

#[test]
fn org_id_header_is_set_when_configured() {
    let config = TrackerConfig::new("test-token".to_string()).with_org_id("test-org-123".to_string());
    let client = TrackerClient::new(config);
    let plan = client.get_plan("test/org", vec![]);
    assert!(plan.headers.contains(&("X-Org-ID".to_string(), "test-org-123".to_string())));
}

#[test]
fn paginated_plan_puts_pagination_first() {
    let client = TrackerClient::with_token("test-token".to_string());
    let pagination = PaginationParams { per_page: Some(10), page: Some(2) };
    let plan = client.get_paginated_plan(
        "test/resources",
        &pagination,
        vec![("filter".to_string(), "active".to_string())],
    );
    assert_eq!(
        plan.query,
        vec![
            ("perPage".to_string(), "10".to_string()),
            ("page".to_string(), "2".to_string()),
            ("filter".to_string(), "active".to_string()),
        ]
    );
}
