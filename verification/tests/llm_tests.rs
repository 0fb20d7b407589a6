//! Tests for the LLM client: request bodies, option serialization, and
//! response classification.

use you_core::{
    classify_chat_response, content_or_error, CompletionOptions, HttpResponse, LlmClient,
    LlmConfig, LlmError, Message, Method, Role,
};
use you_core::llm::models::{chat_request_body, options_json, ChatCompletionRequest};

fn response(status: u16, headers: Vec<(String, String)>, body: &str) -> HttpResponse {
    HttpResponse { status, headers, body: body.to_string() }
}

fn completion_body() -> String {
    r#"{
        "id": "test-id-123",
        "model": "test-model",
        "created": 1234567890,
        "choices": [
            {
                "index": 0,
                "message": {"role": "assistant", "content": "Hello, this is a test response"},
                "finish_reason": "stop"
            }
        ],
        "usage": {"prompt_tokens": 10, "completion_tokens": 20, "total_tokens": 30}
    }"#
    .to_string()
}

#[test]
fn message_constructors_set_roles() {
    let m = Message::system("be brief".to_string());
    assert_eq!(m.role, Role::System);
    assert_eq!(m.content, "be brief");
    assert_eq!(Message::user("hi".to_string()).role, Role::User);
    assert_eq!(Message::assistant("ok".to_string()).role, Role::Assistant);
}

#[test]
fn options_with_only_temperature_and_max_tokens() {
    let options = CompletionOptions::new().temperature(700).max_tokens(1000);
    let json = options_json(&options);
    assert_eq!(json, "{\"temperature\":0.7,\"max_tokens\":1000}");
    assert!(!json.contains("null"));
    assert!(!json.contains("top_p"));
    assert!(!json.contains("frequency_penalty"));
    assert!(!json.contains("presence_penalty"));
    assert!(!json.contains("stop"));
}

#[test]
fn options_round_trip_through_json() {
    let options = CompletionOptions::new().temperature(700).max_tokens(1000);
    let json = options_json(&options);
    let parsed: serde_json::Value = serde_json::from_str(&json).expect("body must be valid JSON");
    let object = parsed.as_object().expect("an object");
    assert_eq!(object.len(), 2);
    assert_eq!(object["temperature"].as_f64(), Some(0.7));
    assert_eq!(object["max_tokens"].as_u64(), Some(1000));
}

#[test]
fn empty_options_serialize_as_empty_object() {
    assert_eq!(options_json(&CompletionOptions::new()), "{}");
}

#[test]
fn fractional_options_render_as_decimals() {
    let options = CompletionOptions {
        temperature: Some(1250),
        max_tokens: None,
        top_p: Some(5),
        frequency_penalty: Some(-500),
        presence_penalty: Some(2000),
        stop: Some(vec!["END".to_string()]),
    };
    let json = options_json(&options);
    assert_eq!(
        json,
        "{\"temperature\":1.25,\"top_p\":0.005,\"frequency_penalty\":-0.5,\
         \"presence_penalty\":2,\"stop\":[\"END\"]}"
    );
}

#[test]
fn chat_body_holds_model_and_messages() {
    let request = ChatCompletionRequest {
        model: "test-model".to_string(),
        messages: vec![Message::user("Hello".to_string())],
        options: CompletionOptions::new(),
    };
    let body = chat_request_body(&request);
    assert_eq!(
        body,
        "{\"model\":\"test-model\",\"messages\":[{\"role\":\"user\",\"content\":\"Hello\"}]}"
    );
}

#[test]
fn chat_plan_carries_bearer_token() {
    let config = LlmConfig::new("test-api-key".to_string(), "test-model".to_string());
    let client = LlmClient::new(config);
    let plan = client
        .chat_completion_plan(vec![Message::user("Hello".to_string())], None)
        .expect("a nonempty conversation");
    assert_eq!(plan.method, Method::Post);
    assert_eq!(plan.url, "https://openrouter.ai/api/v1/chat/completions");
    assert!(plan
        .headers
        .contains(&("Authorization".to_string(), "Bearer test-api-key".to_string())));
    assert!(plan
        .headers
        .contains(&("Content-Type".to_string(), "application/json".to_string())));
}

#[test]
fn chat_plan_rejects_empty_conversation() {
    let config = LlmConfig::new("test-api-key".to_string(), "test-model".to_string());
    let client = LlmClient::new(config);
    let r = client.chat_completion_plan(vec![], None);
    match r {
        Err(LlmError::InvalidRequest(m)) => assert_eq!(m, "Messages cannot be empty"),
        other => panic!("expected InvalidRequest, got: {:?}", other),
    }
}

#[test]
fn successful_completion_parses() {
    let r = classify_chat_response(response(200, vec![], &completion_body()));
    let completion = r.expect("a well-formed completion");
    assert_eq!(completion.id, "test-id-123");
    assert_eq!(completion.model, "test-model");
    assert_eq!(completion.created, 1234567890);
    assert_eq!(completion.usage.total_tokens, 30);
    assert_eq!(completion.content(), Some("Hello, this is a test response"));
    let text = content_or_error(&completion).expect("one choice present");
    assert_eq!(text, "Hello, this is a test response");
}

#[test]
fn authentication_error_regardless_of_body() {
    for body in ["", "{}", "go away"] {
        let r = classify_chat_response(response(401, vec![], body));
        assert!(matches!(r, Err(LlmError::AuthError)));
    }
}

#[test]
fn rate_limit_with_retry_after_header() {
    let headers = vec![("retry-after".to_string(), "60".to_string())];
    let r = classify_chat_response(response(429, headers, ""));
    match r {
        Err(LlmError::RateLimitExceeded { retry_after }) => assert_eq!(retry_after, Some(60)),
        other => panic!("expected RateLimitExceeded, got: {:?}", other),
    }
}

#[test]
fn rate_limit_without_header() {
    let r = classify_chat_response(response(429, vec![], ""));
    assert!(matches!(r, Err(LlmError::RateLimitExceeded { retry_after: None })));
}

#[test]
fn rate_limit_with_plus_signed_header() {
    let headers = vec![("retry-after".to_string(), "+60".to_string())];
    let r = classify_chat_response(response(429, headers, ""));
    match r {
        Err(LlmError::RateLimitExceeded { retry_after }) => assert_eq!(retry_after, Some(60)),
        other => panic!("expected RateLimitExceeded, got: {:?}", other),
    }
}

#[test]
fn any_success_status_parses_completion() {
    let r = classify_chat_response(response(201, vec![], &completion_body()));
    let completion = r.expect("every 2xx with a valid body must succeed");
    assert_eq!(completion.content(), Some("Hello, this is a test response"));
}

#[test]
fn rate_limit_with_unparseable_header() {
    let headers = vec![("Retry-After".to_string(), "soon".to_string())];
    let r = classify_chat_response(response(429, headers, ""));
    assert!(matches!(r, Err(LlmError::RateLimitExceeded { retry_after: None })));
}

#[test]
fn api_error_takes_message_from_envelope() {
    let body = r#"{"error": {"message": "model is overloaded", "type": "server"}}"#;
    let r = classify_chat_response(response(500, vec![], body));
    match r {
        Err(LlmError::ApiError { status, message }) => {
            assert_eq!(status, 500);
            assert_eq!(message, "model is overloaded");
        }
        other => panic!("expected ApiError, got: {:?}", other),
    }
}

#[test]
fn api_error_falls_back_to_body_text() {
    let r = classify_chat_response(response(502, vec![], "bad gateway"));
    match r {
        Err(LlmError::ApiError { status, message }) => {
            assert_eq!(status, 502);
            assert_eq!(message, "bad gateway");
        }
        other => panic!("expected ApiError, got: {:?}", other),
    }
}

#[test]
fn completion_without_choices_has_no_content() {
    let body = r#"{
        "id": "x", "model": "m", "created": 1, "choices": [],
        "usage": {"prompt_tokens": 0, "completion_tokens": 0, "total_tokens": 0}
    }"#;
    let completion = classify_chat_response(response(200, vec![], body)).expect("well-formed");
    assert_eq!(completion.content(), None);
    match content_or_error(&completion) {
        Err(LlmError::InvalidRequest(m)) => assert_eq!(m, "No content in response"),
        other => panic!("expected InvalidRequest, got: {:?}", other),
    }
}

#[test]
fn malformed_completion_is_decode_failure() {
    let r = classify_chat_response(response(200, vec![], r#"{"id": "x"}"#));
    assert!(matches!(r, Err(LlmError::JsonParseFailed(_))));
    let r = classify_chat_response(response(200, vec![], "not json"));
    assert!(matches!(r, Err(LlmError::JsonParseFailed(_))));
}

#[test]
fn rate_limit_message_shows_delay() {
    let e = LlmError::RateLimitExceeded { retry_after: Some(60) };
    let msg = e.message();
    assert!(msg.contains("Rate limit exceeded"));
    assert!(msg.contains("60"));
}

#[test]
fn llm_config_defaults() {
    let config = LlmConfig::new("k".to_string(), "example/test-model".to_string());
    assert_eq!(config.base_url, "https://openrouter.ai/api/v1");
    assert_eq!(config.timeout_secs, 120);
    assert!(config.site_url.is_none());
    assert!(config.app_name.is_none());
    let client = LlmClient::new(config);
    assert_eq!(client.model(), "example/test-model");
}
