//! Tests for the issue model: reading records from JSON, the defaults
//! for absent fields, and the console output format.

use you_core::{
    format_issue_output, issue_from_json, parse_json, ExpandField, Issue, JsonData, Status,
    TrackerError,
};

fn value_of(json: &str) -> JsonData {
    parse_json(json).expect("test JSON must parse")
}

#[test]
fn models_test_issue_deserialization() {
    let json = r#"{
        "self": "https://st-api.yandex-team.ru/v3/issues/TREK-9844",
        "id": "593cd211ef7e8a33",
        "key": "TREK-9844",
        "version": 7,
        "summary": "Test task",
        "aliases": ["JUNE-3"],
        "votes": 5,
        "favorite": false,
        "tags": ["bug", "urgent"]
    }"#;

    let issue = issue_from_json(&value_of(json)).expect("record matches the schema");
    assert_eq!(issue.key, "TREK-9844");
    assert_eq!(issue.summary, "Test task");
    assert_eq!(issue.version, Some(7));
    assert_eq!(issue.votes, 5);
    assert!(!issue.favorite);
    assert_eq!(issue.tags.len(), 2);
    assert_eq!(issue.aliases.len(), 1);
}

#[test]
fn models_test_issue_minimal_deserialization() {
    let json = r#"{
        "key": "TEST-1",
        "summary": "Minimal task"
    }"#;

    let issue = issue_from_json(&value_of(json)).expect("record matches the schema");
    assert_eq!(issue.key, "TEST-1");
    assert_eq!(issue.summary, "Minimal task");
    assert_eq!(issue.votes, 0);
    assert!(!issue.favorite);
    assert!(issue.tags.is_empty());
}

#[test]
fn task_test_issue_deserialization() {
    let json = r#"{
        "self": "https://st-api.yandex-team.ru/v3/issues/TREK-9844",
        "id": "593cd211ef7e8a33",
        "key": "TREK-9844",
        "version": 7,
        "summary": "Test task",
        "aliases": ["JUNE-3"],
        "votes": 5,
        "favorite": false,
        "tags": ["bug", "urgent"]
    }"#;

    let issue = issue_from_json(&value_of(json)).expect("record matches the schema");
    assert_eq!(issue.key, "TREK-9844");
    assert_eq!(issue.summary, "Test task");
    assert_eq!(issue.version, Some(7));
    assert_eq!(issue.votes, 5);
    assert!(!issue.favorite);
    assert_eq!(issue.tags.len(), 2);
    assert_eq!(issue.aliases.len(), 1);
}

#[test]
fn task_test_issue_minimal_deserialization() {
    let json = r#"{
        "key": "TEST-1",
        "summary": "Minimal task"
    }"#;

    let issue = issue_from_json(&value_of(json)).expect("record matches the schema");
    assert_eq!(issue.key, "TEST-1");
    assert_eq!(issue.summary, "Minimal task");
    assert_eq!(issue.votes, 0);
    assert!(!issue.favorite);
    assert!(issue.tags.is_empty());
}

#[test]
fn minimal_issue_leaves_status_absent() {
    let issue = issue_from_json(&value_of(r#"{"key":"TEST-1","summary":"Minimal task"}"#))
        .expect("record matches the schema");
    assert!(issue.status.is_none());
    assert!(issue.assignee.is_none());
    assert!(issue.description.is_none());
}

#[test]
fn issue_without_key_is_rejected() {
    let r = issue_from_json(&value_of(r#"{"summary":"No key"}"#));
    assert!(matches!(r, Err(TrackerError::JsonParseFailed(_))));
}

#[test]
fn issue_with_wrong_field_kind_is_rejected() {
    let r = issue_from_json(&value_of(r#"{"key":"TEST-1","summary":"x","votes":"many"}"#));
    assert!(matches!(r, Err(TrackerError::JsonParseFailed(_))));
}

#[test]
fn issue_with_nested_records() {
    let json = r#"{
        "key": "TREK-123",
        "summary": "Nested",
        "status": {"key": "open", "display": "Открыта"},
        "createdBy": {"id": "user1", "display": "Test User"},
        "followers": [{"id": "user2"}, {"id": "user3"}]
    }"#;
    let issue = issue_from_json(&value_of(json)).expect("record matches the schema");
    let status = issue.status.expect("status present");
    assert_eq!(status.display.as_deref(), Some("Открыта"));
    assert_eq!(issue.created_by.expect("creator present").id.as_deref(), Some("user1"));
    assert_eq!(issue.followers.len(), 2);
}

#[test]
fn models_test_expand_field_as_str() {
    assert_eq!(ExpandField::Transitions.as_str(), "transitions");
    assert_eq!(ExpandField::Attachments.as_str(), "attachments");
    assert_eq!(ExpandField::Comments.as_str(), "comments");
}

#[test]
fn task_test_expand_field_as_str() {
    assert_eq!(ExpandField::Transitions.as_str(), "transitions");
    assert_eq!(ExpandField::Attachments.as_str(), "attachments");
}

fn create_minimal_issue(key: &str, summary: &str) -> Issue {
    Issue {
        self_link: None,
        id: None,
        key: key.to_string(),
        version: None,
        last_comment_updated_at: None,
        summary: summary.to_string(),
        parent: None,
        aliases: vec![],
        updated_by: None,
        description: None,
        sprint: vec![],
        issue_type: None,
        priority: None,
        created_at: None,
        followers: vec![],
        created_by: None,
        votes: 0,
        assignee: None,
        project: None,
        queue: None,
        updated_at: None,
        status: None,
        previous_status: None,
        favorite: false,
        tags: vec![],
    }
}

#[test]
fn test_format_issue_output_minimal() {
    let issue = create_minimal_issue("TEST-1", "Test summary");

    let output = format_issue_output(&issue);

    assert!(output.contains("📋 Задача: TEST-1"));
    assert!(output.contains("📌 Заголовок:"));
    assert!(output.contains("   Test summary"));
    assert!(output.contains("🔖 Статус: Неизвестен"));
    assert!(output.contains("📝 Описание:"));
    assert!(output.contains("   Нет описания"));
    assert!(output.contains("🔗 Ссылка:"));
    assert!(output.contains("   https://st.yandex-team.ru/TEST-1"));
}

#[test]
fn format_issue_output_exact_text() {
    let issue = create_minimal_issue("TEST-1", "Test summary");
    let output = format_issue_output(&issue);
    assert_eq!(
        output,
        "\n📋 Задача: TEST-1\n\n📌 Заголовок:\n   Test summary\n\n🔖 Статус: Неизвестен\n\n\
         📝 Описание:\n   Нет описания\n\n🔗 Ссылка:\n   https://st.yandex-team.ru/TEST-1\n\n"
    );
}

#[test]
fn day_plan_prompt_lists_each_issue() {
    let mut first = create_minimal_issue("TREK-1", "Первая задача");
    first.status = Some(Status {
        self_link: None,
        id: None,
        key: None,
        display: Some("В работе".to_string()),
    });
    let second = create_minimal_issue("TREK-2", "Вторая задача");
    let prompt = you_core::plan::day_plan_prompt(&vec![first, second]);
    assert!(prompt.contains("- TREK-1 (В работе): Первая задача\n- TREK-2 (Unknown): Вторая задача"));
    assert!(prompt.starts_with("На основе следующих задач"));
    assert!(prompt.ends_with("структурированный план в формате markdown."));
}

#[test]
fn test_format_issue_output_full() {
    let mut issue = create_minimal_issue("TREK-9844", "Implement new feature");
    issue.status = Some(Status {
        self_link: None,
        id: None,
        key: None,
        display: Some("В работе".to_string()),
    });
    issue.description = Some("First line\nSecond line\nThird line".to_string());

    let output = format_issue_output(&issue);

    assert!(output.contains("📋 Задача: TREK-9844"));
    assert!(output.contains("   Implement new feature"));
    assert!(output.contains("🔖 Статус: В работе"));
    assert!(output.contains("   First line"));
    assert!(output.contains("   Second line"));
    assert!(output.contains("   Third line"));
    assert!(output.contains("   https://st.yandex-team.ru/TREK-9844"));
}
