use std::collections::HashMap;

use loom_server::routes::agent;
use loom_server::routes::weaver;

fn as_map(v: Option<Vec<(String, String)>>) -> Option<HashMap<String, String>> {
    v.map(|pairs| pairs.into_iter().collect())
}

#[test]
fn agent_test_parse_tag_filter_none() {
    assert_eq!(as_map(agent::parse_tag_filter(None)), None);
}

#[test]
fn agent_test_parse_tag_filter_empty() {
    assert_eq!(as_map(agent::parse_tag_filter(Some(vec![]))), None);
}

#[test]
fn agent_test_parse_tag_filter_single() {
    let result = as_map(agent::parse_tag_filter(Some(vec!["project:ai-worker".to_string()])));
    let mut expected = HashMap::new();
    expected.insert("project".to_string(), "ai-worker".to_string());
    assert_eq!(result, Some(expected));
}

#[test]
fn agent_test_parse_tag_filter_multiple() {
    let result = as_map(agent::parse_tag_filter(Some(vec![
        "project:ai-worker".to_string(),
        "env:prod".to_string(),
    ])));
    let mut expected = HashMap::new();
    expected.insert("project".to_string(), "ai-worker".to_string());
    expected.insert("env".to_string(), "prod".to_string());
    assert_eq!(result, Some(expected));
}

#[test]
fn agent_test_parse_tag_filter_invalid() {
    let result = as_map(agent::parse_tag_filter(Some(vec!["invalid-no-colon".to_string()])));
    assert_eq!(result, None);
}

#[test]
fn agent_test_parse_tag_filter_value_with_colon() {
    let result = as_map(agent::parse_tag_filter(Some(vec!["url:https://example.com".to_string()])));
    let mut expected = HashMap::new();
    expected.insert("url".to_string(), "https://example.com".to_string());
    assert_eq!(result, Some(expected));
}

#[test]
fn weaver_test_parse_tag_filter_none() {
    assert_eq!(as_map(weaver::parse_tag_filter(None)), None);
}

#[test]
fn weaver_test_parse_tag_filter_empty() {
    assert_eq!(as_map(weaver::parse_tag_filter(Some(vec![]))), None);
}

#[test]
fn weaver_test_parse_tag_filter_single() {
    let result = as_map(weaver::parse_tag_filter(Some(vec!["project:ai-worker".to_string()])));
    let mut expected = HashMap::new();
    expected.insert("project".to_string(), "ai-worker".to_string());
    assert_eq!(result, Some(expected));
}

#[test]
fn weaver_test_parse_tag_filter_multiple() {
    let result = as_map(weaver::parse_tag_filter(Some(vec![
        "project:ai-worker".to_string(),
        "env:prod".to_string(),
    ])));
    let mut expected = HashMap::new();
    expected.insert("project".to_string(), "ai-worker".to_string());
    expected.insert("env".to_string(), "prod".to_string());
    assert_eq!(result, Some(expected));
}

#[test]
fn weaver_test_parse_tag_filter_invalid() {
    let result = as_map(weaver::parse_tag_filter(Some(vec!["invalid-no-colon".to_string()])));
    assert_eq!(result, None);
}

#[test]
fn weaver_test_parse_tag_filter_value_with_colon() {
    let result = as_map(weaver::parse_tag_filter(Some(vec!["url:https://example.com".to_string()])));
    let mut expected = HashMap::new();
    expected.insert("url".to_string(), "https://example.com".to_string());
    assert_eq!(result, Some(expected));
}

#[test]
fn later_tag_for_a_key_wins() {
    let result = as_map(agent::parse_tag_filter(Some(vec!["env:dev".to_string(), "env:prod".to_string()])));
    let mut expected = HashMap::new();
    expected.insert("env".to_string(), "prod".to_string());
    assert_eq!(result, Some(expected));
}

#[test]
fn malformed_tags_are_dropped_beside_good_ones() {
    let result = as_map(weaver::parse_tag_filter(Some(vec!["bad".to_string(), "k:v".to_string()])));
    let mut expected = HashMap::new();
    expected.insert("k".to_string(), "v".to_string());
    assert_eq!(result, Some(expected));
}
