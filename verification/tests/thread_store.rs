use loom_server::audit::{audit_filter, AuditQuery};
use loom_server::db::{AgentStateKind, ThreadRepository, UpsertAction};
use loom_server::error::ServerError;

#[test]
fn test_normalize_cache_query() {
    assert_eq!(ThreadRepository::normalize_cache_query("Hello World"), "hello world");
    assert_eq!(ThreadRepository::normalize_cache_query("  multiple   spaces  "), "multiple spaces");
    assert_eq!(ThreadRepository::normalize_cache_query("UPPERCASE"), "uppercase");
    assert_eq!(ThreadRepository::normalize_cache_query("  trim  me  "), "trim me");
    assert_eq!(ThreadRepository::normalize_cache_query("already normalized"), "already normalized");
}

#[test]
fn normalize_cache_query_collapses_tabs_and_newlines() {
    assert_eq!(ThreadRepository::normalize_cache_query("a\t\tB\nc"), "a b c");
    assert_eq!(ThreadRepository::normalize_cache_query("   "), "");
}

#[test]
fn normalizing_a_cache_key_again_changes_nothing() {
    for q in ["  Rust \t ASYNC\n traits ", "", " \n ", "one", "Ünïcode  Wörds"] {
        let key = ThreadRepository::normalize_cache_query(q);
        assert_eq!(ThreadRepository::normalize_cache_query(&key), key);
        assert_eq!(key.trim(), key);
        assert!(!key.contains("  "));
        assert_eq!(key.is_empty(), q.trim().is_empty());
    }
}

#[test]
fn upsert_with_wrong_version_conflicts() {
    match ThreadRepository::upsert_action(Some(1), Some(0)) {
        Err(ServerError::Conflict { expected, actual }) => {
            assert_eq!(expected, 1);
            assert_eq!(actual, 0);
        }
        _ => panic!("expected a conflict"),
    }
}

#[test]
fn upsert_without_version_never_conflicts() {
    assert!(matches!(ThreadRepository::upsert_action(Some(7), None), Ok(UpsertAction::Update)));
    assert!(matches!(ThreadRepository::upsert_action(None, Some(3)), Ok(UpsertAction::Insert)));
    assert!(matches!(ThreadRepository::upsert_action(Some(3), Some(3)), Ok(UpsertAction::Update)));
}

#[test]
fn sha_like_queries() {
    assert!(ThreadRepository::is_sha_like("abc123def"));
    assert!(ThreadRepository::is_sha_like("abc123def456789012345678901234567890abcd"));
    assert!(!ThreadRepository::is_sha_like("abc12"));
    assert!(!ThreadRepository::is_sha_like("main branch"));
    assert!(!ThreadRepository::is_sha_like("abc123defg"));
    assert!(!ThreadRepository::is_sha_like("abc123def456789012345678901234567890abcde"));
}

#[test]
fn search_plan_trims_first() {
    let (q, sha) = ThreadRepository::search_plan("  abc123def  ");
    assert_eq!(q, "abc123def");
    assert!(sha);
    let (q, sha) = ThreadRepository::search_plan(" main ");
    assert_eq!(q, "main");
    assert!(!sha);
}

#[test]
fn commit_pattern_and_phrase() {
    assert_eq!(ThreadRepository::commit_like_pattern("abc123d"), "abc123d%");
    assert_eq!(ThreadRepository::fts_phrase("say \"hi\""), "\"say  hi \"");
}

#[test]
fn commit_flags_mark_first_and_current() {
    let first = Some("commit1".to_string());
    let current = Some("commit2".to_string());
    assert_eq!(ThreadRepository::commit_flags(&"commit1".to_string(), &first, &current), (true, false));
    assert_eq!(ThreadRepository::commit_flags(&"commit2".to_string(), &first, &current), (false, true));
    assert_eq!(ThreadRepository::commit_flags(&"commit3".to_string(), &None, &None), (false, false));
}

#[test]
fn agent_state_names() {
    assert_eq!(AgentStateKind::WaitingForUserInput.as_str(), "waiting_for_user_input");
    assert_eq!(AgentStateKind::PostToolsHook.as_str(), "post_tools_hook");
    assert_eq!(AgentStateKind::ShuttingDown.as_str(), "shutting_down");
}

#[test]
fn audit_filter_orders_conditions() {
    let q = AuditQuery {
        event_type: Some("login".to_string()),
        actor_id: None,
        resource_type: Some("org".to_string()),
        resource_id: None,
        from: None,
        to: Some("2025-01-01T00:00:00+00:00".to_string()),
    };
    let (clause, binds) = audit_filter(&q);
    assert_eq!(clause, "WHERE event_type = ? AND resource_type = ? AND timestamp <= ?");
    assert_eq!(binds, vec!["login".to_string(), "org".to_string(), "2025-01-01T00:00:00+00:00".to_string()]);
    let empty = AuditQuery { event_type: None, actor_id: None, resource_type: None, resource_id: None, from: None, to: None };
    let (clause, binds) = audit_filter(&empty);
    assert_eq!(clause, "");
    assert!(binds.is_empty());
}
