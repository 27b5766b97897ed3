use loom_server::access::{can_read_repo, is_repo_admin, OrgRole, OwnerType, Visibility};
use loom_server::jobs::{cleanup_report, CleanupCounts};
use loom_server::llm_proxy::{map_llm_error, LlmError};
use loom_server::error::ServerError;
use loom_server::routes::admin_anthropic::{
    account_id_for, accounts_response, accounts_summary, added_redirect, admin_gate, authorize_url, error_redirect,
    remove_failure, AccountDetailsResponse, AccountStatus,
};
use loom_server::routes::api_keys::{
    check_revocable, hash_token, parse_org_id, revoke_outcome, validate_create_request, ApiKeyRecord, ApiKeyScopeApi,
    CreateApiKeyRequest,
};
use loom_server::routes::flags::{bearer_token, combine_kill_switches, merge_flags, FlagOrigin};
use loom_server::routes::maintenance::{
    check_repo_maintenance, default_limit, default_stagger_ms, default_task, repo_job_queued, sweep_queued,
    MaintenanceTaskApi,
};
use loom_server::routes::protection::{check_rule_for_repo, default_true, validate_pattern};
use loom_server::routes::repos::{
    apply_repo_update, build_clone_url, visible_repos, RepoSettings, UpdateRepoRequest,
};
use loom_server::routes::webhooks::{
    check_webhook_owner, delete_outcome, validate_events, validate_url, WebhookOwnerType, WebhookStoreFailure,
};

#[test]
fn hash_token_is_hex_sha256() {
    assert_eq!(hash_token(""), "e3b0c44298fc1c149afbf4c8996fb92427ae41e4649b934ca495991b7852b855");
    assert_eq!(hash_token("abc"), "ba7816bf8f01cfea414140de5dae2223b00361a396177a9cb410ff61f20015ad");
}

#[test]
fn org_id_must_be_a_uuid() {
    assert_eq!(parse_org_id("00000000-0000-0000-0000-000000000001").ok(), Some(1u128));
    let err = parse_org_id("not-a-uuid").err().unwrap();
    assert_eq!(err.0, 400);
    assert_eq!(err.1.error, "invalid_org_id");
}

#[test]
fn api_key_request_needs_name_and_scopes() {
    let blank = CreateApiKeyRequest { name: "   ".to_string(), scopes: vec![ApiKeyScopeApi::LlmUse] };
    assert_eq!(validate_create_request(&blank).err().unwrap().1.error, "invalid_name");
    let no_scopes = CreateApiKeyRequest { name: "ci".to_string(), scopes: vec![] };
    assert_eq!(validate_create_request(&no_scopes).err().unwrap().1.error, "invalid_scopes");
    let ok = CreateApiKeyRequest { name: "ci".to_string(), scopes: vec![ApiKeyScopeApi::ThreadsRead] };
    assert!(validate_create_request(&ok).is_ok());
}

#[test]
fn revoked_key_stays_revoked() {
    let key = ApiKeyRecord { org_id: 7, revoked: false };
    assert!(check_revocable(7, Ok(Some(key))).is_ok());
    let revoked = ApiKeyRecord { org_id: 7, revoked: true };
    let err = check_revocable(7, Ok(Some(revoked))).err().unwrap();
    assert_eq!(err.0, 409);
    assert_eq!(err.1.error, "already_revoked");
    let other = check_revocable(8, Ok(Some(key))).err().unwrap();
    assert_eq!(other.0, 404);
    assert_eq!(check_revocable(7, Ok(None)).err().unwrap().0, 404);
    assert_eq!(check_revocable(7, Err(())).err().unwrap().0, 500);
    assert_eq!(revoke_outcome(Ok(false)).err().unwrap().0, 409);
    assert_eq!(revoke_outcome(Err(())).err().unwrap().0, 500);
    assert!(revoke_outcome(Ok(true)).is_ok());
}

#[test]
fn url_encoding_in_redirects() {
    assert_eq!(error_redirect("bad thing/ok"), "/admin/anthropic-accounts?error=bad+thing%2Fok");
    assert_eq!(added_redirect(None, "pool-max-1"), "/admin/anthropic-accounts?added=pool-max-1");
    assert_eq!(added_redirect(Some("/x?y=1".to_string()), "a b"), "/x?y=1&added=a+b");
    assert_eq!(account_id_for("pool-max", 1700000000), "pool-max-1700000000");
    assert_eq!(account_id_for("pool-max", -5), "pool-max--5");
}

#[test]
fn authorize_url_carries_encoded_parameters() {
    let u = authorize_url("https://auth.example/oauth/authorize", "cid", "https://h/cb", "a b", "ch", "st").unwrap();
    assert_eq!(
        u,
        "https://auth.example/oauth/authorize?code=true&client_id=cid&response_type=code&redirect_uri=https%3A%2F%2Fh%2Fcb&scope=a+b&code_challenge=ch&code_challenge_method=S256&state=st"
    );
    // The endpoint is read as a URL: its host is written in lower case.
    let u = authorize_url("HTTPS://Auth.Example/authorize", "c", "r", "s", "h", "t").unwrap();
    assert!(u.starts_with("https://auth.example/authorize?code=true&client_id=c&"));
    assert!(authorize_url("not a url", "c", "r", "s", "h", "t").is_none());
    let pairs = "code=true&client_id=c&response_type=code&redirect_uri=r&scope=s&code_challenge=h&code_challenge_method=S256&state=t";
    assert_eq!(
        authorize_url("https://a.example/auth?x=1", "c", "r", "s", "h", "t").unwrap(),
        format!("https://a.example/auth?x=1&{pairs}")
    );
    assert_eq!(
        authorize_url("https://a.example/auth?", "c", "r", "s", "h", "t").unwrap(),
        format!("https://a.example/auth?{pairs}")
    );
    assert_eq!(
        authorize_url("https://a.example/auth#top", "c", "r", "s", "h", "t").unwrap(),
        format!("https://a.example/auth?{pairs}#top")
    );
    assert_eq!(
        authorize_url("https://a.example/auth?x=1#top", "c", "r", "s", "h", "t").unwrap(),
        format!("https://a.example/auth?x=1&{pairs}#top")
    );
}

#[test]
fn accounts_are_summed_up() {
    let s = accounts_summary(&vec![AccountStatus::Available, AccountStatus::Disabled, AccountStatus::Available]);
    assert_eq!((s.total, s.available, s.cooling_down, s.disabled), (3, 2, 0, 1));
}

#[test]
fn accounts_listing_keeps_accounts_and_sums_them_up() {
    let account = |id: &str, status: AccountStatus| AccountDetailsResponse {
        id: id.to_string(),
        status,
        cooldown_remaining_secs: None,
        last_error: None,
        expires_at: Some(1_700_000_000),
    };
    let r = accounts_response(vec![
        account("a", AccountStatus::CoolingDown),
        account("b", AccountStatus::Available),
        account("c", AccountStatus::CoolingDown),
    ]);
    let ids: Vec<&str> = r.accounts.iter().map(|a| a.id.as_str()).collect();
    assert_eq!(ids, vec!["a", "b", "c"]);
    assert_eq!((r.summary.total, r.summary.available, r.summary.cooling_down, r.summary.disabled), (3, 1, 2, 0));
    let empty = accounts_response(Vec::new());
    assert_eq!((empty.summary.total, empty.summary.available), (0, 0));
}

#[test]
fn admin_gate_answers() {
    assert_eq!(admin_gate(false, Some(true)).err().unwrap().0, 403);
    assert_eq!(admin_gate(true, None).err().unwrap().0, 501);
    assert_eq!(admin_gate(true, Some(false)).err().unwrap().1.message, "Anthropic is not configured in OAuth pool mode");
    assert!(admin_gate(true, Some(true)).is_ok());
    assert_eq!(remove_failure("account not found", "x").1.message, "Account 'x' not found");
    assert_eq!(remove_failure("boom", "x").0, 500);
}

#[test]
fn platform_flag_wins_over_org_flag() {
    let org = vec!["a".to_string(), "b".to_string()];
    let platform = vec!["b".to_string(), "c".to_string()];
    let t = merge_flags(&org, &platform);
    assert_eq!(t.len(), 3);
    for (k, f) in &t {
        match k.as_str() {
            "a" => assert_eq!((f.origin, f.index), (FlagOrigin::Org, 0)),
            "b" => assert_eq!((f.origin, f.index), (FlagOrigin::Platform, 0)),
            "c" => assert_eq!((f.origin, f.index), (FlagOrigin::Platform, 1)),
            _ => panic!("unexpected key"),
        }
    }
}

#[test]
fn kill_switches_platform_first() {
    assert_eq!(combine_kill_switches(vec![1, 2], vec![3]), vec![1, 2, 3]);
}

#[test]
fn bearer_prefix_in_any_case() {
    assert_eq!(bearer_token("Bearer abc").as_deref(), Some("abc"));
    assert_eq!(bearer_token("BEARER xyz").as_deref(), Some("xyz"));
    assert_eq!(bearer_token("Basic abc"), None);
    assert_eq!(bearer_token("Bear"), None);
}

#[test]
fn maintenance_defaults_and_messages() {
    assert_eq!(default_task(), MaintenanceTaskApi::Gc);
    assert_eq!(default_limit(), 50);
    assert_eq!(default_stagger_ms(), 1000);
    let (code, r) = repo_job_queued("j1".to_string(), MaintenanceTaskApi::Repack);
    assert_eq!(code, 202);
    assert_eq!(r.message, "Maintenance task 'repack' queued for repository");
    assert_eq!(sweep_queued("j2".to_string(), MaintenanceTaskApi::All).1.message, "Global maintenance sweep 'all' queued");
    assert_eq!(check_repo_maintenance(true, true, Ok(false)).err().unwrap().0, 404);
    assert_eq!(check_repo_maintenance(false, true, Ok(true)).err().unwrap().0, 501);
}

#[test]
fn protection_pattern_rules() {
    assert!(default_true());
    assert!(validate_pattern("main").is_ok());
    assert_eq!(validate_pattern("").err().unwrap().0, 400);
    assert!(validate_pattern(&"x".repeat(256)).is_ok());
    assert!(validate_pattern(&"x".repeat(257)).is_err());
    assert!(check_rule_for_repo(5, Ok(Some(5))).is_ok());
    assert_eq!(check_rule_for_repo(5, Ok(Some(6))).err().unwrap().0, 404);
}

#[test]
fn clone_url_drops_trailing_slashes() {
    assert_eq!(build_clone_url("https://loom.dev//", "alice", "proj"), "https://loom.dev/git/alice/proj.git");
    assert_eq!(build_clone_url("http://h", "org", "r"), "http://h/git/org/r.git");
}

#[test]
fn repo_update_rules() {
    let s = RepoSettings { name: "a".to_string(), visibility: Visibility::Private, default_branch: "main".to_string() };
    let u = UpdateRepoRequest { name: Some("b".to_string()), visibility: None, default_branch: None };
    let r = apply_repo_update(s, u).ok().unwrap();
    assert_eq!(r.name, "b");
    assert_eq!(r.default_branch, "main");
    let s = RepoSettings { name: "a".to_string(), visibility: Visibility::Private, default_branch: "main".to_string() };
    let bad = UpdateRepoRequest { name: None, visibility: None, default_branch: Some(String::new()) };
    assert_eq!(apply_repo_update(s, bad).err().unwrap().1.error, "invalid_branch");
}

#[test]
fn listing_shows_public_unless_owner() {
    let vis = vec![Visibility::Public, Visibility::Private, Visibility::Public];
    assert_eq!(visible_repos(&vis, false), vec![0, 2]);
    assert_eq!(visible_repos(&vis, true), vec![0, 1, 2]);
}

#[test]
fn repository_access() {
    assert!(is_repo_admin(OwnerType::User, 1, 1, None));
    assert!(!is_repo_admin(OwnerType::Org, 1, 1, Some(OrgRole::Member)));
    assert!(can_read_repo(Visibility::Public, OwnerType::User, 1, 2, false));
    assert!(!can_read_repo(Visibility::Private, OwnerType::Org, 1, 2, false));
}

#[test]
fn webhook_checks() {
    assert_eq!(validate_url(""), Some("URL is required".to_string()));
    assert_eq!(validate_url("ftp://x"), Some("URL must start with http:// or https://".to_string()));
    assert_eq!(validate_url("https://x"), None);
    assert_eq!(validate_events(&vec![]), Some("At least one event is required".to_string()));
    assert_eq!(
        validate_events(&vec!["push".to_string(), "tag".to_string()]),
        Some("Invalid event 'tag'. Valid events: push, repo.created, repo.deleted".to_string())
    );
    assert_eq!(validate_events(&vec!["repo.created".to_string()]), None);
}

#[test]
fn llm_errors_map_to_server_errors() {
    match map_llm_error(LlmError::RateLimited { retry_after_secs: Some(30) }) {
        ServerError::ServiceUnavailable(m) => assert_eq!(m, "LLM rate limited; retry after 30 seconds"),
        _ => panic!("expected unavailable"),
    }
    match map_llm_error(LlmError::Timeout) {
        ServerError::UpstreamTimeout(m) => assert_eq!(m, "LLM request timed out"),
        _ => panic!("expected timeout"),
    }
    match map_llm_error(LlmError::Api("quota".to_string())) {
        ServerError::UpstreamError(m) => assert_eq!(m, "LLM API error: quota"),
        _ => panic!("expected upstream error"),
    }
}

#[test]
fn session_cleanup_report() {
    let (total, msg) = cleanup_report(CleanupCounts { sessions: 2, access_tokens: 3, device_codes: 0, magic_links: 1 });
    assert_eq!(total, 6);
    assert_eq!(msg, "Deleted 6 expired auth records");
}

#[test]
fn repo_paths_are_sharded() {
    let p = loom_server::routes::repos::repo_subpath("ab12cd34-0000-0000-0000-000000000000");
    assert_eq!(p, "ab/ab12cd34-0000-0000-0000-000000000000/git");
}

#[test]
fn crash_issue_scope() {
    let ok = loom_server::routes::crash::check_issue_in_project(1, Ok(Some(1)));
    assert!(ok.is_ok());
    let other = loom_server::routes::crash::check_issue_in_project(1, Ok(Some(2))).err().unwrap();
    assert_eq!((other.0, other.1.error.as_str()), (404, "issue_not_found"));
    let missing = loom_server::routes::crash::project_lookup_answer::<u8>(Ok(None)).err().unwrap();
    assert_eq!(missing.1.message, "Project not found");
}

#[test]
fn webhook_owner_and_delete() {
    assert!(check_webhook_owner(Ok(Some((WebhookOwnerType::Repo, 3))), WebhookOwnerType::Repo, 3).is_ok());
    assert_eq!(check_webhook_owner(Ok(Some((WebhookOwnerType::Org, 3))), WebhookOwnerType::Repo, 3).err().unwrap().0, 404);
    assert_eq!(delete_outcome(Ok(())).ok(), Some(204));
    assert_eq!(delete_outcome(Err(WebhookStoreFailure::Other)).err().unwrap().1.message, "Failed to delete webhook");
}
