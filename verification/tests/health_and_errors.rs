use loom_server::error::{ErrorResponse, ServerError};
use loom_server::health::{
    check_bin_dir, check_geoip, check_github_app, check_google_cse, check_kubernetes, check_smtp, cse_is_configured,
    GeoIpProbe, GithubErrorKind, GithubProbe, HealthStatus, ProbeOutcome,
};
use loom_server::num::{dec_string, parse_unsigned_exec, IntErrorKind};
use loom_server::routes::agent::{api_key_rejection, check_agent_api_key, provisioner_error, ApiKeyCheck, ProvisionerFailure};

fn body(r: (u16, ErrorResponse)) -> (u16, String, String) {
    (r.0, r.1.error, r.1.message)
}

#[test]
fn error_responses() {
    assert_eq!(
        body(ServerError::NotFound("T-1".to_string()).to_response()),
        (404, "not_found".to_string(), "Thread not found: T-1".to_string())
    );
    let (code, r) = ServerError::Conflict { expected: 3, actual: 2 }.to_response();
    assert_eq!(code, 409);
    assert_eq!(r.message, "Version conflict: expected 3, got 2");
    assert_eq!((r.server_version, r.client_version), (Some(3), Some(2)));
    assert_eq!(
        body(ServerError::Internal("secret detail".to_string()).to_response()),
        (500, "internal_error".to_string(), "An internal error occurred".to_string())
    );
    assert_eq!(body(ServerError::Db("x".to_string()).to_response()).2, "A database error occurred");
    assert_eq!(body(ServerError::Serialization("eof".to_string()).to_response()).2, "Invalid JSON: eof");
}

#[test]
fn bin_dir_states() {
    let missing = check_bin_dir("./bin".to_string(), false, false, Ok(vec![]), 1);
    assert_eq!(missing.status, HealthStatus::Degraded);
    assert_eq!(missing.error.as_deref(), Some("binary directory does not exist"));
    let file = check_bin_dir("./bin".to_string(), true, false, Ok(vec![]), 1);
    assert_eq!(file.error.as_deref(), Some("binary path is not a directory"));
    let empty = check_bin_dir("./bin".to_string(), true, true, Ok(vec![".hidden".to_string()]), 1);
    assert_eq!(empty.file_count, Some(0));
    assert_eq!(empty.status, HealthStatus::Degraded);
    let full = check_bin_dir("./bin".to_string(), true, true, Ok(vec!["loom".to_string(), ".x".to_string()]), 1);
    assert_eq!(full.file_count, Some(1));
    assert_eq!(full.status, HealthStatus::Healthy);
}

#[test]
fn component_checks() {
    assert!(!cse_is_configured(&Some("k".to_string()), &Some(String::new())));
    let cse = check_google_cse(Some(ProbeOutcome::Failed("401 Unauthorized".to_string())), 2);
    assert_eq!(cse.status, HealthStatus::Unhealthy);
    assert_eq!(cse.error.as_deref(), Some("Invalid API key or CSE ID"));
    let cse = check_google_cse(Some(ProbeOutcome::Failed("Rate limit hit".to_string())), 2);
    assert_eq!(cse.error.as_deref(), Some("Rate limited"));
    assert_eq!(check_google_cse(None, 0).error.as_deref(), Some("Google CSE not configured"));

    let gh = check_github_app(Some(GithubProbe::Failed { kind: GithubErrorKind::Jwt, message: "bad jwt".to_string() }), 1);
    assert_eq!(gh.status, HealthStatus::Unhealthy);
    let gh = check_github_app(Some(GithubProbe::Failed { kind: GithubErrorKind::Network, message: "down".to_string() }), 1);
    assert_eq!(gh.status, HealthStatus::Degraded);

    assert!(check_kubernetes(None, 0).is_none());
    let k = check_kubernetes(Some(("loom".to_string(), ProbeOutcome::TimedOut)), 9).unwrap();
    assert_eq!(k.status, HealthStatus::Unhealthy);
    assert!(!k.reachable);

    let smtp = check_smtp(Some(ProbeOutcome::Passed), 4);
    assert!(smtp.healthy);
    assert_eq!(check_smtp(None, 0).status, HealthStatus::Degraded);

    let geo = check_geoip(Some(GeoIpProbe { database_path: "/g.mmdb".to_string(), database_type: None }), 1);
    assert_eq!(geo.status, HealthStatus::Unhealthy);
    assert_eq!(geo.error.as_deref(), Some("GeoIP database lookup failed"));
}

#[test]
fn numbers() {
    assert_eq!(parse_unsigned_exec("+42", 100), Ok(42));
    assert_eq!(parse_unsigned_exec("", 100), Err(IntErrorKind::Empty));
    assert_eq!(parse_unsigned_exec("101", 100), Err(IntErrorKind::PosOverflow));
    assert_eq!(parse_unsigned_exec("1x", 100), Err(IntErrorKind::InvalidDigit));
    assert_eq!(dec_string(0), "0");
    assert_eq!(dec_string(18446744073709551615), "18446744073709551615");
}

#[test]
fn agent_api_key() {
    let key = Some("k1".to_string());
    assert_eq!(check_agent_api_key(&key, &Some("k1".to_string())), ApiKeyCheck::Accepted);
    assert_eq!(check_agent_api_key(&key, &Some("k2".to_string())), ApiKeyCheck::Invalid);
    assert_eq!(check_agent_api_key(&key, &None), ApiKeyCheck::Missing);
    assert_eq!(check_agent_api_key(&Some(String::new()), &Some("k1".to_string())), ApiKeyCheck::NotConfigured);
    assert!(api_key_rejection(ApiKeyCheck::Accepted).is_none());
    assert_eq!(body(api_key_rejection(ApiKeyCheck::Missing).unwrap()).2, "Missing X-API-Key header");
    match provisioner_error(ProvisionerFailure::TooManyAgents { current: 5, max: 4 }) {
        ServerError::ServiceUnavailable(m) => assert_eq!(m, "Too many agents: 5 running (max: 4)"),
        _ => panic!("expected unavailable"),
    }
}
