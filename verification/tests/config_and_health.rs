use loom_server::config::{ConfigError, ConfigVars, ServerConfig};
use loom_server::health::{
    check_database, health_http_status, pool_status, HealthStatus, ProbeOutcome,
};

#[test]
fn empty_environment_gives_defaults() {
    let c = ServerConfig::from_vars(&ConfigVars::unset()).unwrap();
    assert_eq!(c.host, "0.0.0.0");
    assert_eq!(c.port, 8080);
    assert_eq!(c.database_url, "sqlite:./loom.db");
    assert_eq!(c.base_url, "http://localhost:8080");
    assert_eq!(c.weaver_cleanup_interval_secs, 1800);
    assert_eq!(c.weaver_max_concurrent, 64);
    assert_eq!(c.smtp_port, 587);
    assert_eq!(c.default_locale, "en");
    assert_eq!(c.log_level, "info");
    assert_eq!(ServerConfig::default().log_level, "info");
    assert!(!c.weaver_enabled);
    assert!(c.smtp_use_tls);
    assert!(c.job_alert_recipients.is_empty());
    assert_eq!(c.socket_addr(), "0.0.0.0:8080");
}

#[test]
fn default_config_matches_empty_environment() {
    let d = ServerConfig::default();
    let e = ServerConfig::from_vars(&ConfigVars::unset()).unwrap();
    assert_eq!(d.socket_addr(), e.socket_addr());
    assert_eq!(d.base_url, e.base_url);
    assert_eq!(d.session_cleanup_interval_secs, e.session_cleanup_interval_secs);
}

#[test]
fn port_sets_base_url() {
    let mut v = ConfigVars::unset();
    v.port = Some("9000".to_string());
    let c = ServerConfig::from_vars(&v).unwrap();
    assert_eq!(c.port, 9000);
    assert_eq!(c.base_url, "http://localhost:9000");
}

#[test]
fn bad_port_is_refused() {
    let mut v = ConfigVars::unset();
    v.port = Some("70000".to_string());
    match ServerConfig::from_vars(&v) {
        Err(ConfigError::InvalidPort(m)) => assert_eq!(m, "number too large to fit in target type"),
        _ => panic!("expected an invalid port"),
    }
    v.port = Some("http".to_string());
    match ServerConfig::from_vars(&v) {
        Err(ConfigError::InvalidPort(m)) => assert_eq!(m, "invalid digit found in string"),
        _ => panic!("expected an invalid port"),
    }
}

#[test]
fn recipients_are_split_and_trimmed() {
    let mut v = ConfigVars::unset();
    v.job_alert_recipients = Some(" a@x.org , ,b@y.org".to_string());
    let c = ServerConfig::from_vars(&v).unwrap();
    assert_eq!(c.job_alert_recipients, vec!["a@x.org".to_string(), "b@y.org".to_string()]);
}

#[test]
fn health_http_status_codes() {
    assert_eq!(health_http_status(HealthStatus::Healthy), 200);
    assert_eq!(health_http_status(HealthStatus::Degraded), 200);
    assert_eq!(health_http_status(HealthStatus::Unhealthy), 503);
    assert_eq!(health_http_status(HealthStatus::Unknown), 503);
}

#[test]
fn database_probe_outcomes() {
    let ok = check_database(ProbeOutcome::Passed, 3);
    assert_eq!(ok.status, HealthStatus::Healthy);
    assert_eq!(ok.latency_ms, 3);
    let bad = check_database(ProbeOutcome::Failed("boom".to_string()), 5);
    assert_eq!(bad.status, HealthStatus::Unhealthy);
    assert_eq!(bad.error.as_deref(), Some("boom"));
}

#[test]
fn pool_status_levels() {
    assert_eq!(pool_status(3, 3), HealthStatus::Healthy);
    assert_eq!(pool_status(1, 3), HealthStatus::Degraded);
    assert_eq!(pool_status(0, 3), HealthStatus::Unhealthy);
}
