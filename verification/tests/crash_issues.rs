use loom_server::routes::crash::{
    batch_response, capture_outcome, check_batch_size, default_platform, event_environment, issue_metadata,
    capture_failure_message, crash_timestamp, record_event, release_exists, resolve_issue, validate_release_version, CaptureFailure,
    CaptureFrame, CaptureResponse, CrashInfo, IssueState, IssueStatus,
};

fn crash(timestamp: i64, release: Option<&str>) -> CrashInfo {
    CrashInfo { timestamp, release: release.map(|r| r.to_string()) }
}

fn frame(f: &str, in_app: bool) -> CaptureFrame {
    CaptureFrame {
        function: Some(f.to_string()),
        module: None,
        filename: Some(format!("{f}.js")),
        abs_path: None,
        lineno: Some(1),
        colno: None,
        in_app,
    }
}

#[test]
fn new_issue_is_unresolved_with_one_event() {
    let (s, is_new, reg) = capture_outcome(None, true, crash(1_000, Some("1.0.0")), 2_000);
    assert!(is_new);
    assert!(!reg);
    assert_eq!(
        s,
        IssueState {
            status: IssueStatus::Unresolved,
            event_count: 1,
            user_count: 1,
            times_regressed: 0,
            first_seen: 1_000,
            last_seen: 1_000,
            last_regressed_at: None,
            regressed_in_release: None,
        }
    );
    let (s, _, _) = capture_outcome(None, false, crash(1_000, None), 2_000);
    assert_eq!(s.user_count, 0);
}

#[test]
fn crash_on_resolved_issue_regresses() {
    let open = IssueState {
        status: IssueStatus::Unresolved,
        event_count: 4,
        user_count: 2,
        times_regressed: 0,
        first_seen: 100,
        last_seen: 500,
        last_regressed_at: None,
        regressed_in_release: None,
    };
    let resolved = resolve_issue(open);
    assert_eq!(resolved.status, IssueStatus::Resolved);
    let (s, reg) = record_event(resolved, crash(900, Some("2.1.0")), 950);
    assert!(reg);
    assert_eq!(s.status, IssueStatus::Regressed);
    assert_eq!(s.event_count, 5);
    assert_eq!(s.times_regressed, 1);
    assert_eq!((s.first_seen, s.last_seen), (100, 900));
    assert_eq!(s.last_regressed_at, Some(950));
    assert_eq!(s.regressed_in_release.as_deref(), Some("2.1.0"));
    let (s2, reg2) = record_event(s, crash(1_200, Some("2.2.0")), 1_300);
    assert!(!reg2);
    assert_eq!(s2.event_count, 6);
    assert_eq!(s2.times_regressed, 1);
    assert_eq!(s2.last_seen, 1_200);
    assert_eq!(s2.last_regressed_at, Some(950));
    assert_eq!(s2.regressed_in_release.as_deref(), Some("2.1.0"));
}

#[test]
fn failed_batch_events_are_explained() {
    assert_eq!(capture_failure_message(CaptureFailure::InvalidProjectId), "Invalid project ID");
    assert_eq!(capture_failure_message(CaptureFailure::ProjectNotFound), "Project not found");
    assert_eq!(
        capture_failure_message(CaptureFailure::ProjectLookup("db down".to_string())),
        "Failed to get project: db down"
    );
    assert_eq!(
        capture_failure_message(CaptureFailure::EventCreate("disk full".to_string())),
        "Failed to create event: disk full"
    );
}

#[test]
fn batch_size_limit() {
    assert!(check_batch_size(100).is_ok());
    let err = check_batch_size(101).err().unwrap();
    assert_eq!(err.0, 400);
    assert_eq!(err.1.error, "batch_too_large");
    assert_eq!(err.1.message, "Batch size exceeds maximum of 100 events");
}

#[test]
fn batch_results_add_up() {
    let ok = CaptureResponse {
        event_id: "e".to_string(),
        issue_id: "i".to_string(),
        short_id: "P-1".to_string(),
        is_new_issue: true,
        is_regression: false,
    };
    let r = batch_response(&vec![Ok(ok), Err("Project not found".to_string())]);
    assert_eq!((r.total, r.success_count, r.error_count), (2, 1, 1));
    assert!(r.results[0].success);
    assert_eq!(r.results[0].short_id.as_deref(), Some("P-1"));
    assert_eq!(r.results[1].index, 1);
    assert_eq!(r.results[1].error.as_deref(), Some("Project not found"));
}

#[test]
fn metadata_comes_from_first_app_frame() {
    let frames = vec![frame("lib", false), frame("app", true), frame("later", true)];
    let m = issue_metadata(&"TypeError".to_string(), &"x is undefined".to_string(), &frames);
    assert_eq!(m.function.as_deref(), Some("app"));
    assert_eq!(m.filename.as_deref(), Some("app.js"));
    let m = issue_metadata(&"E".to_string(), &"v".to_string(), &vec![frame("lib", false)]);
    assert_eq!(m.function, None);
}

#[test]
fn defaults_and_release_checks() {
    assert_eq!(default_platform(), "javascript");
    assert_eq!(event_environment(None), "production");
    assert_eq!(event_environment(Some("staging".to_string())), "staging");
    assert!(validate_release_version("1.0.0").is_ok());
    assert_eq!(validate_release_version("").err().unwrap().1.error, "invalid_version");
    assert!(validate_release_version(&"v".repeat(201)).is_err());
    assert_eq!(release_exists("1.2").1.message, "Release 1.2 already exists");
}

#[test]
fn crash_timestamps_read_rfc3339_or_fall_back_to_now() {
    let now = 42;
    assert_eq!(crash_timestamp(&Some("2024-01-02T03:04:05.678Z".to_string()), now), 1_704_164_645_678);
    assert_eq!(crash_timestamp(&Some("2024-01-02T04:04:05+01:00".to_string()), now), 1_704_164_645_000);
    assert_eq!(crash_timestamp(&Some("yesterday".to_string()), now), now);
    assert_eq!(crash_timestamp(&None, now), now);
}
