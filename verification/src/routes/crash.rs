//! Crash analytics endpoints: the request and response types, how a captured
//! crash moves its issue along (new, regressed, counted), how a batch of
//! captures is summed up, and the checks made before anything is stored.

use vstd::prelude::*;
use vstd::string::StringExecFns;

verus! {

broadcast use vstd::string::group_string_axioms;

/// Error body of the crash endpoints.
#[derive(Debug)]
pub struct CrashErrorResponse {
    pub error: String,
    pub message: String,
}

/// An error answer of the crash endpoints, with its status.
pub open spec fn crash_error_is(r: (u16, CrashErrorResponse), status: u16, error: Seq<char>, message: Seq<char>) -> bool {
    r.0 == status && r.1.error@ == error && r.1.message@ == message
}

fn crash_error(status: u16, error: &str, message: String) -> (r: (u16, CrashErrorResponse))
    ensures
        crash_error_is(r, status, error@, message@),
{
    (status, CrashErrorResponse { error: error.to_string(), message })
}

/// Stack trace of a captured crash.
#[derive(Debug)]
pub struct CaptureStacktrace {
    pub frames: Vec<CaptureFrame>,
}

/// One frame of a captured stack trace.
#[derive(Debug)]
pub struct CaptureFrame {
    pub function: Option<String>,
    pub module: Option<String>,
    pub filename: Option<String>,
    pub abs_path: Option<String>,
    pub lineno: Option<u32>,
    pub colno: Option<u32>,
    pub in_app: bool,
}

/// Answer to a crash capture.
#[derive(Debug)]
pub struct CaptureResponse {
    pub event_id: String,
    pub issue_id: String,
    pub short_id: String,
    pub is_new_issue: bool,
    pub is_regression: bool,
}

/// Outcome of one event of a batch capture.
#[derive(Debug)]
pub struct BatchCaptureEventResult {
    /// Index of the event in the request.
    pub index: usize,
    /// Whether the event was captured.
    pub success: bool,
    pub event_id: Option<String>,
    pub issue_id: Option<String>,
    pub short_id: Option<String>,
    pub is_new_issue: Option<bool>,
    pub is_regression: Option<bool>,
    /// Why the event was not captured.
    pub error: Option<String>,
}

/// Answer to a batch capture.
#[derive(Debug)]
pub struct BatchCaptureResponse {
    /// Number of events in the request.
    pub total: usize,
    /// Number of events captured.
    pub success_count: usize,
    /// Number of events that failed.
    pub error_count: usize,
    /// One result per event, in request order.
    pub results: Vec<BatchCaptureEventResult>,
}

/// Request to create a crash project.
#[derive(Debug)]
pub struct CreateProjectRequest {
    pub org_id: String,
    pub name: String,
    pub slug: String,
    pub platform: String,
}

/// Platform of a project created without one.
pub fn default_platform() -> (r: String)
    ensures
        r@ == "javascript"@,
{
    "javascript".to_string()
}

/// A crash project.
#[derive(Debug)]
pub struct ProjectResponse {
    pub id: String,
    pub org_id: String,
    pub name: String,
    pub slug: String,
    pub platform: String,
    pub created_at: String,
    pub updated_at: String,
}

/// Query of the project listing.
#[derive(Debug)]
pub struct ListProjectsParams {
    pub org_id: String,
}

/// An issue, as listed.
#[derive(Debug)]
pub struct IssueResponse {
    pub id: String,
    pub project_id: String,
    pub short_id: String,
    pub title: String,
    pub culprit: Option<String>,
    pub status: String,
    pub level: String,
    pub priority: String,
    pub event_count: u64,
    pub user_count: u64,
    pub first_seen: String,
    pub last_seen: String,
    pub times_regressed: u32,
}

/// An issue with all its details.
#[derive(Debug)]
pub struct IssueDetailResponse {
    pub id: String,
    pub org_id: String,
    pub project_id: String,
    pub short_id: String,
    pub fingerprint: String,
    pub title: String,
    pub culprit: Option<String>,
    pub metadata: IssueMetadataResponse,
    pub status: String,
    pub level: String,
    pub priority: String,
    pub event_count: u64,
    pub user_count: u64,
    pub first_seen: String,
    pub last_seen: String,
    pub resolved_at: Option<String>,
    pub resolved_by: Option<String>,
    pub resolved_in_release: Option<String>,
    pub times_regressed: u32,
    pub last_regressed_at: Option<String>,
    pub regressed_in_release: Option<String>,
    pub assigned_to: Option<String>,
    pub created_at: String,
    pub updated_at: String,
}

/// What an issue records of the exception that opened it.
#[derive(Debug)]
pub struct IssueMetadataResponse {
    pub exception_type: String,
    pub exception_value: String,
    pub filename: Option<String>,
    pub function: Option<String>,
}

/// A stored crash event.
#[derive(Debug)]
pub struct CrashEventResponse {
    pub id: String,
    pub issue_id: Option<String>,
    pub person_id: Option<String>,
    pub distinct_id: String,
    pub exception_type: String,
    pub exception_value: String,
    pub stacktrace: StacktraceResponse,
    pub release: Option<String>,
    pub dist: Option<String>,
    pub environment: String,
    pub platform: String,
    pub server_name: Option<String>,
    pub tags: Vec<(String, String)>,
    pub active_flags: Vec<(String, String)>,
    pub timestamp: String,
    pub received_at: String,
}

/// A stored stack trace.
#[derive(Debug)]
pub struct StacktraceResponse {
    pub frames: Vec<FrameResponse>,
}

/// A stored stack frame.
#[derive(Debug)]
pub struct FrameResponse {
    pub function: Option<String>,
    pub module: Option<String>,
    pub filename: Option<String>,
    pub abs_path: Option<String>,
    pub lineno: Option<u32>,
    pub colno: Option<u32>,
    pub in_app: bool,
    pub context_line: Option<String>,
    pub pre_context: Vec<String>,
    pub post_context: Vec<String>,
}

/// Query of the crash event stream.
#[derive(Debug)]
pub struct StreamCrashParams {
    pub project_id: String,
}

/// A release of a project.
#[derive(Debug)]
pub struct ReleaseResponse {
    pub id: String,
    pub project_id: String,
    pub version: String,
    pub short_version: Option<String>,
    pub url: Option<String>,
    pub crash_count: u64,
    pub new_issue_count: u64,
    pub regression_count: u64,
    pub user_count: u64,
    pub date_released: Option<String>,
    pub first_event: Option<String>,
    pub last_event: Option<String>,
    pub created_at: String,
}

/// Request to create a release.
#[derive(Debug)]
pub struct CreateReleaseRequest {
    pub version: String,
    pub short_version: Option<String>,
    pub url: Option<String>,
    pub date_released: Option<String>,
}

// ---------------------------------------------------------------------------
// The life of an issue
// ---------------------------------------------------------------------------

/// Where an issue stands.
#[derive(Debug, Clone, Copy, PartialEq, Eq, Structural)]
pub enum IssueStatus {
    Unresolved,
    Resolved,
    Regressed,
}

/// What the capture path reads and changes of an issue. Times are Unix
/// timestamps in milliseconds.
#[derive(Debug, Clone, PartialEq, Eq)]
pub struct IssueState {
    pub status: IssueStatus,
    pub event_count: u64,
    pub user_count: u64,
    pub times_regressed: u32,
    /// When the first crash of the issue happened.
    pub first_seen: i64,
    /// When the latest crash of the issue happened.
    pub last_seen: i64,
    /// When the issue last regressed.
    pub last_regressed_at: Option<i64>,
    /// The release of the crash that last regressed the issue.
    pub regressed_in_release: Option<String>,
}

/// What the issue model reads of a captured crash.
#[derive(Debug, Clone, PartialEq, Eq)]
pub struct CrashInfo {
    /// When the crash happened.
    pub timestamp: i64,
    /// The release the crash came from, if it names one.
    pub release: Option<String>,
}

/// The issue opened by a crash that matches none: unresolved, one event, one
/// user when the crash names a person, first and last seen at the crash.
pub open spec fn opened_issue(has_person: bool, crash: CrashInfo) -> IssueState {
    IssueState {
        status: IssueStatus::Unresolved,
        event_count: 1,
        user_count: if has_person { 1 } else { 0 },
        times_regressed: 0,
        first_seen: crash.timestamp,
        last_seen: crash.timestamp,
        last_regressed_at: None,
        regressed_in_release: None,
    }
}

/// Whether one more crash can be counted on an issue without overflow.
pub open spec fn can_record(s: IssueState) -> bool {
    s.event_count < u64::MAX && (s.status == IssueStatus::Resolved ==> s.times_regressed < u32::MAX)
}

/// An issue after one more crash matched it at time `now`: the count goes
/// up and the issue was last seen at the crash; a resolved issue regresses,
/// now, in the crash's release.
pub open spec fn recorded(s: IssueState, crash: CrashInfo, now: i64) -> IssueState
    recommends
        can_record(s),
{
    if s.status == IssueStatus::Resolved {
        IssueState {
            status: IssueStatus::Regressed,
            event_count: (s.event_count + 1) as u64,
            times_regressed: (s.times_regressed + 1) as u32,
            last_seen: crash.timestamp,
            last_regressed_at: Some(now),
            regressed_in_release: crash.release,
            ..s
        }
    } else {
        IssueState { event_count: (s.event_count + 1) as u64, last_seen: crash.timestamp, ..s }
    }
}

/// An issue after it was resolved.
pub open spec fn resolved(s: IssueState) -> IssueState {
    IssueState { status: IssueStatus::Resolved, ..s }
}

/// Opens an issue for a crash that matches no existing one.
pub fn open_issue(has_person: bool, crash: CrashInfo) -> (r: IssueState)
    ensures
        r == opened_issue(has_person, crash),
{
    IssueState {
        status: IssueStatus::Unresolved,
        event_count: 1,
        user_count: if has_person { 1 } else { 0 },
        times_regressed: 0,
        first_seen: crash.timestamp,
        last_seen: crash.timestamp,
        last_regressed_at: None,
        regressed_in_release: None,
    }
}

/// Counts one more crash on an existing issue at time `now`. Returns the
/// issue as it now stands and whether the crash is a regression, that is,
/// whether the issue had been resolved.
pub fn record_event(issue: IssueState, crash: CrashInfo, now: i64) -> (r: (IssueState, bool))
    requires
        can_record(issue),
    ensures
        r.0 == recorded(issue, crash, now),
        r.1 == (issue.status == IssueStatus::Resolved),
{
    let is_regression = issue.status == IssueStatus::Resolved;
    if is_regression {
        (
            IssueState {
                status: IssueStatus::Regressed,
                event_count: issue.event_count + 1,
                times_regressed: issue.times_regressed + 1,
                last_seen: crash.timestamp,
                last_regressed_at: Some(now),
                regressed_in_release: crash.release,
                ..issue
            },
            true,
        )
    } else {
        (IssueState { event_count: issue.event_count + 1, last_seen: crash.timestamp, ..issue }, false)
    }
}

/// Marks an issue resolved; nothing else of it changes.
pub fn resolve_issue(issue: IssueState) -> (r: IssueState)
    ensures
        r == resolved(issue),
{
    IssueState { status: IssueStatus::Resolved, ..issue }
}

/// What a captured crash does to its issue at time `now`: `existing` is the
/// issue its fingerprint matched, if any. Returns the issue as it now
/// stands, whether it is new and whether the crash is a regression.
pub fn capture_outcome(existing: Option<IssueState>, has_person: bool, crash: CrashInfo, now: i64) -> (r: (
    IssueState,
    bool,
    bool,
))
    requires
        existing matches Some(s) ==> can_record(s),
    ensures
        match existing {
            None => r == (opened_issue(has_person, crash), true, false),
            Some(s) => r == (recorded(s, crash, now), false, s.status == IssueStatus::Resolved),
        },
{
    match existing {
        None => (open_issue(has_person, crash), true, false),
        Some(s) => {
            let (n, reg) = record_event(s, crash, now);
            (n, false, reg)
        },
    }
}

/// A crash on a resolved issue is a regression: the issue is regressed, its
/// regression count goes up by one and its event count by one, and it
/// records when it regressed and in which release; a second crash right
/// after is no regression and keeps that record.
pub proof fn lemma_resolved_issue_regresses(s: IssueState, c1: CrashInfo, t1: i64, c2: CrashInfo, t2: i64)
    requires
        s.event_count < u64::MAX - 1,
        s.times_regressed < u32::MAX,
    ensures
        recorded(resolved(s), c1, t1).status == IssueStatus::Regressed,
        recorded(resolved(s), c1, t1).times_regressed == s.times_regressed + 1,
        recorded(resolved(s), c1, t1).event_count == s.event_count + 1,
        recorded(resolved(s), c1, t1).user_count == s.user_count,
        recorded(resolved(s), c1, t1).last_regressed_at == Some(t1),
        recorded(resolved(s), c1, t1).regressed_in_release == c1.release,
        can_record(recorded(resolved(s), c1, t1)),
        recorded(recorded(resolved(s), c1, t1), c2, t2).status == IssueStatus::Regressed,
        recorded(recorded(resolved(s), c1, t1), c2, t2).times_regressed == s.times_regressed + 1,
        recorded(recorded(resolved(s), c1, t1), c2, t2).last_regressed_at == Some(t1),
        recorded(recorded(resolved(s), c1, t1), c2, t2).regressed_in_release == c1.release,
{
}

/// Counting crashes never resolves an issue nor lowers a count: an issue
/// that is not resolved stays in its status, every count only grows, the
/// issue was last seen at the crash, and its first sighting stays.
pub proof fn lemma_recording_is_monotone(s: IssueState, c: CrashInfo, now: i64)
    requires
        can_record(s),
    ensures
        recorded(s, c, now).status != IssueStatus::Resolved,
        s.status != IssueStatus::Resolved ==> recorded(s, c, now).status == s.status,
        recorded(s, c, now).event_count == s.event_count + 1,
        recorded(s, c, now).times_regressed >= s.times_regressed,
        recorded(s, c, now).user_count == s.user_count,
        recorded(s, c, now).last_seen == c.timestamp,
        recorded(s, c, now).first_seen == s.first_seen,
{
}

/// Something that happens to an issue.
#[derive(Debug, Clone, PartialEq, Eq)]
pub enum IssueEvent {
    /// A crash matched the issue, handled at time `at`.
    Captured { crash: CrashInfo, at: i64 },
    /// Someone resolved the issue.
    Resolved,
}

/// An issue after a list of events, in order.
pub open spec fn replay(s: IssueState, events: Seq<IssueEvent>) -> IssueState
    decreases events.len(),
{
    if events.len() == 0 {
        s
    } else {
        let before = replay(s, events.drop_last());
        match events.last() {
            IssueEvent::Captured { crash, at } => recorded(before, crash, at),
            IssueEvent::Resolved => resolved(before),
        }
    }
}

/// The number of crashes among the events.
pub open spec fn captures(events: Seq<IssueEvent>) -> nat
    decreases events.len(),
{
    if events.len() == 0 {
        0
    } else {
        captures(events.drop_last()) + if events.last() is Captured { 1nat } else { 0nat }
    }
}

/// Over any history of an issue: its event count grows by exactly the number
/// of crashes, its user count and first sighting do not change, it regresses
/// at most once per crash, it stands resolved exactly when the last thing
/// that happened to it was a resolution, and after a crash it was last seen
/// at that crash.
pub proof fn lemma_issue_history(s: IssueState, events: Seq<IssueEvent>)
    requires
        s.event_count + events.len() < u64::MAX,
        s.times_regressed + events.len() < u32::MAX,
    ensures
        replay(s, events).event_count == s.event_count + captures(events),
        replay(s, events).user_count == s.user_count,
        replay(s, events).first_seen == s.first_seen,
        s.times_regressed <= replay(s, events).times_regressed <= s.times_regressed + captures(events),
        events.len() > 0 ==> (replay(s, events).status == IssueStatus::Resolved <==> events.last()
            == IssueEvent::Resolved),
        events.len() > 0 && events.last() is Captured ==> replay(s, events).last_seen
            == events.last()->crash.timestamp,
        captures(events) <= events.len(),
    decreases events.len(),
{
    if events.len() > 0 {
        lemma_issue_history(s, events.drop_last());
    }
}

// ---------------------------------------------------------------------------
// Batch capture
// ---------------------------------------------------------------------------

/// Why one event of a batch could not be captured. The carried strings
/// are the messages of the underlying failures.
#[derive(Debug)]
pub enum CaptureFailure {
    InvalidProjectId,
    ProjectLookup(String),
    ProjectNotFound,
    NotAMember,
    MembershipCheck(String),
    IssueLookup(String),
    IssueUpdate(String),
    ShortId(String),
    IssueCreate(String),
    EventCreate(String),
}

/// The message a batch reports for an event that failed.
pub open spec fn capture_failure_text(f: CaptureFailure) -> Seq<char> {
    match f {
        CaptureFailure::InvalidProjectId => "Invalid project ID"@,
        CaptureFailure::ProjectLookup(e) => "Failed to get project: "@ + e@,
        CaptureFailure::ProjectNotFound => "Project not found"@,
        CaptureFailure::NotAMember => "server.api.org.not_a_member"@,
        CaptureFailure::MembershipCheck(e) => "Failed to check org membership: "@ + e@,
        CaptureFailure::IssueLookup(e) => "Failed to find issue: "@ + e@,
        CaptureFailure::IssueUpdate(e) => "Failed to update issue: "@ + e@,
        CaptureFailure::ShortId(e) => "Failed to get short ID: "@ + e@,
        CaptureFailure::IssueCreate(e) => "Failed to create issue: "@ + e@,
        CaptureFailure::EventCreate(e) => "Failed to create event: "@ + e@,
    }
}

/// The message of a failed event, as the batch answer carries it.
pub fn capture_failure_message(f: CaptureFailure) -> (r: String)
    ensures
        r@ == capture_failure_text(f),
{
    match f {
        CaptureFailure::InvalidProjectId => "Invalid project ID".to_string(),
        CaptureFailure::ProjectLookup(e) => "Failed to get project: ".to_string().concat(e.as_str()),
        CaptureFailure::ProjectNotFound => "Project not found".to_string(),
        CaptureFailure::NotAMember => "server.api.org.not_a_member".to_string(),
        CaptureFailure::MembershipCheck(e) => "Failed to check org membership: ".to_string().concat(e.as_str()),
        CaptureFailure::IssueLookup(e) => "Failed to find issue: ".to_string().concat(e.as_str()),
        CaptureFailure::IssueUpdate(e) => "Failed to update issue: ".to_string().concat(e.as_str()),
        CaptureFailure::ShortId(e) => "Failed to get short ID: ".to_string().concat(e.as_str()),
        CaptureFailure::IssueCreate(e) => "Failed to create issue: ".to_string().concat(e.as_str()),
        CaptureFailure::EventCreate(e) => "Failed to create event: ".to_string().concat(e.as_str()),
    }
}

/// The most events one batch may carry.
pub const MAX_BATCH_SIZE: usize = 100;

/// Refuses a batch of more than `MAX_BATCH_SIZE` events.
pub fn check_batch_size(n: usize) -> (r: Result<(), (u16, CrashErrorResponse)>)
    ensures
        n <= 100 <==> r is Ok,
        r matches Err(a) ==> crash_error_is(a, 400, "batch_too_large"@, "Batch size exceeds maximum of 100 events"@),
{
    if n > MAX_BATCH_SIZE {
        return Err(crash_error(400, "batch_too_large", "Batch size exceeds maximum of 100 events".to_string()));
    }
    Ok(())
}

/// Number of captured events among the outcomes.
pub open spec fn ok_count(s: Seq<Result<CaptureResponse, String>>) -> nat
    decreases s.len(),
{
    if s.len() == 0 {
        0
    } else {
        ok_count(s.drop_last()) + if s.last() is Ok { 1nat } else { 0nat }
    }
}

/// The result of one event of a batch, given its outcome.
pub open spec fn event_result_is(r: BatchCaptureEventResult, index: int, o: Result<CaptureResponse, String>) -> bool {
    &&& r.index == index
    &&& match o {
        Ok(c) => {
            &&& r.success
            &&& r.event_id == Some(c.event_id)
            &&& r.issue_id == Some(c.issue_id)
            &&& r.short_id == Some(c.short_id)
            &&& r.is_new_issue == Some(c.is_new_issue)
            &&& r.is_regression == Some(c.is_regression)
            &&& r.error is None
        },
        Err(m) => {
            &&& !r.success
            &&& r.event_id is None
            &&& r.issue_id is None
            &&& r.short_id is None
            &&& r.is_new_issue is None
            &&& r.is_regression is None
            &&& r.error == Some(m)
        },
    }
}

proof fn lemma_ok_count_bound(s: Seq<Result<CaptureResponse, String>>)
    ensures
        ok_count(s) <= s.len(),
    decreases s.len(),
{
    if s.len() > 0 {
        lemma_ok_count_bound(s.drop_last());
    }
}

/// Sums up the outcomes of a batch, one per event in request order: one
/// result per event, and how many were captured and how many failed.
pub fn batch_response(outcomes: &Vec<Result<CaptureResponse, String>>) -> (r: BatchCaptureResponse)
    ensures
        r.total == outcomes.len(),
        r.success_count == ok_count(outcomes@),
        r.error_count == outcomes.len() - ok_count(outcomes@),
        r.success_count + r.error_count == r.total,
        r.results.len() == outcomes.len(),
        forall|i: int| 0 <= i < outcomes.len() ==> event_result_is(#[trigger] r.results@[i], i, outcomes@[i]),
{
    let mut results: Vec<BatchCaptureEventResult> = Vec::new();
    let mut success_count: usize = 0;
    let mut error_count: usize = 0;
    let mut i: usize = 0;
    while i < outcomes.len()
        invariant
            i <= outcomes.len(),
            results.len() == i,
            success_count == ok_count(outcomes@.subrange(0, i as int)),
            success_count + error_count == i,
            forall|j: int| 0 <= j < i ==> event_result_is(#[trigger] results@[j], j, outcomes@[j]),
        decreases outcomes.len() - i,
    {
        proof {
            assert(outcomes@.subrange(0, i + 1).drop_last() == outcomes@.subrange(0, i as int));
            lemma_ok_count_bound(outcomes@.subrange(0, i as int));
        }
        match &outcomes[i] {
            Ok(c) => {
                success_count = success_count + 1;
                results.push(
                    BatchCaptureEventResult {
                        index: i,
                        success: true,
                        event_id: Some(c.event_id.clone()),
                        issue_id: Some(c.issue_id.clone()),
                        short_id: Some(c.short_id.clone()),
                        is_new_issue: Some(c.is_new_issue),
                        is_regression: Some(c.is_regression),
                        error: None,
                    },
                );
            },
            Err(m) => {
                error_count = error_count + 1;
                results.push(
                    BatchCaptureEventResult {
                        index: i,
                        success: false,
                        event_id: None,
                        issue_id: None,
                        short_id: None,
                        is_new_issue: None,
                        is_regression: None,
                        error: Some(m.clone()),
                    },
                );
            },
        }
        i = i + 1;
    }
    assert(outcomes@.subrange(0, i as int) == outcomes@);
    BatchCaptureResponse { total: results.len(), success_count, error_count, results }
}

/// The captured events of a batch and the failed ones add up to the batch.
pub proof fn lemma_batch_counts_add_up(outcomes: Seq<Result<CaptureResponse, String>>)
    ensures
        ok_count(outcomes) + (outcomes.len() - ok_count(outcomes)) == outcomes.len(),
        0 <= outcomes.len() - ok_count(outcomes),
{
    lemma_ok_count_bound(outcomes);
}

// ---------------------------------------------------------------------------
// What a capture records
// ---------------------------------------------------------------------------

/// The instant that `chrono::DateTime::parse_from_rfc3339` reads in `s`, in
/// milliseconds since the Unix epoch (`timestamp_millis`); `None` when `s`
/// is no RFC 3339 date and time.
pub uninterp spec fn rfc3339_millis(s: Seq<char>) -> Option<i64>;

/// Reads an RFC 3339 date and time with
/// `chrono::DateTime::parse_from_rfc3339` and gives its instant in
/// milliseconds since the Unix epoch (`DateTime::timestamp_millis`; finer
/// fractions of a second are dropped).
#[verifier::external_body]
fn parse_rfc3339_millis(s: &str) -> (r: Option<i64>)
    ensures
        r == rfc3339_millis(s@),
{
    match chrono::DateTime::parse_from_rfc3339(s) {
        Ok(dt) => Some(dt.timestamp_millis()),
        Err(_) => None,
    }
}

/// When a captured crash (or one of its breadcrumbs) happened: the instant
/// its RFC 3339 timestamp names, and `now` when it names none or one that
/// does not read.
pub fn crash_timestamp(timestamp: &Option<String>, now: i64) -> (r: i64)
    ensures
        r == match timestamp {
            Some(s) => match rfc3339_millis(s@) {
                Some(t) => t,
                None => now,
            },
            None => now,
        },
{
    match timestamp {
        Some(s) => match parse_rfc3339_millis(s.as_str()) {
            Some(t) => t,
            None => now,
        },
        None => now,
    }
}

/// Index of the first frame of the application's own code, if any.
pub open spec fn first_in_app(frames: Seq<CaptureFrame>) -> Option<int> {
    if exists|i: int| 0 <= i < frames.len() && frames[i].in_app {
        Some(choose|i: int| 0 <= i < frames.len() && frames[i].in_app && forall|j: int| 0 <= j < i ==> !frames[j].in_app)
    } else {
        None
    }
}

/// Finds the first frame of the application's own code.
pub fn find_first_in_app(frames: &Vec<CaptureFrame>) -> (r: Option<usize>)
    ensures
        match first_in_app(frames@) {
            Some(k) => r == Some(k as usize) && 0 <= k < frames.len(),
            None => r is None,
        },
{
    let mut i: usize = 0;
    while i < frames.len()
        invariant
            i <= frames.len(),
            forall|j: int| 0 <= j < i ==> !frames@[j].in_app,
        decreases frames.len() - i,
    {
        if frames[i].in_app {
            proof {
                let k = choose|k: int| 0 <= k < frames@.len() && frames@[k].in_app && forall|j: int|
                    0 <= j < k ==> !frames@[j].in_app;
                assert(k == i) by {
                    if k < i {
                        assert(!frames@[k].in_app);
                    }
                    if k > i {
                        assert(frames@[i as int].in_app);
                    }
                }
            }
            return Some(i);
        }
        i = i + 1;
    }
    None
}

fn clone_opt(s: &Option<String>) -> (r: Option<String>)
    ensures
        r == *s,
{
    match s {
        Some(v) => Some(v.clone()),
        None => None,
    }
}

/// What a new issue records of the exception: its type and value, and the
/// file and function of the first frame of the application's own code.
pub fn issue_metadata(exception_type: &String, exception_value: &String, frames: &Vec<CaptureFrame>) -> (r: IssueMetadataResponse)
    ensures
        r.exception_type == *exception_type,
        r.exception_value == *exception_value,
        match first_in_app(frames@) {
            Some(k) => r.filename == frames@[k].filename && r.function == frames@[k].function,
            None => r.filename is None && r.function is None,
        },
{
    let (filename, function) = match find_first_in_app(frames) {
        Some(k) => (clone_opt(&frames[k].filename), clone_opt(&frames[k].function)),
        None => (None, None),
    };
    IssueMetadataResponse {
        exception_type: exception_type.clone(),
        exception_value: exception_value.clone(),
        filename,
        function,
    }
}

/// The environment a crash is filed under: the one it names, else
/// `production`.
pub fn event_environment(environment: Option<String>) -> (r: String)
    ensures
        match environment {
            Some(e) => r == e,
            None => r@ == "production"@,
        },
{
    match environment {
        Some(e) => e,
        None => "production".to_string(),
    }
}

// ---------------------------------------------------------------------------
// Checks before storing
// ---------------------------------------------------------------------------

/// The answer to a request from a user whose membership in the project's
/// organization was looked up: `Err(())` when the lookup failed,
/// `Ok(false)` when the user is no member.
pub fn check_org_membership(membership: Result<bool, ()>) -> (r: Result<(), (u16, CrashErrorResponse)>)
    ensures
        membership == Ok::<bool, ()>(true) <==> r is Ok,
        membership == Ok::<bool, ()>(false) ==> (r matches Err(a) && crash_error_is(
            a,
            403,
            "forbidden"@,
            "server.api.org.not_a_member"@,
        )),
        membership is Err ==> (r matches Err(a) && crash_error_is(a, 500, "internal_error"@, "server.api.error.internal"@)),
{
    match membership {
        Ok(true) => Ok(()),
        Ok(false) => Err(crash_error(403, "forbidden", "server.api.org.not_a_member".to_string())),
        Err(_) => Err(crash_error(500, "internal_error", "server.api.error.internal".to_string())),
    }
}

/// Whether a release version is acceptable: 1 to 200 bytes.
pub open spec fn version_ok(version: Seq<char>) -> bool {
    version.len() > 0 && vstd::utf8::encode_utf8(version).len() <= 200
}

/// Checks the version of a release to create.
pub fn validate_release_version(version: &str) -> (r: Result<(), (u16, CrashErrorResponse)>)
    ensures
        version_ok(version@) <==> r is Ok,
        r matches Err(a) ==> crash_error_is(a, 400, "invalid_version"@, "Version must be 1-200 characters"@),
{
    let n = version.as_bytes().len();
    if version.is_empty() || n > 200 {
        return Err(crash_error(400, "invalid_version", "Version must be 1-200 characters".to_string()));
    }
    Ok(())
}

/// The answer when a release of that version already exists.
pub fn release_exists(version: &str) -> (r: (u16, CrashErrorResponse))
    ensures
        crash_error_is(r, 409, "release_exists"@, "Release "@ + version@ + " already exists"@),
{
    crash_error(409, "release_exists", "Release ".to_string().concat(version).concat(" already exists"))
}

/// The project a request names, given what looking it up gave: none is 404,
/// a failed read 500.
pub fn project_lookup_answer<T>(lookup: Result<Option<T>, ()>) -> (r: Result<T, (u16, CrashErrorResponse)>)
    ensures
        match lookup {
            Ok(Some(p)) => r matches Ok(q) && q == p,
            Ok(None) => r matches Err(a) && crash_error_is(a, 404, "project_not_found"@, "Project not found"@),
            Err(_) => r matches Err(a) && crash_error_is(a, 500, "internal_error"@, "server.api.error.internal"@),
        },
{
    match lookup {
        Ok(Some(p)) => Ok(p),
        Ok(None) => Err(crash_error(404, "project_not_found", "Project not found".to_string())),
        Err(_) => Err(crash_error(500, "internal_error", "server.api.error.internal".to_string())),
    }
}

/// The issue a request names, given what looking it up gave (the project it
/// belongs to): an issue of another project is answered as missing.
pub fn check_issue_in_project(project_id: u128, lookup: Result<Option<u128>, ()>) -> (r: Result<(), (u16, CrashErrorResponse)>)
    ensures
        r is Ok <==> lookup == Ok::<Option<u128>, ()>(Some(project_id)),
        lookup is Err ==> (r matches Err(a) && crash_error_is(a, 500, "internal_error"@, "server.api.error.internal"@)),
        lookup matches Ok(o) && o != Some(project_id) ==> (r matches Err(a) && crash_error_is(
            a,
            404,
            "issue_not_found"@,
            "Issue not found"@,
        )),
{
    match lookup {
        Err(_) => Err(crash_error(500, "internal_error", "server.api.error.internal".to_string())),
        Ok(None) => Err(crash_error(404, "issue_not_found", "Issue not found".to_string())),
        Ok(Some(p)) => {
            if p != project_id {
                Err(crash_error(404, "issue_not_found", "Issue not found".to_string()))
            } else {
                Ok(())
            }
        },
    }
}

/// The checks made before a crash is captured, in the order the server
/// makes them: the project id must read (`project_id_valid`), the project
/// must be found (`project`), and the caller must belong to its
/// organization (`membership`, read for the found project). Returns the
/// project, or the answer of the first check that fails; the later reads
/// do not matter once a check has failed.
pub fn capture_checks<T>(project_id_valid: bool, project: Result<Option<T>, ()>, membership: Result<bool, ()>) -> (r: Result<T, (u16, CrashErrorResponse)>)
    ensures
        !project_id_valid ==> (r matches Err(a) && crash_error_is(a, 400, "invalid_project_id"@, "Invalid project ID"@)),
        project_id_valid ==> match project {
            Ok(Some(p)) => match membership {
                Ok(true) => r matches Ok(q) && q == p,
                Ok(false) => r matches Err(a) && crash_error_is(a, 403, "forbidden"@, "server.api.org.not_a_member"@),
                Err(_) => r matches Err(a) && crash_error_is(a, 500, "internal_error"@, "server.api.error.internal"@),
            },
            Ok(None) => r matches Err(a) && crash_error_is(a, 404, "project_not_found"@, "Project not found"@),
            Err(_) => r matches Err(a) && crash_error_is(a, 500, "internal_error"@, "server.api.error.internal"@),
        },
{
    if !project_id_valid {
        return Err(crash_error(400, "invalid_project_id", "Invalid project ID".to_string()));
    }
    let p = project_lookup_answer(project)?;
    check_org_membership(membership)?;
    Ok(p)
}

} // verus!
