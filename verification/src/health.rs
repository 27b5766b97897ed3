//! Health check types and the rules that turn the outcome of each component
//! probe into a status, and the component statuses into an overall status.
//!
//! The probes themselves (a database ping, a directory listing, a request to
//! an outside service, each under a timeout) are I/O; what they report comes
//! in here as a plain value.

use vstd::prelude::*;
use vstd::string::StringExecFns;
use crate::text::{contains, contains_seq};

verus! {

broadcast use vstd::string::group_string_axioms;

/// Health status for components and for the overall system.
#[derive(Debug, Clone, Copy, PartialEq, Eq, Structural)]
pub enum HealthStatus {
    Healthy,
    Degraded,
    Unhealthy,
    Unknown,
}

/// How a probe of a component ended.
#[derive(Debug)]
pub enum ProbeOutcome {
    /// The probe succeeded.
    Passed,
    /// The probe failed with this message.
    Failed(String),
    /// The probe did not finish within its time limit.
    TimedOut,
}

/// `o` holds a string whose characters are `s`.
pub open spec fn holds_str(o: Option<String>, s: Seq<char>) -> bool {
    o matches Some(v) && v@ == s
}

/// Database component health.
#[derive(Debug)]
pub struct DatabaseHealth {
    pub status: HealthStatus,
    pub latency_ms: u64,
    pub error: Option<String>,
}

/// Binary directory component health.
#[derive(Debug)]
pub struct BinDirHealth {
    pub status: HealthStatus,
    pub latency_ms: u64,
    pub path: String,
    pub exists: bool,
    pub is_dir: bool,
    pub file_count: Option<usize>,
    pub error: Option<String>,
}

/// Status of one account in the Anthropic OAuth pool.
#[derive(Debug, Clone, Copy, PartialEq, Eq, Structural)]
pub enum AnthropicAccountStatus {
    Available,
    CoolingDown,
    Disabled,
}

/// Health of one account in the pool.
#[derive(Debug)]
pub struct AnthropicAccountHealth {
    pub id: String,
    pub status: AnthropicAccountStatus,
    pub cooldown_remaining_secs: Option<u64>,
    pub last_error: Option<String>,
}

/// Pool status for health reporting.
#[derive(Debug)]
pub struct AnthropicPoolHealth {
    pub accounts_total: usize,
    pub accounts_available: usize,
    pub accounts_cooling: usize,
    pub accounts_disabled: usize,
    pub accounts: Vec<AnthropicAccountHealth>,
}

/// Health of one LLM provider.
#[derive(Debug)]
pub struct LlmProviderHealth {
    pub name: String,
    pub status: HealthStatus,
    pub mode: Option<String>,
    pub pool: Option<AnthropicPoolHealth>,
    pub latency_ms: Option<u64>,
    pub error: Option<String>,
}

/// LLM providers component health.
#[derive(Debug)]
pub struct LlmProvidersHealth {
    pub status: HealthStatus,
    pub providers: Vec<LlmProviderHealth>,
}

/// Google CSE component health.
#[derive(Debug)]
pub struct GoogleCseHealth {
    pub status: HealthStatus,
    pub latency_ms: u64,
    pub configured: bool,
    pub error: Option<String>,
}

/// GitHub App component health.
#[derive(Debug)]
pub struct GithubAppHealth {
    pub status: HealthStatus,
    pub latency_ms: u64,
    pub configured: bool,
    pub error: Option<String>,
}

/// Kubernetes component health.
#[derive(Debug)]
pub struct KubernetesHealth {
    pub status: HealthStatus,
    pub latency_ms: u64,
    pub namespace: String,
    pub reachable: bool,
    pub error: Option<String>,
}

/// SMTP component health.
#[derive(Debug)]
pub struct SmtpHealth {
    pub status: HealthStatus,
    pub latency_ms: u64,
    pub configured: bool,
    pub healthy: bool,
    pub error: Option<String>,
}

/// GeoIP component health.
#[derive(Debug)]
pub struct GeoIpHealth {
    pub status: HealthStatus,
    pub latency_ms: u64,
    pub configured: bool,
    pub healthy: bool,
    pub database_path: Option<String>,
    pub database_type: Option<String>,
    pub error: Option<String>,
}

/// Jobs scheduler component health.
#[derive(Debug)]
pub struct JobsHealth {
    pub status: HealthStatus,
    pub jobs_total: usize,
    pub jobs_healthy: usize,
    pub jobs_failing: usize,
    pub failing_jobs: Option<Vec<String>>,
}

/// All health check components.
#[derive(Debug)]
pub struct HealthComponents {
    pub database: DatabaseHealth,
    pub bin_dir: BinDirHealth,
    pub llm_providers: LlmProvidersHealth,
    pub google_cse: GoogleCseHealth,
    pub github_app: GithubAppHealth,
    pub kubernetes: Option<KubernetesHealth>,
    pub smtp: SmtpHealth,
    pub geoip: GeoIpHealth,
    pub jobs: Option<JobsHealth>,
}

// ---------------------------------------------------------------------------
// Aggregation
// ---------------------------------------------------------------------------

/// How bad a status is: `Unhealthy` outranks `Degraded`, which outranks the
/// rest (`Unknown` weighs no more than `Healthy`).
pub open spec fn severity(s: HealthStatus) -> int {
    match s {
        HealthStatus::Unhealthy => 2,
        HealthStatus::Degraded => 1,
        _ => 0,
    }
}

/// The worst of a list of component statuses, where `Unknown` counts as
/// healthy.
pub open spec fn worst_status(statuses: Seq<HealthStatus>) -> HealthStatus {
    if exists|i: int| 0 <= i < statuses.len() && statuses[i] == HealthStatus::Unhealthy {
        HealthStatus::Unhealthy
    } else if exists|i: int| 0 <= i < statuses.len() && statuses[i] == HealthStatus::Degraded {
        HealthStatus::Degraded
    } else {
        HealthStatus::Healthy
    }
}

/// The statuses that count toward the overall status: database, binary
/// directory, Google CSE, GitHub App, SMTP, GeoIP, then Kubernetes and jobs
/// where they were checked. The LLM providers do not count.
pub open spec fn counted_statuses(c: HealthComponents) -> Seq<HealthStatus> {
    let base = seq![
        c.database.status,
        c.bin_dir.status,
        c.google_cse.status,
        c.github_app.status,
        c.smtp.status,
        c.geoip.status,
    ];
    let with_k8s = match c.kubernetes {
        Some(k) => base.push(k.status),
        None => base,
    };
    match c.jobs {
        Some(j) => with_k8s.push(j.status),
        None => with_k8s,
    }
}

/// Every component that counts toward the overall status (database, binary
/// directory, Google CSE, GitHub App, SMTP, GeoIP, and Kubernetes and jobs
/// where they were checked) is at most `k` severe.
pub open spec fn components_within(c: HealthComponents, k: int) -> bool {
    &&& severity(c.database.status) <= k
    &&& severity(c.bin_dir.status) <= k
    &&& severity(c.google_cse.status) <= k
    &&& severity(c.github_app.status) <= k
    &&& severity(c.smtp.status) <= k
    &&& severity(c.geoip.status) <= k
    &&& (c.kubernetes matches Some(x) ==> severity(x.status) <= k)
    &&& (c.jobs matches Some(x) ==> severity(x.status) <= k)
}

/// The overall status is exactly as severe as the worst counted component:
/// it is at most `k` severe exactly when every counted component is (so a
/// failed database, or any other failed component, makes the whole server
/// unhealthy, and a degraded one at least degraded), and it is never
/// `Unknown`.
pub proof fn lemma_overall_is_worst_component(c: HealthComponents, k: int)
    ensures
        severity(worst_status(counted_statuses(c))) <= k <==> components_within(c, k),
        worst_status(counted_statuses(c)) != HealthStatus::Unknown,
{
    let s = counted_statuses(c);
    let w = worst_status(s);
    assert(s[0] == c.database.status);
    assert(s[1] == c.bin_dir.status);
    assert(s[2] == c.google_cse.status);
    assert(s[3] == c.github_app.status);
    assert(s[4] == c.smtp.status);
    assert(s[5] == c.geoip.status);
    let kpos: int = 6;
    let jpos: int = if c.kubernetes is Some { 7 } else { 6 };
    if c.kubernetes is Some {
        assert(s[kpos] == c.kubernetes->0.status);
    }
    if c.jobs is Some {
        assert(s[jpos] == c.jobs->0.status);
    }
    assert(s.len() == jpos + if c.jobs is Some { 1int } else { 0int });
    assert forall|i: int| 0 <= i < s.len() implies severity(#[trigger] s[i]) <= k || !components_within(c, k) by {
        if i == kpos && c.kubernetes is Some {
        } else if i == jpos && c.jobs is Some {
        }
    }
    if components_within(c, k) {
        if w == HealthStatus::Unhealthy {
            let i = choose|i: int| 0 <= i < s.len() && s[i] == HealthStatus::Unhealthy;
            assert(severity(s[i]) <= k);
        } else if w == HealthStatus::Degraded {
            let i = choose|i: int| 0 <= i < s.len() && s[i] == HealthStatus::Degraded;
            assert(severity(s[i]) <= k);
        }
    }
    if severity(w) <= k {
        assert forall|i: int| 0 <= i < s.len() implies severity(#[trigger] s[i]) <= k by {
            if s[i] == HealthStatus::Unhealthy {
                assert(w == HealthStatus::Unhealthy);
            } else if s[i] == HealthStatus::Degraded {
                assert(w == HealthStatus::Unhealthy || w == HealthStatus::Degraded);
            }
        }
        assert(severity(s[0]) <= k);
        assert(severity(s[1]) <= k);
        assert(severity(s[2]) <= k);
        assert(severity(s[3]) <= k);
        assert(severity(s[4]) <= k);
        assert(severity(s[5]) <= k);
        if c.kubernetes is Some {
            assert(severity(s[kpos]) <= k);
        }
        if c.jobs is Some {
            assert(severity(s[jpos]) <= k);
        }
    }
}

fn worst_of(statuses: &Vec<HealthStatus>) -> (r: HealthStatus)
    ensures
        r == worst_status(statuses@),
{
    let mut any_unhealthy = false;
    let mut any_degraded = false;
    let mut i: usize = 0;
    while i < statuses.len()
        invariant
            i <= statuses.len(),
            any_unhealthy <==> exists|j: int| 0 <= j < i && statuses@[j] == HealthStatus::Unhealthy,
            any_degraded <==> exists|j: int| 0 <= j < i && statuses@[j] == HealthStatus::Degraded,
        decreases statuses.len() - i,
    {
        match statuses[i] {
            HealthStatus::Unhealthy => {
                any_unhealthy = true;
            },
            HealthStatus::Degraded => {
                any_degraded = true;
            },
            _ => {},
        }
        i = i + 1;
    }
    if any_unhealthy {
        HealthStatus::Unhealthy
    } else if any_degraded {
        HealthStatus::Degraded
    } else {
        HealthStatus::Healthy
    }
}

/// Aggregate component statuses into the overall status.
pub fn aggregate_status(components: &HealthComponents) -> (r: HealthStatus)
    ensures
        r == worst_status(counted_statuses(*components)),
        forall|k: int| severity(r) <= k <==> components_within(*components, k),
        r != HealthStatus::Unknown,
{
    let mut statuses: Vec<HealthStatus> = Vec::new();
    statuses.push(components.database.status);
    statuses.push(components.bin_dir.status);
    statuses.push(components.google_cse.status);
    statuses.push(components.github_app.status);
    statuses.push(components.smtp.status);
    statuses.push(components.geoip.status);
    if let Some(k8s) = &components.kubernetes {
        statuses.push(k8s.status);
    }
    if let Some(jobs) = &components.jobs {
        statuses.push(jobs.status);
    }
    proof {
        assert(statuses@ =~= counted_statuses(*components));
        assert forall|k: int| severity(worst_status(counted_statuses(*components))) <= k <==> components_within(
            *components,
            k,
        ) by {
            lemma_overall_is_worst_component(*components, k);
        }
        lemma_overall_is_worst_component(*components, 0);
    }
    worst_of(&statuses)
}

/// The HTTP status the health endpoint answers with: 200 while the system is
/// healthy or degraded, 503 otherwise.
pub fn health_http_status(status: HealthStatus) -> (code: u16)
    ensures
        code == (if status == HealthStatus::Healthy || status == HealthStatus::Degraded {
            200u16
        } else {
            503u16
        }),
{
    match status {
        HealthStatus::Healthy | HealthStatus::Degraded => 200,
        HealthStatus::Unhealthy | HealthStatus::Unknown => 503,
    }
}

/// The overall status is the most severe counted component status.
pub proof fn lemma_worst_status_is_most_severe(statuses: Seq<HealthStatus>)
    ensures
        forall|i: int| 0 <= i < statuses.len() ==> severity(statuses[i]) <= severity(worst_status(statuses)),
        statuses.len() > 0 ==> exists|i: int|
            0 <= i < statuses.len() && severity(statuses[i]) == severity(worst_status(statuses)),
        worst_status(statuses) != HealthStatus::Unknown,
{
    if statuses.len() > 0 && worst_status(statuses) == HealthStatus::Healthy {
        assert(severity(statuses[0]) == 0);
    }
}

/// Adding a component can only make the overall status worse or keep it,
/// and the order in which components are listed does not matter.
pub proof fn lemma_worst_status_monotone(statuses: Seq<HealthStatus>, extra: HealthStatus)
    ensures
        severity(worst_status(statuses)) <= severity(worst_status(statuses.push(extra))),
        severity(worst_status(statuses.push(extra))) == if severity(extra) > severity(worst_status(statuses)) {
            severity(extra)
        } else {
            severity(worst_status(statuses))
        },
        worst_status(statuses.push(extra)) == worst_status(seq![extra] + statuses),
{
    let a = statuses.push(extra);
    let b = seq![extra] + statuses;
    assert forall|i: int| 0 <= i < statuses.len() implies a[i] == statuses[i] && b[i + 1] == statuses[i] by {}
    assert(a[statuses.len() as int] == extra);
    assert(b[0] == extra);
    assert forall|i: int| 0 <= i < b.len() implies (i == 0 && b[i] == extra) || (i > 0 && b[i] == statuses[i - 1]) by {}
    assert forall|i: int| 0 <= i < a.len() implies (i == statuses.len() && a[i] == extra) || (i < statuses.len() && a[i] == statuses[i]) by {}
}

// ---------------------------------------------------------------------------
// Component checks
// ---------------------------------------------------------------------------

/// Database health from the outcome of a ping.
pub fn check_database(outcome: ProbeOutcome, latency_ms: u64) -> (h: DatabaseHealth)
    ensures
        h.latency_ms == latency_ms,
        outcome is Passed ==> h.status == HealthStatus::Healthy && h.error is None,
        outcome matches ProbeOutcome::Failed(e) ==> h.status == HealthStatus::Unhealthy
            && holds_str(h.error, e@),
        outcome is TimedOut ==> h.status == HealthStatus::Unhealthy
            && holds_str(h.error, "database health check timed out"@),
{
    match outcome {
        ProbeOutcome::Passed => DatabaseHealth { status: HealthStatus::Healthy, latency_ms, error: None },
        ProbeOutcome::Failed(e) => DatabaseHealth {
            status: HealthStatus::Unhealthy,
            latency_ms,
            error: Some(e),
        },
        ProbeOutcome::TimedOut => DatabaseHealth {
            status: HealthStatus::Unhealthy,
            latency_ms,
            error: Some("database health check timed out".to_string()),
        },
    }
}

/// A directory entry name that a listing shows: one that does not begin with `.`.
pub open spec fn is_visible_name(name: Seq<char>) -> bool {
    !(name.len() > 0 && name[0] == '.')
}

/// How many of `names` are visible.
pub open spec fn visible_count(names: Seq<Seq<char>>) -> nat
    decreases names.len(),
{
    if names.len() == 0 {
        0
    } else {
        visible_count(names.drop_last()) + if is_visible_name(names.last()) {
            1nat
        } else {
            0nat
        }
    }
}

/// The views of a list of strings.
pub open spec fn views(v: Seq<String>) -> Seq<Seq<char>> {
    v.map_values(|s: String| s@)
}

fn count_visible(names: &Vec<String>) -> (n: usize)
    ensures
        n == visible_count(views(names@)),
{
    let mut n: usize = 0;
    let mut i: usize = 0;
    while i < names.len()
        invariant
            i <= names.len(),
            n == visible_count(views(names@).take(i as int)),
            n <= i,
        decreases names.len() - i,
    {
        assert(views(names@).take(i + 1).drop_last() =~= views(names@).take(i as int));
        let name = names[i].as_str();
        let visible = !crate::text::starts_with(name, ".");
        proof {
            reveal_strlit(".");
            assert(crate::text::has_prefix(name@, "."@) <==> !is_visible_name(name@)) by {
                assert("."@.len() == 1 && "."@[0] == '.');
                if name@.len() > 0 && name@[0] == '.' {
                    assert(name@.subrange(0, 1) =~= "."@);
                }
                if crate::text::has_prefix(name@, "."@) {
                    assert(name@.subrange(0, 1)[0] == name@[0]);
                }
            }
        }
        if visible {
            n = n + 1;
        }
        i = i + 1;
    }
    assert(views(names@).take(names.len() as int) =~= views(names@));
    n
}

/// Binary directory health from what was found at `path`: whether it exists,
/// whether it is a directory, and, for a directory, its listing (the entry
/// names) or the message of the error that stopped the listing.
pub fn check_bin_dir(
    path: String,
    exists: bool,
    is_dir: bool,
    listing: Result<Vec<String>, String>,
    latency_ms: u64,
) -> (h: BinDirHealth)
    ensures
        h.path@ == path@,
        h.latency_ms == latency_ms,
        !exists ==> !h.exists && !h.is_dir && h.file_count is None && h.status == HealthStatus::Degraded
            && holds_str(h.error, "binary directory does not exist"@),
        exists && !is_dir ==> h.exists && !h.is_dir && h.file_count is None && h.status
            == HealthStatus::Degraded && holds_str(h.error, "binary path is not a directory"@),
        exists && is_dir ==> h.exists && h.is_dir,
        exists && is_dir ==> match listing {
            Ok(names) => {
                let n = visible_count(views(names@));
                &&& h.file_count == Some(n as usize)
                &&& n == 0 ==> h.status == HealthStatus::Degraded && holds_str(h.error, "binary directory is empty"@)
                &&& n > 0 ==> h.status == HealthStatus::Healthy && h.error is None
            },
            Err(e) => {
                &&& h.file_count is None
                &&& h.status == HealthStatus::Degraded
                &&& holds_str(h.error, "failed to read binary directory: "@ + e@)
            },
        },
{
    if !exists {
        BinDirHealth {
            status: HealthStatus::Degraded,
            latency_ms,
            path,
            exists: false,
            is_dir: false,
            file_count: None,
            error: Some("binary directory does not exist".to_string()),
        }
    } else if !is_dir {
        BinDirHealth {
            status: HealthStatus::Degraded,
            latency_ms,
            path,
            exists: true,
            is_dir: false,
            file_count: None,
            error: Some("binary path is not a directory".to_string()),
        }
    } else {
        match listing {
            Ok(names) => {
                let count = count_visible(&names);
                if count == 0 {
                    BinDirHealth {
                        status: HealthStatus::Degraded,
                        latency_ms,
                        path,
                        exists: true,
                        is_dir: true,
                        file_count: Some(0),
                        error: Some("binary directory is empty".to_string()),
                    }
                } else {
                    BinDirHealth {
                        status: HealthStatus::Healthy,
                        latency_ms,
                        path,
                        exists: true,
                        is_dir: true,
                        file_count: Some(count),
                        error: None,
                    }
                }
            },
            Err(e) => {
                let msg = "failed to read binary directory: ".to_string().concat(e.as_str());
                BinDirHealth {
                    status: HealthStatus::Degraded,
                    latency_ms,
                    path,
                    exists: true,
                    is_dir: true,
                    file_count: None,
                    error: Some(msg),
                }
            },
        }
    }
}

/// `o` holds a non-empty string.
pub open spec fn is_set(o: Option<String>) -> bool {
    o matches Some(v) && v@.len() > 0
}

/// Google CSE counts as configured when both its API key and its search
/// engine id are set and non-empty.
pub fn cse_is_configured(api_key: &Option<String>, search_engine_id: &Option<String>) -> (r: bool)
    ensures
        r == (is_set(*api_key) && is_set(*search_engine_id)),
{
    match (api_key, search_engine_id) {
        (Some(k), Some(c)) => !k.as_str().is_empty() && !c.as_str().is_empty(),
        _ => false,
    }
}

/// Google CSE health. `probe` is `None` when CSE is not configured, else the
/// outcome of a one-result test search.
pub fn check_google_cse(probe: Option<ProbeOutcome>, latency_ms: u64) -> (h: GoogleCseHealth)
    ensures
        h.latency_ms == latency_ms,
        h.configured == probe is Some,
        probe is None ==> h.status == HealthStatus::Degraded && holds_str(h.error, "Google CSE not configured"@),
        probe matches Some(ProbeOutcome::Passed) ==> h.status == HealthStatus::Healthy && h.error is None,
        probe matches Some(ProbeOutcome::TimedOut) ==> h.status == HealthStatus::Degraded
            && holds_str(h.error, "CSE health check timed out"@),
        probe matches Some(ProbeOutcome::Failed(e)) ==> {
            if contains_seq(e@, "Unauthorized"@) || contains_seq(e@, "Invalid API key"@) {
                h.status == HealthStatus::Unhealthy && holds_str(h.error, "Invalid API key or CSE ID"@)
            } else if contains_seq(e@, "Rate limit"@) {
                h.status == HealthStatus::Degraded && holds_str(h.error, "Rate limited"@)
            } else {
                h.status == HealthStatus::Degraded && holds_str(h.error, e@)
            }
        },
{
    let (configured, status, error) = match probe {
        None => (false, HealthStatus::Degraded, Some("Google CSE not configured".to_string())),
        Some(ProbeOutcome::Passed) => (true, HealthStatus::Healthy, None),
        Some(ProbeOutcome::TimedOut) => (
            true,
            HealthStatus::Degraded,
            Some("CSE health check timed out".to_string()),
        ),
        Some(ProbeOutcome::Failed(e)) => {
            if contains(e.as_str(), "Unauthorized") || contains(e.as_str(), "Invalid API key") {
                (true, HealthStatus::Unhealthy, Some("Invalid API key or CSE ID".to_string()))
            } else if contains(e.as_str(), "Rate limit") {
                (true, HealthStatus::Degraded, Some("Rate limited".to_string()))
            } else {
                (true, HealthStatus::Degraded, Some(e))
            }
        },
    };
    GoogleCseHealth { status, latency_ms, configured, error }
}

/// The kinds of error a GitHub App client reports.
#[derive(Debug, Clone, Copy, PartialEq, Eq, Structural)]
pub enum GithubErrorKind {
    Unauthorized,
    Config,
    Jwt,
    Timeout,
    RateLimited,
    Network,
    Api,
    Other,
}

/// How a probe of the GitHub App (listing its installations) ended.
#[derive(Debug)]
pub enum GithubProbe {
    Passed,
    Failed { kind: GithubErrorKind, message: String },
    TimedOut,
}

/// GitHub App health. `probe` is `None` when no GitHub App is configured.
/// Authentication and configuration errors make it unhealthy; every other
/// failure only degrades it.
pub fn check_github_app(probe: Option<GithubProbe>, latency_ms: u64) -> (h: GithubAppHealth)
    ensures
        h.latency_ms == latency_ms,
        h.configured == probe is Some,
        probe is None ==> h.status == HealthStatus::Degraded && holds_str(h.error, "GitHub App not configured"@),
        probe matches Some(GithubProbe::Passed) ==> h.status == HealthStatus::Healthy && h.error is None,
        probe matches Some(GithubProbe::TimedOut) ==> h.status == HealthStatus::Degraded
            && holds_str(h.error, "GitHub health check timed out"@),
        probe matches Some(GithubProbe::Failed { kind, message }) ==> holds_str(h.error, message@) && h.status
            == (if kind == GithubErrorKind::Unauthorized || kind == GithubErrorKind::Config || kind
            == GithubErrorKind::Jwt {
            HealthStatus::Unhealthy
        } else {
            HealthStatus::Degraded
        }),
{
    let (configured, status, error) = match probe {
        None => (false, HealthStatus::Degraded, Some("GitHub App not configured".to_string())),
        Some(GithubProbe::Passed) => (true, HealthStatus::Healthy, None),
        Some(GithubProbe::TimedOut) => (
            true,
            HealthStatus::Degraded,
            Some("GitHub health check timed out".to_string()),
        ),
        Some(GithubProbe::Failed { kind, message }) => {
            let status = match kind {
                GithubErrorKind::Unauthorized | GithubErrorKind::Config | GithubErrorKind::Jwt => {
                    HealthStatus::Unhealthy
                },
                _ => HealthStatus::Degraded,
            };
            (true, status, Some(message))
        },
    };
    GithubAppHealth { status, latency_ms, configured, error }
}

/// Kubernetes health. `probe` is `None` when no provisioner is configured
/// (then there is no Kubernetes component), else the provisioner's namespace
/// and the outcome of counting its active weavers.
pub fn check_kubernetes(probe: Option<(String, ProbeOutcome)>, latency_ms: u64) -> (h: Option<KubernetesHealth>)
    ensures
        probe is None <==> h is None,
        probe matches Some((ns, outcome)) ==> h matches Some(k) && k.latency_ms == latency_ms && k.namespace@ == ns@
            && match outcome {
            ProbeOutcome::Passed => k.status == HealthStatus::Healthy && k.reachable && k.error is None,
            ProbeOutcome::Failed(e) => k.status == HealthStatus::Unhealthy && !k.reachable && holds_str(k.error, e@),
            ProbeOutcome::TimedOut => k.status == HealthStatus::Unhealthy && !k.reachable && holds_str(
                k.error,
                "Kubernetes health check timed out"@,
            ),
        },
{
    match probe {
        None => None,
        Some((namespace, outcome)) => {
            let (status, reachable, error) = match outcome {
                ProbeOutcome::Passed => (HealthStatus::Healthy, true, None),
                ProbeOutcome::Failed(e) => (HealthStatus::Unhealthy, false, Some(e)),
                ProbeOutcome::TimedOut => (
                    HealthStatus::Unhealthy,
                    false,
                    Some("Kubernetes health check timed out".to_string()),
                ),
            };
            Some(KubernetesHealth { status, latency_ms, namespace, reachable, error })
        },
    }
}

/// SMTP health. `probe` is `None` when SMTP is not configured.
pub fn check_smtp(probe: Option<ProbeOutcome>, latency_ms: u64) -> (h: SmtpHealth)
    ensures
        h.latency_ms == latency_ms,
        h.configured == probe is Some,
        h.healthy == probe matches Some(ProbeOutcome::Passed),
        probe is None ==> h.status == HealthStatus::Degraded && holds_str(h.error, "SMTP not configured"@),
        probe matches Some(ProbeOutcome::Passed) ==> h.status == HealthStatus::Healthy && h.error is None,
        probe matches Some(ProbeOutcome::Failed(e)) ==> h.status == HealthStatus::Unhealthy && holds_str(h.error, e@),
        probe matches Some(ProbeOutcome::TimedOut) ==> h.status == HealthStatus::Unhealthy
            && holds_str(h.error, "SMTP health check timed out"@),
{
    let (configured, healthy, status, error) = match probe {
        None => (false, false, HealthStatus::Degraded, Some("SMTP not configured".to_string())),
        Some(ProbeOutcome::Passed) => (true, true, HealthStatus::Healthy, None),
        Some(ProbeOutcome::Failed(e)) => (true, false, HealthStatus::Unhealthy, Some(e)),
        Some(ProbeOutcome::TimedOut) => (
            true,
            false,
            HealthStatus::Unhealthy,
            Some("SMTP health check timed out".to_string()),
        ),
    };
    SmtpHealth { status, latency_ms, configured, healthy, error }
}

/// What a configured GeoIP service reports: its database path, and the
/// database type when a test lookup succeeded (`None` when it failed).
#[derive(Debug)]
pub struct GeoIpProbe {
    pub database_path: String,
    pub database_type: Option<String>,
}

/// GeoIP health. `probe` is `None` when GeoIP is not configured.
pub fn check_geoip(probe: Option<GeoIpProbe>, latency_ms: u64) -> (h: GeoIpHealth)
    ensures
        h.latency_ms == latency_ms,
        h.configured == probe is Some,
        probe is None ==> !h.healthy && h.status == HealthStatus::Degraded && h.database_path is None
            && h.database_type is None && holds_str(h.error, "GeoIP not configured"@),
        probe matches Some(p) ==> holds_str(h.database_path, p.database_path@) && match p.database_type {
            Some(t) => h.healthy && h.status == HealthStatus::Healthy && holds_str(h.database_type, t@)
                && h.error is None,
            None => !h.healthy && h.status == HealthStatus::Unhealthy && h.database_type is None
                && holds_str(h.error, "GeoIP database lookup failed"@),
        },
{
    match probe {
        None => GeoIpHealth {
            status: HealthStatus::Degraded,
            latency_ms,
            configured: false,
            healthy: false,
            database_path: None,
            database_type: None,
            error: Some("GeoIP not configured".to_string()),
        },
        Some(p) => match p.database_type {
            Some(t) => GeoIpHealth {
                status: HealthStatus::Healthy,
                latency_ms,
                configured: true,
                healthy: true,
                database_path: Some(p.database_path),
                database_type: Some(t),
                error: None,
            },
            None => GeoIpHealth {
                status: HealthStatus::Unhealthy,
                latency_ms,
                configured: true,
                healthy: false,
                database_path: Some(p.database_path),
                database_type: None,
                error: Some("GeoIP database lookup failed".to_string()),
            },
        },
    }
}

/// One job as the scheduler reports it.
#[derive(Debug)]
pub struct JobHealthEntry {
    pub job_id: String,
    pub status: HealthStatus,
}

/// What the job scheduler reports: its overall state and each job's state.
#[derive(Debug)]
pub struct JobsReport {
    pub status: HealthStatus,
    pub jobs: Vec<JobHealthEntry>,
}

/// The ids of the unhealthy jobs, in order.
pub open spec fn failing_ids(jobs: Seq<JobHealthEntry>) -> Seq<Seq<char>>
    decreases jobs.len(),
{
    if jobs.len() == 0 {
        seq![]
    } else {
        let rest = failing_ids(jobs.drop_last());
        if jobs.last().status == HealthStatus::Unhealthy {
            rest.push(jobs.last().job_id@)
        } else {
            rest
        }
    }
}

/// How many jobs are healthy.
pub open spec fn healthy_count(jobs: Seq<JobHealthEntry>) -> nat
    decreases jobs.len(),
{
    if jobs.len() == 0 {
        0
    } else {
        healthy_count(jobs.drop_last()) + if jobs.last().status == HealthStatus::Healthy {
            1nat
        } else {
            0nat
        }
    }
}

/// Jobs health. `report` is `None` when no scheduler runs (then there is no
/// jobs component).
pub fn check_jobs(report: Option<JobsReport>) -> (h: Option<JobsHealth>)
    ensures
        report is None <==> h is None,
        report matches Some(r) ==> h matches Some(j) && {
            &&& j.status == r.status
            &&& j.jobs_total == r.jobs@.len()
            &&& j.jobs_healthy == healthy_count(r.jobs@)
            &&& j.jobs_failing == failing_ids(r.jobs@).len()
            &&& failing_ids(r.jobs@).len() == 0 ==> j.failing_jobs is None
            &&& failing_ids(r.jobs@).len() > 0 ==> (j.failing_jobs matches Some(f) && views(f@) == failing_ids(r.jobs@))
        },
{
    match report {
        None => None,
        Some(r) => {
            let mut failing: Vec<String> = Vec::new();
            let mut healthy: usize = 0;
            let mut i: usize = 0;
            while i < r.jobs.len()
                invariant
                    i <= r.jobs.len(),
                    views(failing@) == failing_ids(r.jobs@.take(i as int)),
                    healthy == healthy_count(r.jobs@.take(i as int)),
                    healthy <= i,
                decreases r.jobs.len() - i,
            {
                assert(r.jobs@.take(i + 1).drop_last() =~= r.jobs@.take(i as int));
                if r.jobs[i].status == HealthStatus::Unhealthy {
                    let id = r.jobs[i].job_id.clone();
                    failing.push(id);
                    assert(views(failing@) =~= failing_ids(r.jobs@.take(i as int)).push(r.jobs@[i as int].job_id@));
                }
                if r.jobs[i].status == HealthStatus::Healthy {
                    healthy = healthy + 1;
                }
                i = i + 1;
            }
            assert(r.jobs@.take(r.jobs.len() as int) =~= r.jobs@);
            let n = failing.len();
            let total = r.jobs.len();
            Some(JobsHealth {
                status: r.status,
                jobs_total: total,
                jobs_healthy: healthy,
                jobs_failing: n,
                failing_jobs: if n == 0 { None } else { Some(failing) },
            })
        },
    }
}

/// What the Anthropic provider reports about itself.
#[derive(Debug)]
pub enum AnthropicHealthInfo {
    /// A single API key is in use.
    ApiKey,
    /// A pool of OAuth accounts is in use.
    Pool(AnthropicPoolHealth),
}

/// What the LLM service reports: which providers it has, and for Anthropic
/// what its health query returned.
#[derive(Debug)]
pub struct LlmServiceReport {
    pub has_anthropic: bool,
    pub anthropic: Option<AnthropicHealthInfo>,
    pub has_openai: bool,
}

/// The status of an account pool: healthy when every account is available,
/// degraded when some are, unhealthy when none is.
pub open spec fn pool_status_spec(available: nat, total: nat) -> HealthStatus {
    if available == total {
        HealthStatus::Healthy
    } else if available > 0 {
        HealthStatus::Degraded
    } else {
        HealthStatus::Unhealthy
    }
}

/// The status of an account pool.
pub fn pool_status(available: usize, total: usize) -> (r: HealthStatus)
    ensures
        r == pool_status_spec(available as nat, total as nat),
{
    if available == total {
        HealthStatus::Healthy
    } else if available > 0 {
        HealthStatus::Degraded
    } else {
        HealthStatus::Unhealthy
    }
}

/// The status of the Anthropic provider given what it reported.
pub open spec fn anthropic_status(info: Option<AnthropicHealthInfo>) -> HealthStatus {
    match info {
        Some(AnthropicHealthInfo::Pool(p)) => pool_status_spec(
            p.accounts_available as nat,
            p.accounts_total as nat,
        ),
        _ => HealthStatus::Healthy,
    }
}

/// LLM providers health. `service` is `None` when no LLM service is
/// configured. The overall status follows the Anthropic provider (OpenAI is
/// always reported healthy); Anthropic comes first in the list, then OpenAI.
pub fn check_llm_providers(service: Option<LlmServiceReport>) -> (h: LlmProvidersHealth)
    ensures
        service is None ==> {
            &&& h.status == HealthStatus::Degraded
            &&& h.providers@.len() == 1
            &&& h.providers@[0].name@ == "none"@
            &&& h.providers@[0].status == HealthStatus::Degraded
            &&& h.providers@[0].mode is None && h.providers@[0].pool is None && h.providers@[0].latency_ms is None
            &&& holds_str(h.providers@[0].error, "LLM service not configured"@)
        },
        service matches Some(s) ==> {
            let a = anthropic_status(s.anthropic);
            let n_anthropic: int = if s.has_anthropic { 1 } else { 0 };
            &&& h.status == (if s.has_anthropic { a } else { HealthStatus::Healthy })
            &&& h.providers@.len() == n_anthropic + if s.has_openai { 1int } else { 0int }
            &&& s.has_anthropic ==> {
                let p = h.providers@[0];
                &&& p.name@ == "anthropic"@
                &&& p.status == a
                &&& p.latency_ms is None && p.error is None
                &&& match s.anthropic {
                    Some(AnthropicHealthInfo::ApiKey) => holds_str(p.mode, "api_key"@) && p.pool is None,
                    Some(AnthropicHealthInfo::Pool(pool)) => holds_str(p.mode, "oauth_pool"@) && p.pool == Some(pool),
                    None => p.mode is None && p.pool is None,
                }
            }
            &&& s.has_openai ==> {
                let p = h.providers@[n_anthropic];
                &&& p.name@ == "openai"@
                &&& p.status == HealthStatus::Healthy
                &&& p.mode is None && p.pool is None && p.latency_ms is None && p.error is None
            }
        },
{
    match service {
        None => {
            let mut providers: Vec<LlmProviderHealth> = Vec::new();
            providers.push(
                LlmProviderHealth {
                    name: "none".to_string(),
                    status: HealthStatus::Degraded,
                    mode: None,
                    pool: None,
                    latency_ms: None,
                    error: Some("LLM service not configured".to_string()),
                },
            );
            LlmProvidersHealth { status: HealthStatus::Degraded, providers }
        },
        Some(s) => {
            let mut providers: Vec<LlmProviderHealth> = Vec::new();
            let mut overall = HealthStatus::Healthy;
            if s.has_anthropic {
                let (status, mode, pool) = match s.anthropic {
                    Some(AnthropicHealthInfo::ApiKey) => (HealthStatus::Healthy, Some("api_key".to_string()), None),
                    Some(AnthropicHealthInfo::Pool(p)) => {
                        let st = pool_status(p.accounts_available, p.accounts_total);
                        (st, Some("oauth_pool".to_string()), Some(p))
                    },
                    None => (HealthStatus::Healthy, None, None),
                };
                if status == HealthStatus::Degraded && overall == HealthStatus::Healthy {
                    overall = HealthStatus::Degraded;
                } else if status == HealthStatus::Unhealthy {
                    overall = HealthStatus::Unhealthy;
                }
                providers.push(
                    LlmProviderHealth {
                        name: "anthropic".to_string(),
                        status,
                        mode,
                        pool,
                        latency_ms: None,
                        error: None,
                    },
                );
            }
            if s.has_openai {
                providers.push(
                    LlmProviderHealth {
                        name: "openai".to_string(),
                        status: HealthStatus::Healthy,
                        mode: None,
                        pool: None,
                        latency_ms: None,
                        error: None,
                    },
                );
            }
            LlmProvidersHealth { status: overall, providers }
        },
    }
}

} // verus!
