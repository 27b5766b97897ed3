//! Agent provisioning endpoints: request and response types, the API key
//! check that guards them, and how provisioner failures are answered.

use vstd::prelude::*;
use vstd::string::StringExecFns;
use crate::error::{ErrorResponse, ServerError, plain};
use crate::num::{dec_of, dec_string};

verus! {

broadcast use vstd::string::group_string_axioms;

/// Request to create a new agent.
#[derive(Debug)]
pub struct CreateAgentApiRequest {
    /// Container image to run.
    pub image: String,
    /// Environment variables.
    pub env: Vec<(String, String)>,
    /// Resource limits.
    pub resources: ResourceSpecApi,
    /// User-defined metadata tags.
    pub tags: Vec<(String, String)>,
    /// TTL override in hours.
    pub lifetime_hours: Option<u32>,
    /// Override of the container's entrypoint.
    pub command: Option<Vec<String>>,
    /// Override of the container's arguments.
    pub args: Option<Vec<String>>,
    /// Override of the container's working directory.
    pub workdir: Option<String>,
}

/// Resource limits for an agent.
#[derive(Debug)]
pub struct ResourceSpecApi {
    /// Memory limit (e.g. "8Gi").
    pub memory_limit: Option<String>,
    /// CPU limit (e.g. "4").
    pub cpu_limit: Option<String>,
}

/// Agent status for API responses.
#[derive(Debug, Clone, Copy, PartialEq, Eq, Structural)]
pub enum AgentStatusApi {
    Pending,
    Running,
    Succeeded,
    Failed,
}

/// Query parameters for listing agents.
#[derive(Debug)]
pub struct ListAgentsParams {
    /// Tag filters (`key:value`).
    pub tag: Option<Vec<String>>,
}

/// Query parameters for log streaming.
#[derive(Debug)]
pub struct LogStreamParams {
    /// Number of lines to tail from the end.
    pub tail: u32,
    /// Whether to include timestamps.
    pub timestamps: bool,
}

/// Lines tailed when the request does not say: 256.
pub fn default_tail() -> (r: u32)
    ensures
        r == 256,
{
    256
}

/// Timestamps are included unless the request says otherwise.
pub fn default_timestamps() -> (r: bool)
    ensures
        r,
{
    true
}

/// Query parameters for the cleanup endpoint.
#[derive(Debug)]
pub struct CleanupParams {
    /// Only list what would be deleted.
    pub dry_run: bool,
}

/// Response for a cleanup run.
#[derive(Debug)]
pub struct CleanupApiResponse {
    pub dry_run: bool,
    pub deleted: Option<Vec<String>>,
    pub would_delete: Option<Vec<String>>,
    pub count: u32,
}

/// The answer of a dry run: the ids that would be deleted, and how many
/// (the count is kept in 32 bits).
pub fn dry_run_cleanup_response(expired_ids: Vec<String>) -> (r: CleanupApiResponse)
    ensures
        r.dry_run,
        r.deleted is None,
        r.would_delete == Some(expired_ids),
        r.count == expired_ids@.len() as u32,
{
    #[verifier::truncate]
    let count = expired_ids.len() as u32;
    CleanupApiResponse { dry_run: true, deleted: None, would_delete: Some(expired_ids), count }
}

/// The answer of a cleanup run: the deleted ids and the count that the
/// provisioner reported.
pub fn cleanup_response(deleted_ids: Vec<String>, count: u32) -> (r: CleanupApiResponse)
    ensures
        !r.dry_run,
        r.deleted == Some(deleted_ids),
        r.would_delete is None,
        r.count == count,
{
    CleanupApiResponse { dry_run: false, deleted: Some(deleted_ids), would_delete: None, count }
}

/// Marks a request whose API key was accepted.
#[derive(Debug, Clone, Copy)]
pub struct ValidatedApiKey;

/// The outcome of the API key check on the agent endpoints.
#[derive(Debug, Clone, Copy, PartialEq, Eq, Structural)]
pub enum ApiKeyCheck {
    /// The key matches; the request goes on.
    Accepted,
    /// No (non-empty) key is configured on the server.
    NotConfigured,
    /// The request has no `X-API-Key` header, or an empty one.
    Missing,
    /// The key given is not the configured one.
    Invalid,
}

/// Checks the `X-API-Key` header (`provided`, `None` when absent or not
/// text) against the configured key. The configuration is checked first.
pub fn check_agent_api_key(expected: &Option<String>, provided: &Option<String>) -> (r: ApiKeyCheck)
    ensures
        r == (match *expected {
            Some(k) if k@.len() > 0 => match *provided {
                Some(p) if p@.len() > 0 => if p@ == k@ {
                    ApiKeyCheck::Accepted
                } else {
                    ApiKeyCheck::Invalid
                },
                _ => ApiKeyCheck::Missing,
            },
            _ => ApiKeyCheck::NotConfigured,
        }),
{
    match expected {
        Some(k) if !k.as_str().is_empty() => match provided {
            Some(p) if !p.as_str().is_empty() => {
                if crate::text::str_eq(p.as_str(), k.as_str()) {
                    ApiKeyCheck::Accepted
                } else {
                    ApiKeyCheck::Invalid
                }
            },
            _ => ApiKeyCheck::Missing,
        },
        _ => ApiKeyCheck::NotConfigured,
    }
}

/// The response that a refused API key check gets, `None` for an accepted
/// key: 500 when no key is configured, 401 when it is missing or wrong.
pub fn api_key_rejection(check: ApiKeyCheck) -> (r: Option<(u16, ErrorResponse)>)
    ensures
        check == ApiKeyCheck::Accepted <==> r is None,
        check == ApiKeyCheck::NotConfigured ==> (r matches Some((s, b)) && s == 500 && b.error@
            == "configuration_error"@ && b.message@ == "Agent API key not configured"@),
        check == ApiKeyCheck::Missing ==> (r matches Some((s, b)) && s == 401 && b.error@ == "unauthorized"@
            && b.message@ == "Missing X-API-Key header"@),
        check == ApiKeyCheck::Invalid ==> (r matches Some((s, b)) && s == 401 && b.error@ == "unauthorized"@
            && b.message@ == "Invalid API key"@),
        r matches Some((_, b)) ==> b.server_version is None && b.client_version is None,
{
    match check {
        ApiKeyCheck::Accepted => None,
        ApiKeyCheck::NotConfigured => Some(
            (500, plain("configuration_error", "Agent API key not configured".to_string())),
        ),
        ApiKeyCheck::Missing => Some((401, plain("unauthorized", "Missing X-API-Key header".to_string()))),
        ApiKeyCheck::Invalid => Some((401, plain("unauthorized", "Invalid API key".to_string()))),
    }
}

/// The failures that the agent provisioner reports, with the values its
/// messages show.
#[derive(Debug)]
pub enum ProvisionerFailure {
    AgentNotFound { id: String },
    TooManyAgents { current: u64, max: u64 },
    InvalidLifetime { requested: u64, max: u64 },
    AgentFailed { id: String, reason: String },
    AgentTimeout { id: String },
    K8sError(String),
    NamespaceNotFound { name: String },
}

/// How a provisioner failure is answered.
pub fn provisioner_error(f: ProvisionerFailure) -> (e: ServerError)
    ensures
        f matches ProvisionerFailure::AgentNotFound { id } ==> (e matches ServerError::NotFound(m) && m@
            == "Agent not found: "@ + id@),
        f matches ProvisionerFailure::TooManyAgents { current, max } ==> (e matches ServerError::ServiceUnavailable(m)
            && m@ == "Too many agents: "@ + dec_of(current as nat) + " running (max: "@ + dec_of(max as nat) + ")"@),
        f matches ProvisionerFailure::InvalidLifetime { requested, max } ==> (e matches ServerError::BadRequest(m)
            && m@ == "Invalid lifetime: "@ + dec_of(requested as nat) + " hours (max: "@ + dec_of(max as nat)
            + " hours)"@),
        f matches ProvisionerFailure::AgentFailed { id, reason } ==> (e matches ServerError::Internal(m) && m@
            == "Agent "@ + id@ + " failed: "@ + reason@),
        f matches ProvisionerFailure::AgentTimeout { id } ==> (e matches ServerError::UpstreamTimeout(m) && m@
            == "Agent "@ + id@ + " timed out waiting for ready state"@),
        f matches ProvisionerFailure::K8sError(k) ==> (e matches ServerError::UpstreamError(m) && m@
            == "Kubernetes error: "@ + k@),
        f matches ProvisionerFailure::NamespaceNotFound { name } ==> (e matches ServerError::Internal(m) && m@
            == "Namespace not found: "@ + name@),
{
    match f {
        ProvisionerFailure::AgentNotFound { id } => ServerError::NotFound("Agent not found: ".to_string().concat(id.as_str())),
        ProvisionerFailure::TooManyAgents { current, max } => ServerError::ServiceUnavailable(
            "Too many agents: ".to_string().concat(dec_string(current).as_str()).concat(" running (max: ").concat(
                dec_string(max).as_str(),
            ).concat(")"),
        ),
        ProvisionerFailure::InvalidLifetime { requested, max } => ServerError::BadRequest(
            "Invalid lifetime: ".to_string().concat(dec_string(requested).as_str()).concat(" hours (max: ").concat(
                dec_string(max).as_str(),
            ).concat(" hours)"),
        ),
        ProvisionerFailure::AgentFailed { id, reason } => ServerError::Internal(
            "Agent ".to_string().concat(id.as_str()).concat(" failed: ").concat(reason.as_str()),
        ),
        ProvisionerFailure::AgentTimeout { id } => ServerError::UpstreamTimeout(
            "Agent ".to_string().concat(id.as_str()).concat(" timed out waiting for ready state"),
        ),
        ProvisionerFailure::K8sError(e) => ServerError::UpstreamError("Kubernetes error: ".to_string().concat(e.as_str())),
        ProvisionerFailure::NamespaceNotFound { name } => ServerError::Internal(
            "Namespace not found: ".to_string().concat(name.as_str()),
        ),
    }
}

/// The tag filter of an agent listing (see `crate::tags::parse_tag_filter`).
pub fn parse_tag_filter(tags: Option<Vec<String>>) -> (r: Option<Vec<(String, String)>>)
    ensures
        r matches Some(p) ==> crate::tags::distinct_keys(crate::tags::pair_views(p@)),
        tags is None ==> r is None,
        tags matches Some(list) ==> {
            let m = crate::tags::tag_map(crate::text::string_views(list@));
            &&& m.dom().len() == 0 ==> r is None
            &&& m.dom().len() > 0 ==> (r matches Some(p) && crate::tags::pairs_map(crate::tags::pair_views(p@)) == m)
        },
{
    crate::tags::parse_tag_filter(tags)
}

/// The error when no agent provisioner is configured.
pub fn provisioner_not_configured() -> (e: ServerError)
    ensures
        e matches ServerError::Internal(m) && m@ == "Agent provisioner not configured"@,
{
    ServerError::Internal("Agent provisioner not configured".to_string())
}

/// The error for an agent id that does not parse.
pub fn invalid_agent_id(id: &str) -> (e: ServerError)
    ensures
        e matches ServerError::BadRequest(m) && m@ == "Invalid agent ID: "@ + id@,
{
    ServerError::BadRequest("Invalid agent ID: ".to_string().concat(id))
}

} // verus!
