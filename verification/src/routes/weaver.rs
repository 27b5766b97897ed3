//! Weaver provisioning endpoints: request and response types and the
//! answers that do not depend on the provisioner.

use vstd::prelude::*;
use vstd::string::StringExecFns;
use crate::error::ServerError;

verus! {

broadcast use vstd::string::group_string_axioms;

/// Request to create a new weaver.
#[derive(Debug)]
pub struct CreateWeaverApiRequest {
    /// Container image to run.
    pub image: String,
    /// Environment variables.
    pub env: Vec<(String, String)>,
    /// Resource limits.
    pub resources: ResourceSpecApi,
    /// User-defined metadata tags.
    pub tags: Vec<(String, String)>,
    /// TTL override in hours.
    pub lifetime_hours: Option<u32>,
    /// Override of the container's entrypoint.
    pub command: Option<Vec<String>>,
    /// Override of the container's arguments.
    pub args: Option<Vec<String>>,
    /// Override of the container's working directory.
    pub workdir: Option<String>,
}

/// Resource limits for a weaver.
#[derive(Debug)]
pub struct ResourceSpecApi {
    /// Memory limit (e.g. "8Gi").
    pub memory_limit: Option<String>,
    /// CPU limit (e.g. "4").
    pub cpu_limit: Option<String>,
}

/// Weaver status for API responses.
#[derive(Debug, Clone, Copy, PartialEq, Eq, Structural)]
pub enum WeaverStatusApi {
    Pending,
    Running,
    Succeeded,
    Failed,
}

/// Query parameters for listing weavers.
#[derive(Debug)]
pub struct ListWeaversParams {
    /// Tag filters (`key:value`).
    pub tag: Option<Vec<String>>,
}

/// Query parameters for log streaming.
#[derive(Debug)]
pub struct LogStreamParams {
    /// Number of lines to tail from the end.
    pub tail: u32,
    /// Whether to include timestamps.
    pub timestamps: bool,
}

/// Lines tailed when the request does not say: 256.
pub fn default_tail() -> (r: u32)
    ensures
        r == 256,
{
    256
}

/// Timestamps are included unless the request says otherwise.
pub fn default_timestamps() -> (r: bool)
    ensures
        r,
{
    true
}

/// Query parameters for the cleanup endpoint.
#[derive(Debug)]
pub struct CleanupParams {
    /// Only list what would be deleted.
    pub dry_run: bool,
}

/// Response for a cleanup run.
#[derive(Debug)]
pub struct CleanupApiResponse {
    pub dry_run: bool,
    pub deleted: Option<Vec<String>>,
    pub would_delete: Option<Vec<String>>,
    pub count: u32,
}

/// The answer of a dry run: the ids that would be deleted, and how many
/// (the count is kept in 32 bits).
pub fn dry_run_cleanup_response(expired_ids: Vec<String>) -> (r: CleanupApiResponse)
    ensures
        r.dry_run,
        r.deleted is None,
        r.would_delete == Some(expired_ids),
        r.count == expired_ids@.len() as u32,
{
    #[verifier::truncate]
    let count = expired_ids.len() as u32;
    CleanupApiResponse { dry_run: true, deleted: None, would_delete: Some(expired_ids), count }
}

/// The answer of a cleanup run: the deleted ids and the count that the
/// provisioner reported.
pub fn cleanup_response(deleted_ids: Vec<String>, count: u32) -> (r: CleanupApiResponse)
    ensures
        !r.dry_run,
        r.deleted == Some(deleted_ids),
        r.would_delete is None,
        r.count == count,
{
    CleanupApiResponse { dry_run: false, deleted: Some(deleted_ids), would_delete: None, count }
}

/// The tag filter of a weaver listing (see `crate::tags::parse_tag_filter`).
pub fn parse_tag_filter(tags: Option<Vec<String>>) -> (r: Option<Vec<(String, String)>>)
    ensures
        r matches Some(p) ==> crate::tags::distinct_keys(crate::tags::pair_views(p@)),
        tags is None ==> r is None,
        tags matches Some(list) ==> {
            let m = crate::tags::tag_map(crate::text::string_views(list@));
            &&& m.dom().len() == 0 ==> r is None
            &&& m.dom().len() > 0 ==> (r matches Some(p) && crate::tags::pairs_map(crate::tags::pair_views(p@)) == m)
        },
{
    crate::tags::parse_tag_filter(tags)
}

/// The error when no weaver provisioner is configured.
pub fn provisioner_not_configured() -> (e: ServerError)
    ensures
        e matches ServerError::Internal(m) && m@ == "Weaver provisioner not configured"@,
{
    ServerError::Internal("Weaver provisioner not configured".to_string())
}

/// The error for a weaver id that does not parse.
pub fn invalid_weaver_id(id: &str) -> (e: ServerError)
    ensures
        e matches ServerError::BadRequest(m) && m@ == "Invalid weaver ID: "@ + id@,
{
    ServerError::BadRequest("Invalid weaver ID: ".to_string().concat(id))
}

} // verus!
