//! Repository maintenance endpoints: the tasks, their defaults, who may
//! queue them and what is answered once a job is queued.

use vstd::prelude::*;
use vstd::string::StringExecFns;
use crate::routes::admin_anthropic::{AdminErrorResponse, admin_error_is};

verus! {

broadcast use vstd::string::group_string_axioms;

/// A maintenance task.
#[derive(Debug, Clone, Copy, PartialEq, Eq, Structural)]
pub enum MaintenanceTaskApi {
    Gc,
    Prune,
    Repack,
    Fsck,
    All,
}

/// The name of a task, as written in requests and messages.
pub open spec fn task_name(t: MaintenanceTaskApi) -> Seq<char> {
    match t {
        MaintenanceTaskApi::Gc => "gc"@,
        MaintenanceTaskApi::Prune => "prune"@,
        MaintenanceTaskApi::Repack => "repack"@,
        MaintenanceTaskApi::Fsck => "fsck"@,
        MaintenanceTaskApi::All => "all"@,
    }
}

impl MaintenanceTaskApi {
    /// The name of the task.
    pub fn as_str(&self) -> (r: &'static str)
        ensures
            r@ == task_name(*self),
    {
        match self {
            MaintenanceTaskApi::Gc => "gc",
            MaintenanceTaskApi::Prune => "prune",
            MaintenanceTaskApi::Repack => "repack",
            MaintenanceTaskApi::Fsck => "fsck",
            MaintenanceTaskApi::All => "all",
        }
    }
}

/// State of a maintenance job.
#[derive(Debug, Clone, Copy, PartialEq, Eq, Structural)]
pub enum MaintenanceJobStatusApi {
    Pending,
    Running,
    Success,
    Failed,
}

/// Request to run maintenance on one repository.
#[derive(Debug)]
pub struct TriggerMaintenanceRequest {
    pub task: MaintenanceTaskApi,
}

/// The task run when a request names none: garbage collection.
pub fn default_task() -> (r: MaintenanceTaskApi)
    ensures
        r == MaintenanceTaskApi::Gc,
{
    MaintenanceTaskApi::Gc
}

/// A maintenance job.
#[derive(Debug)]
pub struct MaintenanceJobResponse {
    pub id: String,
    pub repo_id: Option<String>,
    pub task: MaintenanceTaskApi,
    pub status: MaintenanceJobStatusApi,
    pub started_at: Option<String>,
    pub finished_at: Option<String>,
    pub error: Option<String>,
    pub created_at: String,
}

/// Answer to a queued job.
#[derive(Debug)]
pub struct TriggerMaintenanceResponse {
    pub job_id: String,
    pub message: String,
}

/// Error body of the repository maintenance endpoints.
#[derive(Debug)]
pub struct MaintenanceErrorResponse {
    pub error: String,
    pub message: String,
}

/// The jobs of a repository.
#[derive(Debug)]
pub struct ListMaintenanceJobsResponse {
    pub jobs: Vec<MaintenanceJobResponse>,
}

/// Query of the job listing.
#[derive(Debug)]
pub struct ListMaintenanceJobsQuery {
    pub limit: u32,
}

/// How many jobs are listed when the query names no limit.
pub fn default_limit() -> (r: u32)
    ensures
        r == 50,
{
    50
}

/// Request to run maintenance over every repository.
#[derive(Debug)]
pub struct TriggerGlobalSweepRequest {
    pub task: MaintenanceTaskApi,
    /// Pause between two repositories, in milliseconds.
    pub stagger_ms: u64,
}

/// The pause between two repositories when the request names none.
pub fn default_stagger_ms() -> (r: u64)
    ensures
        r == 1000,
{
    1000
}

/// An error answer with its status.
pub open spec fn maintenance_error_is(r: (u16, MaintenanceErrorResponse), status: u16, error: Seq<char>, message: Seq<char>) -> bool {
    r.0 == status && r.1.error@ == error && r.1.message@ == message
}

fn maintenance_error(status: u16, error: &str, message: &str) -> (r: (u16, MaintenanceErrorResponse))
    ensures
        maintenance_error_is(r, status, error@, message@),
{
    (status, MaintenanceErrorResponse { error: error.to_string(), message: message.to_string() })
}

/// Whether a repository's maintenance request may be queued: maintenance
/// and the repository store must be configured, and the repository must
/// exist (`lookup` is `Ok(found)`, `Err` when it could not be read).
pub fn check_repo_maintenance(maintenance_configured: bool, scm_configured: bool, lookup: Result<bool, ()>) -> (r: Result<(), (u16, MaintenanceErrorResponse)>)
    ensures
        r is Ok <==> (maintenance_configured && scm_configured && lookup == Ok::<bool, ()>(true)),
        !maintenance_configured ==> (r matches Err(a) && maintenance_error_is(a, 501, "not_implemented"@, "Maintenance not configured"@)),
        maintenance_configured && !scm_configured ==> (r matches Err(a) && maintenance_error_is(a, 501, "not_implemented"@, "SCM not configured"@)),
        maintenance_configured && scm_configured && lookup == Ok::<bool, ()>(false) ==> (r matches Err(a) && maintenance_error_is(
            a,
            404,
            "not_found"@,
            "Repository not found"@,
        )),
        maintenance_configured && scm_configured && lookup is Err ==> (r matches Err(a) && maintenance_error_is(
            a,
            500,
            "internal_error"@,
            "server.api.error.internal"@,
        )),
{
    if !maintenance_configured {
        return Err(maintenance_error(501, "not_implemented", "Maintenance not configured"));
    }
    if !scm_configured {
        return Err(maintenance_error(501, "not_implemented", "SCM not configured"));
    }
    match lookup {
        Ok(true) => Ok(()),
        Ok(false) => Err(maintenance_error(404, "not_found", "Repository not found")),
        Err(_) => Err(maintenance_error(500, "internal_error", "server.api.error.internal")),
    }
}

/// The answer when the job could not be stored or listed.
pub fn maintenance_internal_error() -> (r: (u16, MaintenanceErrorResponse))
    ensures
        maintenance_error_is(r, 500, "internal_error"@, "server.api.error.internal"@),
{
    maintenance_error(500, "internal_error", "server.api.error.internal")
}

/// The answer once a repository's job is queued (202).
pub fn repo_job_queued(job_id: String, task: MaintenanceTaskApi) -> (r: (u16, TriggerMaintenanceResponse))
    ensures
        r.0 == 202,
        r.1.job_id == job_id,
        r.1.message@ == "Maintenance task '"@ + task_name(task) + "' queued for repository"@,
{
    let message = "Maintenance task '".to_string().concat(task.as_str()).concat("' queued for repository");
    (202, TriggerMaintenanceResponse { job_id, message })
}

/// Who may queue a sweep over every repository: a system administrator, on
/// a server where maintenance is configured.
pub fn check_global_sweep(is_system_admin: bool, maintenance_configured: bool) -> (r: Result<(), (u16, AdminErrorResponse)>)
    ensures
        r is Ok <==> (is_system_admin && maintenance_configured),
        !is_system_admin ==> (r matches Err(a) && admin_error_is(a, 403, "forbidden"@, "server.api.admin.system_admin_required"@)),
        is_system_admin && !maintenance_configured ==> (r matches Err(a) && admin_error_is(
            a,
            501,
            "not_implemented"@,
            "Maintenance not configured"@,
        )),
{
    if !is_system_admin {
        return Err(
            (
                403,
                AdminErrorResponse {
                    error: "forbidden".to_string(),
                    message: "server.api.admin.system_admin_required".to_string(),
                },
            ),
        );
    }
    if !maintenance_configured {
        return Err(
            (
                501,
                AdminErrorResponse {
                    error: "not_implemented".to_string(),
                    message: "Maintenance not configured".to_string(),
                },
            ),
        );
    }
    Ok(())
}

/// The answer once a sweep is queued (202).
pub fn sweep_queued(job_id: String, task: MaintenanceTaskApi) -> (r: (u16, TriggerMaintenanceResponse))
    ensures
        r.0 == 202,
        r.1.job_id == job_id,
        r.1.message@ == "Global maintenance sweep '"@ + task_name(task) + "' queued"@,
{
    let message = "Global maintenance sweep '".to_string().concat(task.as_str()).concat("' queued");
    (202, TriggerMaintenanceResponse { job_id, message })
}

} // verus!
