//! Branch protection rules: the request to create one, what its pattern must
//! be, and how the checks around creating and deleting a rule are answered.

use vstd::prelude::*;
use vstd::string::StringExecFns;
use crate::routes::repos::{RepoErrorResponse, repo_error, repo_error_is};
use crate::routes::webhooks::RepoLookup;

verus! {

broadcast use vstd::string::group_string_axioms;

/// Request to create a branch protection rule. Each protection is on unless
/// the request turns it off.
#[derive(Debug)]
pub struct CreateProtectionRuleRequest {
    /// The branches the rule covers.
    pub pattern: String,
    pub block_direct_push: bool,
    pub block_force_push: bool,
    pub block_deletion: bool,
}

/// The value of a protection the request leaves out: on.
pub fn default_true() -> (r: bool)
    ensures
        r,
{
    true
}

/// Who may manage a repository's protection rules: the answer to looking the
/// repository up, and to whether the user administers it (see
/// `crate::access::is_repo_admin`), which matters only for a found one.
pub fn check_protection_admin(lookup: RepoLookup, is_admin: bool) -> (r: Result<(), (u16, RepoErrorResponse)>)
    ensures
        r is Ok <==> (lookup == RepoLookup::Found && is_admin),
        lookup == RepoLookup::NotConfigured ==> (r matches Err(a) && repo_error_is(a, 500, "not_configured"@, "server.api.scm.not_configured"@)),
        lookup == RepoLookup::Failed ==> (r matches Err(a) && repo_error_is(a, 500, "internal_error"@, "server.api.scm.internal_error"@)),
        lookup == RepoLookup::NotFound ==> (r matches Err(a) && repo_error_is(a, 404, "not_found"@, "server.api.scm.repo_not_found"@)),
        lookup == RepoLookup::Found && !is_admin ==> (r matches Err(a) && repo_error_is(a, 403, "forbidden"@, "server.api.scm.admin_required"@)),
{
    match lookup {
        RepoLookup::NotConfigured => Err(repo_error(500, "not_configured", "server.api.scm.not_configured")),
        RepoLookup::Failed => Err(repo_error(500, "internal_error", "server.api.scm.internal_error")),
        RepoLookup::NotFound => Err(repo_error(404, "not_found", "server.api.scm.repo_not_found")),
        RepoLookup::Found => {
            if is_admin {
                Ok(())
            } else {
                Err(repo_error(403, "forbidden", "server.api.scm.admin_required"))
            }
        },
    }
}

/// Whether a rule's pattern is acceptable: 1 to 256 bytes.
pub open spec fn pattern_ok(pattern: Seq<char>) -> bool {
    pattern.len() > 0 && vstd::utf8::encode_utf8(pattern).len() <= 256
}

/// Checks the pattern of a rule to create.
pub fn validate_pattern(pattern: &str) -> (r: Result<(), (u16, RepoErrorResponse)>)
    ensures
        pattern_ok(pattern@) <==> r is Ok,
        r matches Err(a) ==> repo_error_is(a, 400, "invalid_pattern"@, "server.api.scm.protection.invalid_pattern"@),
{
    let n = pattern.as_bytes().len();
    if pattern.is_empty() || n > 256 {
        return Err(repo_error(400, "invalid_pattern", "server.api.scm.protection.invalid_pattern"));
    }
    Ok(())
}

/// The answer when no protection store is configured.
pub fn protection_not_configured() -> (r: (u16, RepoErrorResponse))
    ensures
        repo_error_is(r, 500, "not_configured"@, "server.api.scm.not_configured"@),
{
    repo_error(500, "not_configured", "server.api.scm.not_configured")
}

/// The answer when the store could not create the rule.
pub fn create_rule_failure(already_exists: bool) -> (r: (u16, RepoErrorResponse))
    ensures
        already_exists ==> repo_error_is(r, 409, "already_exists"@, "server.api.scm.protection.already_exists"@),
        !already_exists ==> repo_error_is(r, 500, "internal_error"@, "server.api.scm.protection.failed_to_create"@),
{
    if already_exists {
        repo_error(409, "already_exists", "server.api.scm.protection.already_exists")
    } else {
        repo_error(500, "internal_error", "server.api.scm.protection.failed_to_create")
    }
}

/// Checks a rule to delete, given what looking it up gave: the id of the
/// repository it protects, `None` when there is no such rule, `Err` when the
/// lookup failed. A rule of another repository is answered as missing.
pub fn check_rule_for_repo(repo_id: u128, lookup: Result<Option<u128>, ()>) -> (r: Result<(), (u16, RepoErrorResponse)>)
    ensures
        r is Ok <==> lookup == Ok::<Option<u128>, ()>(Some(repo_id)),
        lookup is Err ==> (r matches Err(a) && repo_error_is(a, 500, "internal_error"@, "server.api.scm.internal_error"@)),
        lookup matches Ok(o) && o != Some(repo_id) ==> (r matches Err(a) && repo_error_is(
            a,
            404,
            "not_found"@,
            "server.api.scm.protection.rule_not_found"@,
        )),
{
    match lookup {
        Err(_) => Err(repo_error(500, "internal_error", "server.api.scm.internal_error")),
        Ok(None) => Err(repo_error(404, "not_found", "server.api.scm.protection.rule_not_found")),
        Ok(Some(owner)) => {
            if owner != repo_id {
                Err(repo_error(404, "not_found", "server.api.scm.protection.rule_not_found"))
            } else {
                Ok(())
            }
        },
    }
}

} // verus!
