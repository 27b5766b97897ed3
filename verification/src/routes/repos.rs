//! Repository endpoints: clone URLs, who may create, read, change or delete
//! a repository, how a settings update is applied, and which repositories a
//! listing shows.

use vstd::prelude::*;
use vstd::string::StringExecFns;
use crate::access::{OrgRole, Visibility, is_admin_role};
use crate::text::{chars_of, string_from_chars};

verus! {

broadcast use vstd::string::group_string_axioms;

/// Error body of the repository endpoints.
#[derive(Debug)]
pub struct RepoErrorResponse {
    pub error: String,
    pub message: String,
}

/// Success body of the repository endpoints.
#[derive(Debug)]
pub struct RepoSuccessResponse {
    pub message: String,
}

/// An error answer with its status.
pub open spec fn repo_error_is(r: (u16, RepoErrorResponse), status: u16, error: Seq<char>, message: Seq<char>) -> bool {
    r.0 == status && r.1.error@ == error && r.1.message@ == message
}

pub(crate) fn repo_error(status: u16, error: &str, message: &str) -> (r: (u16, RepoErrorResponse))
    ensures
        repo_error_is(r, status, error@, message@),
{
    (status, RepoErrorResponse { error: error.to_string(), message: message.to_string() })
}

// ---------------------------------------------------------------------------
// Clone URLs
// ---------------------------------------------------------------------------

/// `s` without the slashes it ends with.
pub open spec fn trim_trailing_slashes(s: Seq<char>) -> Seq<char>
    decreases s.len(),
{
    if s.len() > 0 && s.last() == '/' {
        trim_trailing_slashes(s.drop_last())
    } else {
        s
    }
}

/// The URL a repository is cloned from: `{base}/git/{owner}/{repo}.git`, the
/// base taken without trailing slashes.
pub open spec fn clone_url_of(base_url: Seq<char>, owner_name: Seq<char>, repo_name: Seq<char>) -> Seq<char> {
    trim_trailing_slashes(base_url) + "/git/"@ + owner_name + "/"@ + repo_name + ".git"@
}

/// Builds the clone URL of a repository.
pub fn build_clone_url(base_url: &str, owner_name: &str, repo_name: &str) -> (r: String)
    ensures
        r@ == clone_url_of(base_url@, owner_name@, repo_name@),
{
    let v = chars_of(base_url);
    let mut end = v.len();
    assert(v@.subrange(0, end as int) =~= v@);
    while end > 0 && v[end - 1] == '/'
        invariant
            end <= v.len(),
            trim_trailing_slashes(v@.subrange(0, end as int)) == trim_trailing_slashes(v@),
        decreases end,
    {
        assert(v@.subrange(0, end as int).drop_last() == v@.subrange(0, end - 1));
        end = end - 1;
    }
    assert(trim_trailing_slashes(v@.subrange(0, end as int)) == v@.subrange(0, end as int));
    let base = string_from_chars(&v, 0, end);
    base.concat("/git/").concat(owner_name).concat("/").concat(repo_name).concat(".git")
}

// ---------------------------------------------------------------------------
// Creating a repository
// ---------------------------------------------------------------------------

/// The owner name of a repository a user creates for themselves: their
/// username, else their display name. A user may not create a repository
/// for somebody else.
pub fn check_user_owner(owner_id: u128, user_id: u128, username: Option<String>, display_name: String) -> (r: Result<String, (u16, RepoErrorResponse)>)
    ensures
        owner_id != user_id ==> (r matches Err(a) && repo_error_is(
            a,
            403,
            "forbidden"@,
            "server.api.scm.cannot_create_for_other_user"@,
        )),
        owner_id == user_id ==> r == Ok::<String, (u16, RepoErrorResponse)>(
            match username {
                Some(u) => u,
                None => display_name,
            },
        ),
{
    if owner_id != user_id {
        return Err(repo_error(403, "forbidden", "server.api.scm.cannot_create_for_other_user"));
    }
    match username {
        Some(u) => Ok(u),
        None => Ok(display_name),
    }
}

/// Whether a user may create a repository for an organization, given what
/// reading their membership gave: only owners and admins may.
pub fn check_org_creator(membership: Result<Option<OrgRole>, ()>) -> (r: Result<(), (u16, RepoErrorResponse)>)
    ensures
        r is Ok <==> (membership matches Ok(Some(role)) && is_admin_role(role)),
        membership is Err ==> (r matches Err(a) && repo_error_is(a, 500, "internal_error"@, "server.api.scm.internal_error"@)),
        membership == Ok::<Option<OrgRole>, ()>(None) ==> (r matches Err(a) && repo_error_is(
            a,
            403,
            "forbidden"@,
            "server.api.scm.not_org_member"@,
        )),
        membership == Ok::<Option<OrgRole>, ()>(Some(OrgRole::Member)) ==> (r matches Err(a) && repo_error_is(
            a,
            403,
            "forbidden"@,
            "server.api.scm.org_admin_required"@,
        )),
{
    match membership {
        Err(_) => Err(repo_error(500, "internal_error", "server.api.scm.internal_error")),
        Ok(None) => Err(repo_error(403, "forbidden", "server.api.scm.not_org_member")),
        Ok(Some(role)) => {
            if role != OrgRole::Owner && role != OrgRole::Admin {
                Err(repo_error(403, "forbidden", "server.api.scm.org_admin_required"))
            } else {
                Ok(())
            }
        },
    }
}

/// The owner name of an organization's repository: the organization's slug,
/// given what reading the organization gave.
pub fn org_owner_name(org_slug: Result<Option<String>, ()>) -> (r: Result<String, (u16, RepoErrorResponse)>)
    ensures
        match org_slug {
            Ok(Some(s)) => r == Ok::<String, (u16, RepoErrorResponse)>(s),
            Ok(None) => r matches Err(a) && repo_error_is(a, 404, "not_found"@, "server.api.scm.org_not_found"@),
            Err(_) => r matches Err(a) && repo_error_is(a, 500, "internal_error"@, "server.api.scm.internal_error"@),
        },
{
    match org_slug {
        Ok(Some(s)) => Ok(s),
        Ok(None) => Err(repo_error(404, "not_found", "server.api.scm.org_not_found")),
        Err(_) => Err(repo_error(500, "internal_error", "server.api.scm.internal_error")),
    }
}

/// The answer when the store could not create the repository.
pub fn create_repo_failure(already_exists: bool) -> (r: (u16, RepoErrorResponse))
    ensures
        already_exists ==> repo_error_is(r, 409, "already_exists"@, "server.api.scm.repo_already_exists"@),
        !already_exists ==> repo_error_is(r, 500, "internal_error"@, "server.api.scm.failed_to_create_repo"@),
{
    if already_exists {
        repo_error(409, "already_exists", "server.api.scm.repo_already_exists")
    } else {
        repo_error(500, "internal_error", "server.api.scm.failed_to_create_repo")
    }
}

// ---------------------------------------------------------------------------
// Reading, changing, deleting
// ---------------------------------------------------------------------------

/// What looking a repository up gave, with the store configured or not:
/// `None` when no store is configured, else `Ok(found)` or `Err` on failure.
pub fn check_repo_found(lookup: Option<Result<bool, ()>>) -> (r: Result<(), (u16, RepoErrorResponse)>)
    ensures
        r is Ok <==> lookup == Some(Ok::<bool, ()>(true)),
        lookup is None ==> (r matches Err(a) && repo_error_is(a, 500, "not_configured"@, "server.api.scm.not_configured"@)),
        lookup == Some(Ok::<bool, ()>(false)) ==> (r matches Err(a) && repo_error_is(
            a,
            404,
            "not_found"@,
            "server.api.scm.repo_not_found"@,
        )),
        lookup matches Some(Err(_)) ==> (r matches Err(a) && repo_error_is(
            a,
            500,
            "internal_error"@,
            "server.api.scm.internal_error"@,
        )),
{
    match lookup {
        None => Err(repo_error(500, "not_configured", "server.api.scm.not_configured")),
        Some(Ok(true)) => Ok(()),
        Some(Ok(false)) => Err(repo_error(404, "not_found", "server.api.scm.repo_not_found")),
        Some(Err(_)) => Err(repo_error(500, "internal_error", "server.api.scm.internal_error")),
    }
}

/// Refuses a reader without access to a private repository (see
/// `crate::access::can_read_repo`).
pub fn check_repo_read(can_read: bool) -> (r: Result<(), (u16, RepoErrorResponse)>)
    ensures
        can_read <==> r is Ok,
        r matches Err(a) ==> repo_error_is(a, 403, "forbidden"@, "server.api.scm.access_denied"@),
{
    if can_read {
        Ok(())
    } else {
        Err(repo_error(403, "forbidden", "server.api.scm.access_denied"))
    }
}

/// Refuses a user who does not administer the repository, directly (see
/// `crate::access::is_repo_admin`) or through a team with the admin role.
pub fn check_repo_admin(is_admin: bool, team_admin: bool) -> (r: Result<(), (u16, RepoErrorResponse)>)
    ensures
        (is_admin || team_admin) <==> r is Ok,
        r matches Err(a) ==> repo_error_is(a, 403, "forbidden"@, "server.api.scm.admin_required"@),
{
    if is_admin || team_admin {
        Ok(())
    } else {
        Err(repo_error(403, "forbidden", "server.api.scm.admin_required"))
    }
}

/// The owner name shown for a repository whose owner could not be read.
pub fn owner_name_or_unknown(name: Option<String>) -> (r: String)
    ensures
        match name {
            Some(n) => r == n,
            None => r@ == "unknown"@,
        },
{
    match name {
        Some(n) => n,
        None => "unknown".to_string(),
    }
}

/// The settings of a repository that an update may change.
#[derive(Debug)]
pub struct RepoSettings {
    pub name: String,
    pub visibility: Visibility,
    pub default_branch: String,
}

/// A settings update: each field that is set replaces the current one.
#[derive(Debug)]
pub struct UpdateRepoRequest {
    pub name: Option<String>,
    pub visibility: Option<Visibility>,
    pub default_branch: Option<String>,
}

/// Why an update is refused, if it is: a new name must be 1 to 100 bytes, a
/// new default branch must not be empty.
pub open spec fn update_error(u: UpdateRepoRequest) -> Option<(Seq<char>, Seq<char>)> {
    if u.name matches Some(n) && (n@.len() == 0 || vstd::utf8::encode_utf8(n@).len() > 100) {
        Some(("invalid_name"@, "server.api.scm.invalid_repo_name"@))
    } else if u.default_branch matches Some(b) && b@.len() == 0 {
        Some(("invalid_branch"@, "server.api.scm.invalid_default_branch"@))
    } else {
        None
    }
}

/// The settings after an accepted update.
pub open spec fn updated_settings(s: RepoSettings, u: UpdateRepoRequest) -> RepoSettings {
    RepoSettings {
        name: match u.name {
            Some(n) => n,
            None => s.name,
        },
        visibility: match u.visibility {
            Some(v) => v,
            None => s.visibility,
        },
        default_branch: match u.default_branch {
            Some(b) => b,
            None => s.default_branch,
        },
    }
}

/// Applies a settings update, or refuses it with 400.
pub fn apply_repo_update(current: RepoSettings, update: UpdateRepoRequest) -> (r: Result<RepoSettings, (u16, RepoErrorResponse)>)
    ensures
        match update_error(update) {
            Some((e, m)) => r matches Err(a) && repo_error_is(a, 400, e, m),
            None => r == Ok::<RepoSettings, (u16, RepoErrorResponse)>(updated_settings(current, update)),
        },
{
    let ghost u = update;
    let ghost s = current;
    let name = match update.name {
        Some(n) => {
            let len = n.as_str().as_bytes().len();
            if n.as_str().is_empty() || len > 100 {
                return Err(repo_error(400, "invalid_name", "server.api.scm.invalid_repo_name"));
            }
            n
        },
        None => current.name,
    };
    let visibility = match update.visibility {
        Some(v) => v,
        None => current.visibility,
    };
    let default_branch = match update.default_branch {
        Some(b) => {
            if b.as_str().is_empty() {
                return Err(repo_error(400, "invalid_branch", "server.api.scm.invalid_default_branch"));
            }
            b
        },
        None => current.default_branch,
    };
    let r = RepoSettings { name, visibility, default_branch };
    assert(r == updated_settings(s, u));
    Ok(r)
}

/// An accepted update applied a second time changes nothing more, and an
/// update that sets nothing changes nothing.
pub proof fn lemma_update_is_idempotent(s: RepoSettings, u: UpdateRepoRequest)
    ensures
        updated_settings(updated_settings(s, u), u) == updated_settings(s, u),
        (u.name is None && u.visibility is None && u.default_branch is None) ==> updated_settings(s, u) == s,
{
}

// ---------------------------------------------------------------------------
// Listings
// ---------------------------------------------------------------------------

/// The positions of the repositories a listing shows: every public one, and
/// the private ones too when the reader owns them (or is a member of the
/// owning organization).
pub open spec fn visible_positions(vis: Seq<Visibility>, sees_private: bool) -> Seq<usize>
    decreases vis.len(),
{
    if vis.len() == 0 {
        Seq::empty()
    } else {
        let rest = visible_positions(vis.drop_last(), sees_private);
        if vis.last() == Visibility::Public || sees_private {
            rest.push((vis.len() - 1) as usize)
        } else {
            rest
        }
    }
}

/// Picks the repositories a listing shows, in listing order.
pub fn visible_repos(vis: &Vec<Visibility>, sees_private: bool) -> (r: Vec<usize>)
    ensures
        r@ == visible_positions(vis@, sees_private),
{
    let mut r: Vec<usize> = Vec::new();
    let mut i: usize = 0;
    while i < vis.len()
        invariant
            i <= vis.len(),
            r@ == visible_positions(vis@.subrange(0, i as int), sees_private),
        decreases vis.len() - i,
    {
        assert(vis@.subrange(0, i + 1).drop_last() == vis@.subrange(0, i as int));
        if vis[i] == Visibility::Public || sees_private {
            r.push(i);
        }
        i = i + 1;
    }
    assert(vis@.subrange(0, i as int) == vis@);
    r
}

/// A reader who sees private repositories sees the whole listing; one who
/// does not sees exactly the public ones, each at most once.
pub proof fn lemma_visible_positions(vis: Seq<Visibility>, sees_private: bool)
    requires
        vis.len() <= usize::MAX,
    ensures
        sees_private ==> visible_positions(vis, sees_private).len() == vis.len(),
        forall|k: int| 0 <= k < visible_positions(vis, sees_private).len() ==> {
            let p = #[trigger] visible_positions(vis, sees_private)[k];
            &&& p < vis.len()
            &&& (vis[p as int] == Visibility::Public || sees_private)
        },
        forall|i: int|
            0 <= i < vis.len() && (vis[i] == Visibility::Public || sees_private) ==> #[trigger] visible_positions(
                vis,
                sees_private,
            ).contains(i as usize),
    decreases vis.len(),
{
    if vis.len() > 0 {
        let rest = vis.drop_last();
        lemma_visible_positions(rest, sees_private);
        let v = visible_positions(vis, sees_private);
        let w = visible_positions(rest, sees_private);
        assert forall|k: int| 0 <= k < v.len() implies {
            let p = #[trigger] v[k];
            &&& p < vis.len()
            &&& (vis[p as int] == Visibility::Public || sees_private)
        } by {
            if vis.last() == Visibility::Public || sees_private {
                assert(v == w.push((vis.len() - 1) as usize));
            } else {
                assert(v == w);
            }
            if k < w.len() {
                let p = w[k];
                assert(p < rest.len());
                assert(v[k] == p);
                assert(rest[p as int] == vis[p as int]);
            }
        }
        assert forall|i: int|
            0 <= i < vis.len() && (vis[i] == Visibility::Public || sees_private) implies #[trigger] visible_positions(
                vis,
                sees_private,
            ).contains(i as usize) by {
            if i < vis.len() - 1 {
                assert(rest[i] == vis[i]);
                assert(visible_positions(rest, sees_private).contains(i as usize));
                let j = choose|j: int|
                    0 <= j < visible_positions(rest, sees_private).len() && visible_positions(rest, sees_private)[j]
                        == i as usize;
                if vis.last() == Visibility::Public || sees_private {
                    assert(visible_positions(vis, sees_private)[j] == i as usize);
                }
            } else {
                let v = visible_positions(vis, sees_private);
                assert(v[v.len() - 1] == i as usize);
            }
        }
    }
}

/// The answer when revoking a team's access found no such access.
pub fn team_access_not_found() -> (r: (u16, RepoErrorResponse))
    ensures
        repo_error_is(r, 404, "not_found"@, "Team access not found"@),
{
    repo_error(404, "not_found", "Team access not found")
}

/// Where a repository lives below the repositories directory: a shard named
/// by the first two characters of its id, then the id, then `git`.
pub open spec fn repo_subpath_of(id: Seq<char>) -> Seq<char> {
    id.take(2) + "/"@ + id + "/git"@
}

/// The path of a repository below the repositories directory. The id is the
/// text of a UUID, whose first two characters are ASCII.
pub fn repo_subpath(id: &str) -> (r: String)
    requires
        id@.len() >= 2,
        (id@[0] as u32) < 128,
        (id@[1] as u32) < 128,
    ensures
        r@ == repo_subpath_of(id@),
{
    let c = chars_of(id);
    let shard = string_from_chars(&c, 0, 2);
    assert(c@.subrange(0, 2) == id@.take(2));
    shard.concat("/").concat(id).concat("/git")
}

/// The checks made before a repository is created, in the order the server
/// makes them: a repository store must be configured, the name must be
/// valid (`name_check`, the refusal's message when it is not), then the
/// owner: a user may create only for themselves; for an organization the
/// caller must be an owner or admin (`membership`) and the organization
/// must be found (`org_slug`). Returns the owner's name, or the answer of
/// the first check that fails; the later reads do not matter once a check
/// has failed, nor the organization's for a user's repository.
pub fn create_repo_checks(
    store_configured: bool,
    name_check: Result<(), String>,
    owner_is_org: bool,
    owner_id: u128,
    user_id: u128,
    username: Option<String>,
    display_name: String,
    membership: Result<Option<OrgRole>, ()>,
    org_slug: Result<Option<String>, ()>,
) -> (r: Result<String, (u16, RepoErrorResponse)>)
    ensures
        !store_configured ==> (r matches Err(a) && repo_error_is(a, 500, "not_configured"@, "server.api.scm.not_configured"@)),
        store_configured && name_check is Err ==> (r matches Err(a) && repo_error_is(
            a,
            400,
            "invalid_name"@,
            name_check->Err_0@,
        )),
        store_configured && name_check is Ok && !owner_is_org ==> {
            &&& owner_id != user_id ==> (r matches Err(a) && repo_error_is(
                a,
                403,
                "forbidden"@,
                "server.api.scm.cannot_create_for_other_user"@,
            ))
            &&& owner_id == user_id ==> r == Ok::<String, (u16, RepoErrorResponse)>(
                match username {
                    Some(u) => u,
                    None => display_name,
                },
            )
        },
        store_configured && name_check is Ok && owner_is_org ==> {
            &&& membership is Err ==> (r matches Err(a) && repo_error_is(
                a,
                500,
                "internal_error"@,
                "server.api.scm.internal_error"@,
            ))
            &&& membership == Ok::<Option<OrgRole>, ()>(None) ==> (r matches Err(a) && repo_error_is(
                a,
                403,
                "forbidden"@,
                "server.api.scm.not_org_member"@,
            ))
            &&& membership == Ok::<Option<OrgRole>, ()>(Some(OrgRole::Member)) ==> (r matches Err(a) && repo_error_is(
                a,
                403,
                "forbidden"@,
                "server.api.scm.org_admin_required"@,
            ))
            &&& (membership matches Ok(Some(role)) && is_admin_role(role)) ==> match org_slug {
                Ok(Some(s)) => r == Ok::<String, (u16, RepoErrorResponse)>(s),
                Ok(None) => r matches Err(a) && repo_error_is(a, 404, "not_found"@, "server.api.scm.org_not_found"@),
                Err(_) => r matches Err(a) && repo_error_is(
                    a,
                    500,
                    "internal_error"@,
                    "server.api.scm.internal_error"@,
                ),
            }
        },
{
    if !store_configured {
        return Err(repo_error(500, "not_configured", "server.api.scm.not_configured"));
    }
    match name_check {
        Err(m) => {
            return Err((400, RepoErrorResponse { error: "invalid_name".to_string(), message: m }));
        },
        Ok(()) => {},
    }
    if !owner_is_org {
        return check_user_owner(owner_id, user_id, username, display_name);
    }
    check_org_creator(membership)?;
    org_owner_name(org_slug)
}

} // verus!
