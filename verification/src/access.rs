//! Who may administer a repository or an organization.

use vstd::prelude::*;

verus! {

/// Whether a repository belongs to a user or to an organization.
#[derive(Debug, Clone, Copy, PartialEq, Eq, Structural)]
pub enum OwnerType {
    User,
    Org,
}

/// A member's role in an organization.
#[derive(Debug, Clone, Copy, PartialEq, Eq, Structural)]
pub enum OrgRole {
    Owner,
    Admin,
    Member,
}

/// Whether a repository is visible to everyone.
#[derive(Debug, Clone, Copy, PartialEq, Eq, Structural)]
pub enum Visibility {
    Public,
    Private,
}

/// An organization role that may administer the organization and its
/// repositories.
pub open spec fn is_admin_role(role: OrgRole) -> bool {
    role == OrgRole::Owner || role == OrgRole::Admin
}

/// Who administers a repository: for a user's repository, that user; for an
/// organization's, its owners and admins. `membership` is the user's role in
/// the owning organization (`None` when the user is not a member, or when
/// the membership could not be read).
pub open spec fn repo_admin_spec(
    owner_type: OwnerType,
    owner_id: u128,
    user_id: u128,
    membership: Option<OrgRole>,
) -> bool {
    match owner_type {
        OwnerType::User => owner_id == user_id,
        OwnerType::Org => membership matches Some(r) && is_admin_role(r),
    }
}

/// Whether the user administers the repository.
pub fn is_repo_admin(owner_type: OwnerType, owner_id: u128, user_id: u128, membership: Option<OrgRole>) -> (r:
    bool)
    ensures
        r == repo_admin_spec(owner_type, owner_id, user_id, membership),
{
    match owner_type {
        OwnerType::User => owner_id == user_id,
        OwnerType::Org => match membership {
            Some(role) => role == OrgRole::Owner || role == OrgRole::Admin,
            None => false,
        },
    }
}

/// Whether the user administers the organization, given the user's role in
/// it (`None` for a non-member).
pub fn is_org_admin(membership: Option<OrgRole>) -> (r: bool)
    ensures
        r == (membership matches Some(role) && is_admin_role(role)),
{
    match membership {
        Some(role) => role == OrgRole::Owner || role == OrgRole::Admin,
        None => false,
    }
}

/// A user-owned repository is administered by its owner and nobody else; an
/// organization's repository by none but the organization's owners and
/// admins, whatever their user ids.
pub proof fn lemma_repo_admin_is_owner_or_org_admin(
    owner_type: OwnerType,
    owner_id: u128,
    user_id: u128,
    membership: Option<OrgRole>,
)
    ensures
        owner_type == OwnerType::User ==> (repo_admin_spec(owner_type, owner_id, user_id, membership)
            <==> owner_id == user_id),
        owner_type == OwnerType::Org ==> (repo_admin_spec(owner_type, owner_id, user_id, membership)
            <==> (membership == Some(OrgRole::Owner) || membership == Some(OrgRole::Admin))),
        membership is None && owner_type == OwnerType::Org ==> !repo_admin_spec(
            owner_type,
            owner_id,
            user_id,
            membership,
        ),
{
}

/// Who may read a repository: anybody when it is public; when private, the
/// owning user, or for an organization's repository its members
/// (`is_member`).
pub open spec fn repo_read_spec(
    visibility: Visibility,
    owner_type: OwnerType,
    owner_id: u128,
    user_id: u128,
    is_member: bool,
) -> bool {
    match visibility {
        Visibility::Public => true,
        Visibility::Private => match owner_type {
            OwnerType::User => owner_id == user_id,
            OwnerType::Org => is_member,
        },
    }
}

/// Whether the user may read the repository.
pub fn can_read_repo(visibility: Visibility, owner_type: OwnerType, owner_id: u128, user_id: u128, is_member: bool) -> (r: bool)
    ensures
        r == repo_read_spec(visibility, owner_type, owner_id, user_id, is_member),
{
    match visibility {
        Visibility::Public => true,
        Visibility::Private => match owner_type {
            OwnerType::User => owner_id == user_id,
            OwnerType::Org => is_member,
        },
    }
}

/// Whoever administers a repository may also read it.
pub proof fn lemma_admin_can_read(
    visibility: Visibility,
    owner_type: OwnerType,
    owner_id: u128,
    user_id: u128,
    membership: Option<OrgRole>,
)
    requires
        repo_admin_spec(owner_type, owner_id, user_id, membership),
    ensures
        repo_read_spec(visibility, owner_type, owner_id, user_id, membership is Some),
{
}

} // verus!
