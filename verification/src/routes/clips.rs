//! Clips endpoints. The feature is not built yet: every endpoint answers 501.

use vstd::prelude::*;

verus! {

broadcast use vstd::string::group_string_axioms;

/// A file of a clip to create.
#[derive(Debug)]
pub struct CreateClipFile {
    pub path: String,
    pub content: String,
}

/// Changes to a clip.
#[derive(Debug)]
pub struct UpdateClipRequest {
    pub name: Option<String>,
    pub description: Option<String>,
    pub visibility: Option<String>,
}

/// Paging of clip listings.
#[derive(Debug)]
pub struct ListClipsQuery {
    pub page: Option<u32>,
    pub per_page: Option<u32>,
}

/// One file of a clip.
#[derive(Debug)]
pub struct ClipFileResponse {
    pub path: String,
    pub content: String,
    pub size: u64,
    pub language: Option<String>,
}

/// The files of a clip at a revision.
#[derive(Debug)]
pub struct ClipFilesResponse {
    pub files: Vec<ClipFileResponse>,
    pub revision: String,
}

/// Error body of the clips endpoints.
#[derive(Debug)]
pub struct ClipsErrorResponse {
    pub error: String,
    pub message: String,
}

/// The answer of every clips endpoint: 501, the feature is not implemented.
pub open spec fn is_not_implemented(r: (u16, ClipsErrorResponse)) -> bool {
    r.0 == 501 && r.1.error@ == "not_implemented"@ && r.1.message@ == "Clips feature is not yet implemented"@
}

/// The 501 answer of the clips endpoints.
pub fn not_implemented() -> (r: (u16, ClipsErrorResponse))
    ensures
        is_not_implemented(r),
{
    (
        501,
        ClipsErrorResponse {
            error: "not_implemented".to_string(),
            message: "Clips feature is not yet implemented".to_string(),
        },
    )
}

/// `POST /api/clips`.
pub fn create_clip() -> (r: (u16, ClipsErrorResponse))
    ensures
        is_not_implemented(r),
{
    not_implemented()
}

/// `GET /api/clips/{owner}/{name}`.
pub fn get_clip() -> (r: (u16, ClipsErrorResponse))
    ensures
        is_not_implemented(r),
{
    not_implemented()
}

/// `PATCH /api/clips/{id}`.
pub fn update_clip() -> (r: (u16, ClipsErrorResponse))
    ensures
        is_not_implemented(r),
{
    not_implemented()
}

/// `DELETE /api/clips/{id}`.
pub fn delete_clip() -> (r: (u16, ClipsErrorResponse))
    ensures
        is_not_implemented(r),
{
    not_implemented()
}

/// `GET /api/users/{user_id}/clips`.
pub fn list_user_clips() -> (r: (u16, ClipsErrorResponse))
    ensures
        is_not_implemented(r),
{
    not_implemented()
}

/// `GET /api/orgs/{org_id}/clips`.
pub fn list_org_clips() -> (r: (u16, ClipsErrorResponse))
    ensures
        is_not_implemented(r),
{
    not_implemented()
}

/// `GET /api/clips` (public clips).
pub fn list_public_clips() -> (r: (u16, ClipsErrorResponse))
    ensures
        is_not_implemented(r),
{
    not_implemented()
}

/// `GET /api/clips/{id}/files`.
pub fn list_clip_files() -> (r: (u16, ClipsErrorResponse))
    ensures
        is_not_implemented(r),
{
    not_implemented()
}

/// `GET /api/clips/{id}/files/{path}`.
pub fn get_clip_file() -> (r: (u16, ClipsErrorResponse))
    ensures
        is_not_implemented(r),
{
    not_implemented()
}

/// `POST /api/clips/{id}/fork`.
pub fn fork_clip() -> (r: (u16, ClipsErrorResponse))
    ensures
        is_not_implemented(r),
{
    not_implemented()
}

} // verus!
