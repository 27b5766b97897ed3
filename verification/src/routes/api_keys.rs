//! Organization API keys: how a key's token is stored (as the hex SHA-256 of
//! the token), what a creation request must hold, and how a revocation is
//! decided. Revocation is permanent: a revoked key is never revoked again.

use vstd::prelude::*;
use vstd::string::StringExecFns;
use sha2::Digest;
use crate::ids::{parse_uuid, uuid_parse};
use crate::text::{trim, trim_ws};

verus! {

broadcast use vstd::string::group_string_axioms;

// ---------------------------------------------------------------------------
// Token hashing
// ---------------------------------------------------------------------------

/// The SHA-256 digest of `data`, as `sha2::Sha256` computes it.
pub uninterp spec fn sha256_digest(data: Seq<u8>) -> Seq<u8>;

/// Digests `data` with `sha2::Sha256` (`new`, `update`, `finalize`). The
/// result is the digest of exactly these bytes, 32 bytes long.
#[verifier::external_body]
fn sha256(data: &[u8]) -> (r: Vec<u8>)
    ensures
        r@ == sha256_digest(data@),
        r@.len() == 32,
{
    let mut hasher = sha2::Sha256::new();
    hasher.update(data);
    hasher.finalize().to_vec()
}

/// The lowercase hex digit of `d < 16`.
pub open spec fn hex_char(d: nat) -> char {
    if d < 10 {
        (48 + d) as char
    } else {
        (87 + d) as char
    }
}

/// `bytes` in lowercase hex: two digits per byte, high nibble first.
pub open spec fn hex_lower(bytes: Seq<u8>) -> Seq<char> {
    Seq::new(
        2 * bytes.len(),
        |i: int|
            if i % 2 == 0 {
                hex_char((bytes[i / 2] / 16) as nat)
            } else {
                hex_char((bytes[i / 2] % 16) as nat)
            },
    )
}

/// Encodes `bytes` with `hex::encode`, which writes each byte as two
/// lowercase hex digits, high nibble first.
#[verifier::external_body]
fn hex_encode(bytes: &[u8]) -> (r: String)
    ensures
        r@ == hex_lower(bytes@),
{
    hex::encode(bytes)
}

/// The stored form of a token: the hex SHA-256 digest of its UTF-8 bytes.
pub open spec fn token_hash(token: Seq<char>) -> Seq<char> {
    hex_lower(sha256_digest(vstd::utf8::encode_utf8(token)))
}

/// Hashes a token for storage.
pub fn hash_token(token: &str) -> (r: String)
    ensures
        r@ == token_hash(token@),
        r@.len() == 64,
{
    let digest = sha256(token.as_bytes());
    hex_encode(digest.as_slice())
}

// ---------------------------------------------------------------------------
// Request and response types
// ---------------------------------------------------------------------------

/// What an API key may be used for.
#[derive(Debug, Clone, Copy, PartialEq, Eq, Structural)]
pub enum ApiKeyScopeApi {
    /// Read thread data.
    ThreadsRead,
    /// Create and update threads.
    ThreadsWrite,
    /// Delete threads.
    ThreadsDelete,
    /// Use LLM services.
    LlmUse,
    /// Execute tools.
    ToolsUse,
}

/// Request to create an API key.
#[derive(Debug)]
pub struct CreateApiKeyRequest {
    /// Human-readable name of the key.
    pub name: String,
    /// Scopes granted to the key.
    pub scopes: Vec<ApiKeyScopeApi>,
}

/// Success body of the API key endpoints.
#[derive(Debug)]
pub struct ApiKeySuccessResponse {
    pub message: String,
}

/// Error body of the API key endpoints.
#[derive(Debug)]
pub struct ApiKeyErrorResponse {
    pub error: String,
    pub message: String,
}

/// An error answer with its status, error code and message (key).
pub open spec fn key_error_is(r: (u16, ApiKeyErrorResponse), status: u16, error: Seq<char>, message: Seq<char>) -> bool {
    r.0 == status && r.1.error@ == error && r.1.message@ == message
}

fn key_error(status: u16, error: &str, message: &str) -> (r: (u16, ApiKeyErrorResponse))
    ensures
        key_error_is(r, status, error@, message@),
{
    (status, ApiKeyErrorResponse { error: error.to_string(), message: message.to_string() })
}

// ---------------------------------------------------------------------------
// Checks
// ---------------------------------------------------------------------------

/// Reads the organization id of a request path; a text that is no UUID is
/// answered 400.
pub fn parse_org_id(s: &str) -> (r: Result<u128, (u16, ApiKeyErrorResponse)>)
    ensures
        match uuid_parse(s@) {
            Some(v) => r == Ok::<u128, (u16, ApiKeyErrorResponse)>(v),
            None => r matches Err(a) && key_error_is(a, 400, "invalid_org_id"@, "server.api.api_key.invalid_org_id"@),
        },
{
    match parse_uuid(s) {
        Some(v) => Ok(v),
        None => Err(key_error(400, "invalid_org_id", "server.api.api_key.invalid_org_id")),
    }
}

/// The answer when the organization does not exist (or could not be read).
pub fn require_org(exists: bool) -> (r: Result<(), (u16, ApiKeyErrorResponse)>)
    ensures
        exists <==> r is Ok,
        r matches Err(a) ==> key_error_is(a, 404, "not_found"@, "server.api.org.not_found"@),
{
    if exists {
        Ok(())
    } else {
        Err(key_error(404, "not_found", "server.api.org.not_found"))
    }
}

/// Checks a creation request: its name must hold more than white space,
/// and it must ask for at least one scope.
pub fn validate_create_request(req: &CreateApiKeyRequest) -> (r: Result<(), (u16, ApiKeyErrorResponse)>)
    ensures
        trim_ws(req.name@).len() == 0 ==> (r matches Err(a) && key_error_is(
            a,
            400,
            "invalid_name"@,
            "server.api.api_key.name_empty"@,
        )),
        trim_ws(req.name@).len() > 0 && req.scopes.len() == 0 ==> (r matches Err(a) && key_error_is(
            a,
            400,
            "invalid_scopes"@,
            "server.api.api_key.no_scopes"@,
        )),
        r is Ok <==> (trim_ws(req.name@).len() > 0 && req.scopes.len() > 0),
{
    let t = trim(req.name.as_str());
    if t.as_str().is_empty() {
        return Err(key_error(400, "invalid_name", "server.api.api_key.name_empty"));
    }
    if req.scopes.len() == 0 {
        return Err(key_error(400, "invalid_scopes", "server.api.api_key.no_scopes"));
    }
    Ok(())
}

/// What the revocation path reads of a stored key.
#[derive(Debug, Clone, Copy, PartialEq, Eq, Structural)]
pub struct ApiKeyRecord {
    /// The organization the key belongs to.
    pub org_id: u128,
    /// Whether the key has been revoked.
    pub revoked: bool,
}

/// A key after it was revoked.
pub open spec fn revoked_record(k: ApiKeyRecord) -> ApiKeyRecord {
    ApiKeyRecord { revoked: true, ..k }
}

/// How a key looked up for an organization is answered before anything is
/// done with it: `Ok` with the key when it may be used, else the status and
/// error code. A key of another organization is answered as if missing.
pub open spec fn key_lookup_answer(org_id: u128, lookup: Result<Option<ApiKeyRecord>, ()>) -> Result<ApiKeyRecord, (u16, Seq<char>, Seq<char>)> {
    match lookup {
        Err(_) => Err((500, "internal_error"@, "server.api.error.internal"@)),
        Ok(None) => Err((404, "not_found"@, "server.api.api_key.not_found"@)),
        Ok(Some(k)) => if k.org_id != org_id {
            Err((404, "not_found"@, "server.api.api_key.not_found"@))
        } else {
            Ok(k)
        },
    }
}

/// How a revocation request is answered before the store is asked to revoke:
/// the key must be found for the organization and not be revoked already.
pub open spec fn revocation_answer(org_id: u128, lookup: Result<Option<ApiKeyRecord>, ()>) -> Result<ApiKeyRecord, (u16, Seq<char>, Seq<char>)> {
    match key_lookup_answer(org_id, lookup) {
        Ok(k) => if k.revoked {
            Err((409, "already_revoked"@, "server.api.api_key.already_revoked"@))
        } else {
            Ok(k)
        },
        Err(e) => Err(e),
    }
}

/// Whether an exec answer matches a spec one.
pub open spec fn answer_matches(r: Result<ApiKeyRecord, (u16, ApiKeyErrorResponse)>, s: Result<ApiKeyRecord, (u16, Seq<char>, Seq<char>)>) -> bool {
    match s {
        Ok(k) => r == Ok::<ApiKeyRecord, (u16, ApiKeyErrorResponse)>(k),
        Err((st, e, m)) => r matches Err(a) && key_error_is(a, st, e, m),
    }
}

/// Checks a key looked up for an organization (for its usage log or its
/// revocation).
pub fn check_key_for_org(org_id: u128, lookup: Result<Option<ApiKeyRecord>, ()>) -> (r: Result<ApiKeyRecord, (u16, ApiKeyErrorResponse)>)
    ensures
        answer_matches(r, key_lookup_answer(org_id, lookup)),
{
    match lookup {
        Err(_) => Err(key_error(500, "internal_error", "server.api.error.internal")),
        Ok(None) => Err(key_error(404, "not_found", "server.api.api_key.not_found")),
        Ok(Some(k)) => {
            if k.org_id != org_id {
                Err(key_error(404, "not_found", "server.api.api_key.not_found"))
            } else {
                Ok(k)
            }
        },
    }
}

/// Checks that a key may be revoked.
pub fn check_revocable(org_id: u128, lookup: Result<Option<ApiKeyRecord>, ()>) -> (r: Result<ApiKeyRecord, (u16, ApiKeyErrorResponse)>)
    ensures
        answer_matches(r, revocation_answer(org_id, lookup)),
{
    let k = check_key_for_org(org_id, lookup)?;
    if k.revoked {
        return Err(key_error(409, "already_revoked", "server.api.api_key.already_revoked"));
    }
    Ok(k)
}

/// The answer to a revocation once the store was asked: `Ok(true)` when it
/// revoked the key, `Ok(false)` when the key was revoked meanwhile, `Err`
/// when it failed.
pub fn revoke_outcome(outcome: Result<bool, ()>) -> (r: Result<ApiKeySuccessResponse, (u16, ApiKeyErrorResponse)>)
    ensures
        outcome == Ok::<bool, ()>(true) ==> (r matches Ok(b) && b.message@ == "server.api.api_key.revoked"@),
        outcome == Ok::<bool, ()>(false) ==> (r matches Err(a) && key_error_is(
            a,
            409,
            "already_revoked"@,
            "server.api.api_key.already_revoked"@,
        )),
        outcome is Err ==> (r matches Err(a) && key_error_is(a, 500, "internal_error"@, "server.api.api_key.revoke_failed"@)),
{
    match outcome {
        Ok(true) => Ok(ApiKeySuccessResponse { message: "server.api.api_key.revoked".to_string() }),
        Ok(false) => Err(key_error(409, "already_revoked", "server.api.api_key.already_revoked")),
        Err(_) => Err(key_error(500, "internal_error", "server.api.api_key.revoke_failed")),
    }
}

/// Revocation is permanent: once a key of the organization is revoked, every
/// later revocation of it is refused with 409 `already_revoked`, and a key
/// of another organization is answered 404 whether revoked or not.
pub proof fn lemma_revocation_is_permanent(org_id: u128, k: ApiKeyRecord)
    ensures
        k.org_id == org_id ==> revocation_answer(org_id, Ok(Some(revoked_record(k)))) == Err::<ApiKeyRecord, (u16, Seq<char>, Seq<char>)>(
            (409, "already_revoked"@, "server.api.api_key.already_revoked"@),
        ),
        k.org_id != org_id ==> revocation_answer(org_id, Ok(Some(revoked_record(k)))) == revocation_answer(org_id, Ok(Some(k))),
        k.org_id != org_id ==> revocation_answer(org_id, Ok(Some(k))) == Err::<ApiKeyRecord, (u16, Seq<char>, Seq<char>)>(
            (404, "not_found"@, "server.api.api_key.not_found"@),
        ),
{
}

} // verus!
