//! Webhook endpoints: what a webhook request must hold, and who may manage
//! a repository's or an organization's webhooks.

use vstd::prelude::*;
use vstd::string::StringExecFns;
use crate::access::OrgRole;
use crate::text::{has_prefix, starts_with};

verus! {

broadcast use vstd::string::group_string_axioms;

/// The payload format a webhook is delivered in.
#[derive(Debug, Clone, Copy, PartialEq, Eq, Structural)]
pub enum PayloadFormatApi {
    GitHubCompat,
    LoomV1,
}

impl Default for PayloadFormatApi {
    /// Webhooks use Loom's own format unless they ask otherwise.
    fn default() -> (r: PayloadFormatApi)
        ensures
            r == PayloadFormatApi::LoomV1,
    {
        PayloadFormatApi::LoomV1
    }
}

/// Request to create a webhook.
#[derive(Debug)]
pub struct CreateWebhookRequest {
    pub url: String,
    pub secret: String,
    pub payload_format: PayloadFormatApi,
    pub events: Vec<String>,
}

/// Success body of the webhook endpoints.
#[derive(Debug)]
pub struct WebhookSuccessResponse {
    pub message: String,
}

/// Error body of the webhook endpoints.
#[derive(Debug)]
pub struct WebhookErrorResponse {
    pub error: String,
    pub message: String,
}

/// An error answer with its status.
pub open spec fn answer_is(r: (u16, WebhookErrorResponse), status: u16, error: Seq<char>, message: Seq<char>) -> bool {
    r.0 == status && r.1.error@ == error && r.1.message@ == message
}

fn answer(status: u16, error: &str, message: String) -> (r: (u16, WebhookErrorResponse))
    ensures
        answer_is(r, status, error@, message@),
{
    (status, WebhookErrorResponse { error: error.to_string(), message })
}

/// The events a webhook may subscribe to.
pub open spec fn is_valid_event(e: Seq<char>) -> bool {
    e == "push"@ || e == "repo.created"@ || e == "repo.deleted"@
}

/// Why a list of events is refused, if it is: it is empty, or the first
/// event that is not a known one.
pub open spec fn events_error(events: Seq<Seq<char>>) -> Option<Seq<char>> {
    if events.len() == 0 {
        Some("At least one event is required"@)
    } else if exists|i: int| 0 <= i < events.len() && !is_valid_event(events[i]) {
        let i = choose|i: int| 0 <= i < events.len() && !is_valid_event(events[i]) && forall|j: int|
            0 <= j < i ==> is_valid_event(events[j]);
        Some("Invalid event '"@ + events[i] + "'. Valid events: push, repo.created, repo.deleted"@)
    } else {
        None
    }
}

/// The events that the refusal message lists as valid.
pub open spec fn listed_event(e: Seq<char>) -> bool {
    e =~= seq!['p', 'u', 's', 'h'] || e =~= seq!['r', 'e', 'p', 'o', '.', 'c', 'r', 'e', 'a', 't', 'e', 'd']
        || e =~= seq!['r', 'e', 'p', 'o', '.', 'd', 'e', 'l', 'e', 't', 'e', 'd']
}

/// A webhook accepts exactly the events its refusal message lists: a
/// non-empty list of `push`, `repo.created` and `repo.deleted` events, in
/// any order and with repeats, is accepted; a list with any other event, or
/// an empty list, is refused.
pub proof fn lemma_listed_events_are_accepted(events: Seq<Seq<char>>)
    ensures
        events.len() > 0 && (forall|i: int| 0 <= i < events.len() ==> listed_event(#[trigger] events[i]))
            ==> events_error(events) is None,
        (exists|i: int| 0 <= i < events.len() && !listed_event(#[trigger] events[i])) ==> events_error(events) is Some,
        events.len() == 0 ==> events_error(events) is Some,
{
    reveal_strlit("push");
    reveal_strlit("repo.created");
    reveal_strlit("repo.deleted");
    assert forall|e: Seq<char>| is_valid_event(e) <==> listed_event(e) by {
        if listed_event(e) {
            if e =~= seq!['p', 'u', 's', 'h'] {
                assert(e == "push"@);
            } else if e =~= seq!['r', 'e', 'p', 'o', '.', 'c', 'r', 'e', 'a', 't', 'e', 'd'] {
                assert(e == "repo.created"@);
            } else {
                assert(e == "repo.deleted"@);
            }
        }
        if e == "push"@ {
            assert(e =~= seq!['p', 'u', 's', 'h']);
        }
        if e == "repo.created"@ {
            assert(e =~= seq!['r', 'e', 'p', 'o', '.', 'c', 'r', 'e', 'a', 't', 'e', 'd']);
        }
        if e == "repo.deleted"@ {
            assert(e =~= seq!['r', 'e', 'p', 'o', '.', 'd', 'e', 'l', 'e', 't', 'e', 'd']);
        }
    }
    if exists|i: int| 0 <= i < events.len() && !listed_event(#[trigger] events[i]) {
        let i = choose|i: int| 0 <= i < events.len() && !listed_event(#[trigger] events[i]);
        assert(!is_valid_event(events[i]));
    }
}

/// Checks the events of a webhook request.
pub fn validate_events(events: &Vec<String>) -> (r: Option<String>)
    ensures
        match events_error(crate::text::string_views(events@)) {
            Some(m) => r matches Some(s) && s@ == m,
            None => r is None,
        },
{
    let ghost ev = crate::text::string_views(events@);
    if events.len() == 0 {
        return Some("At least one event is required".to_string());
    }
    let mut i: usize = 0;
    while i < events.len()
        invariant
            i <= events.len(),
            ev == crate::text::string_views(events@),
            forall|j: int| 0 <= j < i ==> is_valid_event(ev[j]),
        decreases events.len() - i,
    {
        let e = events[i].as_str();
        let ok = crate::text::str_eq(e, "push") || crate::text::str_eq(e, "repo.created") || crate::text::str_eq(
            e,
            "repo.deleted",
        );
        if !ok {
            proof {
                assert(!is_valid_event(ev[i as int]));
                let k = choose|k: int| 0 <= k < ev.len() && !is_valid_event(ev[k]) && forall|j: int|
                    0 <= j < k ==> is_valid_event(ev[j]);
                assert(k == i) by {
                    if k < i {
                        assert(is_valid_event(ev[k]));
                    }
                    if k > i {
                        assert(is_valid_event(ev[i as int]));
                    }
                }
            }
            return Some(
                "Invalid event '".to_string().concat(e).concat("'. Valid events: push, repo.created, repo.deleted"),
            );
        }
        i = i + 1;
    }
    None
}

/// Why a webhook URL is refused, if it is: it is empty, it is not an http
/// or https URL, or it is longer than 2048 bytes.
pub open spec fn url_error(url: Seq<char>) -> Option<Seq<char>> {
    if url.len() == 0 {
        Some("URL is required"@)
    } else if !has_prefix(url, "https://"@) && !has_prefix(url, "http://"@) {
        Some("URL must start with http:// or https://"@)
    } else if vstd::utf8::encode_utf8(url).len() > 2048 {
        Some("URL must be less than 2048 characters"@)
    } else {
        None
    }
}

/// Checks the URL of a webhook request.
pub fn validate_url(url: &str) -> (r: Option<String>)
    ensures
        match url_error(url@) {
            Some(m) => r matches Some(s) && s@ == m,
            None => r is None,
        },
{
    if url.is_empty() {
        return Some("URL is required".to_string());
    }
    if !starts_with(url, "https://") && !starts_with(url, "http://") {
        return Some("URL must start with http:// or https://".to_string());
    }
    let n = url.as_bytes().len();
    if n > 2048 {
        return Some("URL must be less than 2048 characters".to_string());
    }
    None
}

/// Checks a webhook creation request: its URL, then its events, then that a
/// secret is given. `None` when it may be created.
pub fn validate_webhook_request(req: &CreateWebhookRequest) -> (r: Option<(u16, WebhookErrorResponse)>)
    ensures
        match url_error(req.url@) {
            Some(m) => r matches Some(a) && answer_is(a, 400, "invalid_url"@, m),
            None => match events_error(crate::text::string_views(req.events@)) {
                Some(m) => r matches Some(a) && answer_is(a, 400, "invalid_events"@, m),
                None => if req.secret@.len() == 0 {
                    r matches Some(a) && answer_is(a, 400, "invalid_secret"@, "Secret is required"@)
                } else {
                    r is None
                },
            },
        },
{
    if let Some(m) = validate_url(req.url.as_str()) {
        return Some(answer(400, "invalid_url", m));
    }
    if let Some(m) = validate_events(&req.events) {
        return Some(answer(400, "invalid_events", m));
    }
    if req.secret.as_str().is_empty() {
        return Some(answer(400, "invalid_secret", "Secret is required".to_string()));
    }
    None
}

/// What looking a repository up gave.
#[derive(Debug, Clone, Copy, PartialEq, Eq, Structural)]
pub enum RepoLookup {
    /// No repository store is configured.
    NotConfigured,
    /// The lookup failed.
    Failed,
    /// There is no such repository.
    NotFound,
    /// The repository exists.
    Found,
}

/// The answer to a request that needs repository admin rights, `Ok` when it
/// may go on. `is_admin` is whether the user administers the repository (see
/// `crate::access::is_repo_admin`); it matters only for a found repository.
pub fn check_repo_admin(lookup: RepoLookup, is_admin: bool) -> (r: Result<(), (u16, WebhookErrorResponse)>)
    ensures
        lookup == RepoLookup::NotConfigured ==> (r matches Err(a) && answer_is(a, 500, "not_configured"@, "SCM not configured"@)),
        lookup == RepoLookup::Failed ==> (r matches Err(a) && answer_is(a, 500, "internal_error"@, "Internal server error"@)),
        lookup == RepoLookup::NotFound ==> (r matches Err(a) && answer_is(a, 404, "not_found"@, "Repository not found"@)),
        lookup == RepoLookup::Found ==> (r is Ok <==> is_admin),
        lookup == RepoLookup::Found && !is_admin ==> (r matches Err(a) && answer_is(a, 403, "forbidden"@, "Admin access required"@)),
{
    match lookup {
        RepoLookup::NotConfigured => Err(answer(500, "not_configured", "SCM not configured".to_string())),
        RepoLookup::Failed => Err(answer(500, "internal_error", "Internal server error".to_string())),
        RepoLookup::NotFound => Err(answer(404, "not_found", "Repository not found".to_string())),
        RepoLookup::Found => {
            if is_admin {
                Ok(())
            } else {
                Err(answer(403, "forbidden", "Admin access required".to_string()))
            }
        },
    }
}

/// The answer to a request that needs organization admin rights, `Ok` when
/// it may go on. `org` is the outcome of looking the organization up
/// (`Err` when the lookup failed, `Ok(false)` when it does not exist);
/// `membership` that of reading the user's membership, read only for an
/// existing organization.
pub fn check_org_admin(org: Result<bool, ()>, membership: Result<Option<OrgRole>, ()>) -> (r: Result<(), (u16, WebhookErrorResponse)>)
    ensures
        org is Err ==> (r matches Err(a) && answer_is(a, 500, "internal_error"@, "Internal server error"@)),
        org == Ok::<bool, ()>(false) ==> (r matches Err(a) && answer_is(a, 404, "not_found"@, "Organization not found"@)),
        org == Ok::<bool, ()>(true) ==> match membership {
            Err(_) => r matches Err(a) && answer_is(a, 500, "internal_error"@, "Internal server error"@),
            Ok(m) => if m matches Some(role) && crate::access::is_admin_role(role) {
                r is Ok
            } else {
                r matches Err(a) && answer_is(a, 403, "forbidden"@, "Admin access required"@)
            },
        },
{
    match org {
        Err(_) => Err(answer(500, "internal_error", "Internal server error".to_string())),
        Ok(false) => Err(answer(404, "not_found", "Organization not found".to_string())),
        Ok(true) => match membership {
            Err(_) => Err(answer(500, "internal_error", "Internal server error".to_string())),
            Ok(m) => {
                if crate::access::is_org_admin(m) {
                    Ok(())
                } else {
                    Err(answer(403, "forbidden", "Admin access required".to_string()))
                }
            },
        },
    }
}

/// Whether a webhook belongs to a repository or to an organization.
#[derive(Debug, Clone, Copy, PartialEq, Eq, Structural)]
pub enum WebhookOwnerType {
    Repo,
    Org,
}

/// Checks a webhook to delete, given what looking it up gave (its owner, or
/// `None` when there is no such webhook): a webhook of another owner is
/// answered as missing.
pub fn check_webhook_owner(lookup: Result<Option<(WebhookOwnerType, u128)>, ()>, owner_type: WebhookOwnerType, owner_id: u128) -> (r: Result<(), (u16, WebhookErrorResponse)>)
    ensures
        r is Ok <==> lookup == Ok::<Option<(WebhookOwnerType, u128)>, ()>(Some((owner_type, owner_id))),
        lookup is Err ==> (r matches Err(a) && answer_is(a, 500, "internal_error"@, "Internal server error"@)),
        lookup matches Ok(o) && o != Some((owner_type, owner_id)) ==> (r matches Err(a) && answer_is(
            a,
            404,
            "not_found"@,
            "Webhook not found"@,
        )),
{
    match lookup {
        Err(_) => Err(answer(500, "internal_error", "Internal server error".to_string())),
        Ok(None) => Err(answer(404, "not_found", "Webhook not found".to_string())),
        Ok(Some((t, id))) => {
            if t != owner_type || id != owner_id {
                Err(answer(404, "not_found", "Webhook not found".to_string()))
            } else {
                Ok(())
            }
        },
    }
}

/// How the store failed a webhook operation.
#[derive(Debug, Clone, Copy, PartialEq, Eq, Structural)]
pub enum WebhookStoreFailure {
    /// The webhook was not there.
    NotFound,
    /// Anything else.
    Other,
}

/// The answer to a deletion: 204 when done, 404 when the webhook vanished,
/// 500 otherwise.
pub fn delete_outcome(outcome: Result<(), WebhookStoreFailure>) -> (r: Result<u16, (u16, WebhookErrorResponse)>)
    ensures
        outcome is Ok ==> r == Ok::<u16, (u16, WebhookErrorResponse)>(204),
        outcome == Err::<(), WebhookStoreFailure>(WebhookStoreFailure::NotFound) ==> (r matches Err(a) && answer_is(
            a,
            404,
            "not_found"@,
            "Webhook not found"@,
        )),
        outcome == Err::<(), WebhookStoreFailure>(WebhookStoreFailure::Other) ==> (r matches Err(a) && answer_is(
            a,
            500,
            "internal_error"@,
            "Failed to delete webhook"@,
        )),
{
    match outcome {
        Ok(()) => Ok(204),
        Err(WebhookStoreFailure::NotFound) => Err(answer(404, "not_found", "Webhook not found".to_string())),
        Err(WebhookStoreFailure::Other) => Err(answer(500, "internal_error", "Failed to delete webhook".to_string())),
    }
}

/// The answer when no webhook store is configured.
pub fn webhooks_not_configured() -> (r: (u16, WebhookErrorResponse))
    ensures
        answer_is(r, 500, "not_configured"@, "SCM not configured"@),
{
    answer(500, "not_configured", "SCM not configured".to_string())
}

} // verus!
