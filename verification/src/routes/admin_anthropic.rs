//! Administration of the pool of Anthropic OAuth accounts: who may use the
//! endpoints, how the pool is summed up, the authorization URL that starts
//! the OAuth flow, and where the browser is sent back to afterwards.

use vstd::prelude::*;
use vstd::string::StringExecFns;
use crate::num::{dec_of, dec_string};
use crate::routes::git::find_from;
use crate::text::{chars_of, contains, contains_seq};

verus! {

broadcast use vstd::string::group_string_axioms;

// ---------------------------------------------------------------------------
// Form URL encoding
// ---------------------------------------------------------------------------

/// Bytes that the `application/x-www-form-urlencoded` serializer writes
/// as they are: `*`, `-`, `.`, digits, letters and `_`.
pub open spec fn form_unchanged(b: u8) -> bool {
    b == 42 || b == 45 || b == 46 || (48 <= b <= 57) || (65 <= b <= 90) || b == 95 || (97 <= b <= 122)
}

/// The uppercase hex digit of `d < 16`.
pub open spec fn upper_hex(d: nat) -> char {
    if d < 10 {
        (48 + d) as char
    } else {
        (55 + d) as char
    }
}

/// How the serializer writes one byte: itself, `+` for a space, else `%`
/// and two uppercase hex digits.
pub open spec fn form_byte(b: u8) -> Seq<char> {
    if form_unchanged(b) {
        seq![b as char]
    } else if b == 32 {
        seq!['+']
    } else {
        seq!['%', upper_hex((b / 16) as nat), upper_hex((b % 16) as nat)]
    }
}

/// `bytes` form-urlencoded.
pub open spec fn form_encoded(bytes: Seq<u8>) -> Seq<char>
    decreases bytes.len(),
{
    if bytes.len() == 0 {
        Seq::empty()
    } else {
        form_encoded(bytes.drop_last()) + form_byte(bytes.last())
    }
}

/// `s` form-urlencoded, as a query component.
pub open spec fn url_encoded(s: Seq<char>) -> Seq<char> {
    form_encoded(vstd::utf8::encode_utf8(s))
}

/// Encodes text with `form_urlencoded::byte_serialize` over its UTF-8 bytes,
/// collecting the pieces: `*-._`, digits and ASCII letters stay, a space
/// becomes `+`, every other byte `%XX` with uppercase hex digits.
#[verifier::external_body]
fn url_encode(input: &str) -> (r: String)
    ensures
        r@ == url_encoded(input@),
{
    url::form_urlencoded::byte_serialize(input.as_bytes()).collect()
}

// ---------------------------------------------------------------------------
// Types
// ---------------------------------------------------------------------------

/// Health of one account of the pool.
#[derive(Debug, Clone, Copy, PartialEq, Eq, Structural)]
pub enum AccountStatus {
    Available,
    CoolingDown,
    Disabled,
}

/// How many accounts of the pool are in each state.
#[derive(Debug)]
pub struct AccountsSummary {
    pub total: usize,
    pub available: usize,
    pub cooling_down: usize,
    pub disabled: usize,
}

/// Request to add an account.
#[derive(Debug)]
pub struct InitiateOAuthRequest {
    /// Where to send the browser once the account is added.
    pub redirect_after: Option<String>,
}

/// Where the browser goes to authorize a new account.
#[derive(Debug)]
pub struct InitiateOAuthResponse {
    pub redirect_url: String,
}

/// Answer to the removal of an account.
#[derive(Debug)]
pub struct RemoveAccountResponse {
    pub removed: String,
}

/// Query of the OAuth callback.
#[derive(Debug)]
pub struct OAuthCallbackQuery {
    pub code: String,
    pub state: String,
}

/// Error body of the administration endpoints.
#[derive(Debug)]
pub struct AdminErrorResponse {
    pub error: String,
    pub message: String,
}

/// An error answer with its status.
pub open spec fn admin_error_is(r: (u16, AdminErrorResponse), status: u16, error: Seq<char>, message: Seq<char>) -> bool {
    r.0 == status && r.1.error@ == error && r.1.message@ == message
}

fn admin_error(status: u16, error: &str, message: String) -> (r: (u16, AdminErrorResponse))
    ensures
        admin_error_is(r, status, error@, message@),
{
    (status, AdminErrorResponse { error: error.to_string(), message })
}

// ---------------------------------------------------------------------------
// Access
// ---------------------------------------------------------------------------

/// Who may manage the pool: a system administrator, on a server whose LLM
/// service is configured (`pool` is `Some`) with Anthropic in OAuth pool
/// mode (`pool == Some(true)`).
pub fn admin_gate(is_system_admin: bool, pool: Option<bool>) -> (r: Result<(), (u16, AdminErrorResponse)>)
    ensures
        r is Ok <==> (is_system_admin && pool == Some(true)),
        !is_system_admin ==> (r matches Err(a) && admin_error_is(a, 403, "forbidden"@, "server.api.admin.system_admin_required"@)),
        is_system_admin && pool is None ==> (r matches Err(a) && admin_error_is(a, 501, "not_implemented"@, "LLM service not configured"@)),
        is_system_admin && pool == Some(false) ==> (r matches Err(a) && admin_error_is(
            a,
            501,
            "not_implemented"@,
            "Anthropic is not configured in OAuth pool mode"@,
        )),
{
    if !is_system_admin {
        return Err(admin_error(403, "forbidden", "server.api.admin.system_admin_required".to_string()));
    }
    match pool {
        None => Err(admin_error(501, "not_implemented", "LLM service not configured".to_string())),
        Some(false) => Err(
            admin_error(501, "not_implemented", "Anthropic is not configured in OAuth pool mode".to_string()),
        ),
        Some(true) => Ok(()),
    }
}

// ---------------------------------------------------------------------------
// Summary
// ---------------------------------------------------------------------------

/// Number of accounts in state `st`.
pub open spec fn count_status(s: Seq<AccountStatus>, st: AccountStatus) -> nat
    decreases s.len(),
{
    if s.len() == 0 {
        0
    } else {
        count_status(s.drop_last(), st) + if s.last() == st { 1nat } else { 0nat }
    }
}

/// Every account is in exactly one state, so the three counts add up to
/// the number of accounts.
pub proof fn lemma_status_counts_add_up(s: Seq<AccountStatus>)
    ensures
        count_status(s, AccountStatus::Available) + count_status(s, AccountStatus::CoolingDown) + count_status(
            s,
            AccountStatus::Disabled,
        ) == s.len(),
    decreases s.len(),
{
    if s.len() > 0 {
        lemma_status_counts_add_up(s.drop_last());
    }
}

/// Sums up the states of the pool's accounts.
pub fn accounts_summary(statuses: &Vec<AccountStatus>) -> (r: AccountsSummary)
    ensures
        r.total == statuses.len(),
        r.available == count_status(statuses@, AccountStatus::Available),
        r.cooling_down == count_status(statuses@, AccountStatus::CoolingDown),
        r.disabled == count_status(statuses@, AccountStatus::Disabled),
{
    let mut available: usize = 0;
    let mut cooling_down: usize = 0;
    let mut disabled: usize = 0;
    let mut i: usize = 0;
    while i < statuses.len()
        invariant
            i <= statuses.len(),
            available == count_status(statuses@.subrange(0, i as int), AccountStatus::Available),
            cooling_down == count_status(statuses@.subrange(0, i as int), AccountStatus::CoolingDown),
            disabled == count_status(statuses@.subrange(0, i as int), AccountStatus::Disabled),
        decreases statuses.len() - i,
    {
        proof {
            assert(statuses@.subrange(0, i + 1).drop_last() == statuses@.subrange(0, i as int));
            lemma_status_counts_add_up(statuses@.subrange(0, i as int));
        }
        match statuses[i] {
            AccountStatus::Available => available = available + 1,
            AccountStatus::CoolingDown => cooling_down = cooling_down + 1,
            AccountStatus::Disabled => disabled = disabled + 1,
        }
        i = i + 1;
    }
    assert(statuses@.subrange(0, i as int) == statuses@);
    AccountsSummary { total: statuses.len(), available, cooling_down, disabled }
}

/// One account of the pool as the listing shows it.
#[derive(Debug)]
pub struct AccountDetailsResponse {
    pub id: String,
    pub status: AccountStatus,
    pub cooldown_remaining_secs: Option<u64>,
    pub last_error: Option<String>,
    /// When the account's token expires, in seconds since the Unix epoch.
    pub expires_at: Option<i64>,
}

/// The listing of the pool: its accounts, and how many are in each state.
#[derive(Debug)]
pub struct AnthropicAccountsResponse {
    pub accounts: Vec<AccountDetailsResponse>,
    pub summary: AccountsSummary,
}

/// The states of the listed accounts, in order.
pub open spec fn statuses_of(accounts: Seq<AccountDetailsResponse>) -> Seq<AccountStatus> {
    accounts.map_values(|a: AccountDetailsResponse| a.status)
}

/// Lists the pool's accounts as they are, with their summary.
pub fn accounts_response(accounts: Vec<AccountDetailsResponse>) -> (r: AnthropicAccountsResponse)
    ensures
        r.accounts@ == accounts@,
        r.summary.total == accounts.len(),
        r.summary.available == count_status(statuses_of(accounts@), AccountStatus::Available),
        r.summary.cooling_down == count_status(statuses_of(accounts@), AccountStatus::CoolingDown),
        r.summary.disabled == count_status(statuses_of(accounts@), AccountStatus::Disabled),
{
    let mut statuses: Vec<AccountStatus> = Vec::new();
    let mut i: usize = 0;
    while i < accounts.len()
        invariant
            i <= accounts.len(),
            statuses@ == statuses_of(accounts@).subrange(0, i as int),
        decreases accounts.len() - i,
    {
        statuses.push(accounts[i].status);
        i = i + 1;
    }
    assert(statuses@ == statuses_of(accounts@));
    let summary = accounts_summary(&statuses);
    AnthropicAccountsResponse { accounts, summary }
}

// ---------------------------------------------------------------------------
// The OAuth flow
// ---------------------------------------------------------------------------

/// Where the authorization server sends the browser back to.
pub fn callback_uri(base_url: &str) -> (r: String)
    ensures
        r@ == base_url@ + "/api/admin/anthropic/callback"@,
{
    base_url.to_string().concat("/api/admin/anthropic/callback")
}

/// What `url::Url::parse` reads in `s`: the serialization of the URL
/// (`Url::as_str`), `None` when `s` is no URL.
pub uninterp spec fn url_parsed(s: Seq<char>) -> Option<Seq<char>>;

/// Name/value pairs in `application/x-www-form-urlencoded` form: each pair
/// as its encoded name, `=` and its encoded value, joined by `&`.
pub open spec fn form_pairs(pairs: Seq<(Seq<char>, Seq<char>)>) -> Seq<char>
    decreases pairs.len(),
{
    if pairs.len() == 0 {
        seq![]
    } else {
        let rest = form_pairs(pairs.drop_last());
        let sep = if pairs.len() > 1 {
            "&"@
        } else {
            ""@
        };
        rest + sep + url_encoded(pairs.last().0) + "="@ + url_encoded(pairs.last().1)
    }
}

/// The views of a list of string pairs.
pub open spec fn pair_views(v: Seq<(String, String)>) -> Seq<(Seq<char>, Seq<char>)> {
    v.map_values(|p: (String, String)| (p.0@, p.1@))
}

/// The URL text `b` with `pairs` appended to its query: the fragment (from
/// the first `#`) is taken off and put back at the end; the pairs come after
/// a `?` when `b` has no query, after a `&` when its query is not empty, and
/// directly after the `?` of an empty query.
pub open spec fn with_query_pairs(b: Seq<char>, pairs: Seq<(Seq<char>, Seq<char>)>) -> Seq<char> {
    let h = find_from(b, '#', 0);
    let head = b.take(h);
    let q = find_from(head, '?', 0);
    let lead = if q == head.len() {
        "?"@
    } else if q < head.len() - 1 && pairs.len() > 0 {
        "&"@
    } else {
        ""@
    };
    head + lead + form_pairs(pairs) + b.skip(h)
}

/// The URL text (`Url::as_str`) of what `url::Url::parse` reads in `s`;
/// `None` when `s` is no URL.
#[verifier::external_body]
fn url_text(s: &str) -> (r: Option<String>)
    ensures
        r is Some <==> url_parsed(s@) is Some,
        r matches Some(t) ==> t@ == url_parsed(s@)->0,
{
    match url::Url::parse(s) {
        Ok(u) => Some(u.as_str().to_string()),
        Err(_) => None,
    }
}

/// Parses `base` with `url::Url::parse`, appends the pairs to its query with
/// `query_pairs_mut().extend_pairs` and gives the URL as text; `None` when
/// `base` is no URL. The crate takes the fragment off, writes the pairs and
/// puts the fragment back, which needs the text's length to fit in a `u32`
/// (the URL text is ASCII, so its bytes are at most four per character).
#[verifier::external_body]
fn url_with_pairs(base: &str, pairs: &Vec<(String, String)>) -> (r: Option<String>)
    requires
        url_parsed(base@) matches Some(b) ==> 4 * b.len() + form_pairs(pair_views(pairs@)).len() + 2 <= u32::MAX,
    ensures
        r is Some <==> url_parsed(base@) is Some,
        r matches Some(u) ==> u@ == with_query_pairs(url_parsed(base@)->0, pair_views(pairs@)),
{
    match url::Url::parse(base) {
        Ok(mut u) => {
            u.query_pairs_mut().extend_pairs(pairs.iter());
            Some(u.to_string())
        },
        Err(_) => None,
    }
}

/// The pairs in `application/x-www-form-urlencoded` form, each name and
/// value encoded with `byte_serialize`.
fn form_pairs_text(pairs: &Vec<(String, String)>) -> (r: String)
    ensures
        r@ == form_pairs(pair_views(pairs@)),
{
    let ghost pv = pair_views(pairs@);
    let mut out = String::new();
    let mut i: usize = 0;
    while i < pairs.len()
        invariant
            i <= pairs.len(),
            pv == pair_views(pairs@),
            out@ == form_pairs(pv.take(i as int)),
        decreases pairs.len() - i,
    {
        assert(pv.take(i + 1).drop_last() =~= pv.take(i as int));
        assert(pv[i as int] == (pairs@[i as int].0@, pairs@[i as int].1@));
        let ghost before = out@;
        if i > 0 {
            out = out.concat("&");
        }
        let ghost sep = if i + 1 > 1 { "&"@ } else { ""@ };
        proof {
            reveal_strlit("");
        }
        assert(out@ =~= before + sep);
        let k = url_encode(pairs[i].0.as_str());
        let v = url_encode(pairs[i].1.as_str());
        assert(k@ == url_encoded(pv[i as int].0));
        assert(v@ == url_encoded(pv[i as int].1));
        out = out.concat(k.as_str()).concat("=").concat(v.as_str());
        proof {
            assert(form_pairs(pv.take(i + 1)) == form_pairs(pv.take(i as int)) + sep + url_encoded(pv[i as int].0)
                + "="@ + url_encoded(pv[i as int].1));
            assert(out@ =~= before + sep + url_encoded(pv[i as int].0) + "="@ + url_encoded(pv[i as int].1));
        }
        i = i + 1;
    }
    assert(pv.take(i as int) =~= pv);
    out
}

/// The query pairs of the authorization URL, in order: the client, the
/// callback, the scopes, the PKCE challenge (method S256) and the state.
pub open spec fn authorize_pairs(
    client_id: Seq<char>,
    redirect_uri: Seq<char>,
    scopes: Seq<char>,
    challenge: Seq<char>,
    state: Seq<char>,
) -> Seq<(Seq<char>, Seq<char>)> {
    seq![
        ("code"@, "true"@),
        ("client_id"@, client_id),
        ("response_type"@, "code"@),
        ("redirect_uri"@, redirect_uri),
        ("scope"@, scopes),
        ("code_challenge"@, challenge),
        ("code_challenge_method"@, "S256"@),
        ("state"@, state),
    ]
}

/// Builds the authorization URL that starts the flow for a new account: the
/// provider's endpoint, parsed as a URL, with the authorization pairs
/// appended to its query. `None` when the endpoint is no URL, or when the
/// URL would be too long for the crate to hold (over `u32::MAX` bytes).
pub fn authorize_url(endpoint: &str, client_id: &str, redirect_uri: &str, scopes: &str, challenge: &str, state: &str) -> (r: Option<String>)
    ensures
        r is Some <==> (url_parsed(endpoint@) matches Some(b) && 4 * b.len() + form_pairs(
            authorize_pairs(client_id@, redirect_uri@, scopes@, challenge@, state@),
        ).len() + 2 <= u32::MAX),
        r matches Some(u) ==> u@ == with_query_pairs(
            url_parsed(endpoint@)->0,
            authorize_pairs(client_id@, redirect_uri@, scopes@, challenge@, state@),
        ),
{
    let mut pairs: Vec<(String, String)> = Vec::new();
    pairs.push(("code".to_string(), "true".to_string()));
    pairs.push(("client_id".to_string(), client_id.to_string()));
    pairs.push(("response_type".to_string(), "code".to_string()));
    pairs.push(("redirect_uri".to_string(), redirect_uri.to_string()));
    pairs.push(("scope".to_string(), scopes.to_string()));
    pairs.push(("code_challenge".to_string(), challenge.to_string()));
    pairs.push(("code_challenge_method".to_string(), "S256".to_string()));
    pairs.push(("state".to_string(), state.to_string()));
    assert(pair_views(pairs@) =~= authorize_pairs(client_id@, redirect_uri@, scopes@, challenge@, state@));
    let base = match url_text(endpoint) {
        Some(t) => t,
        None => return None,
    };
    let query = form_pairs_text(&pairs);
    let b_len = chars_of(base.as_str()).len() as u64;
    let q_len = chars_of(query.as_str()).len() as u64;
    let limit: u64 = 0xffff_ffff;
    if q_len > limit - 2 || b_len > (limit - 2 - q_len) / 4 {
        return None;
    }
    url_with_pairs(endpoint, &pairs)
}

/// Where a failed callback sends the browser, with the reason.
pub fn error_redirect(reason: &str) -> (r: String)
    ensures
        r@ == "/admin/anthropic-accounts?error="@ + url_encoded(reason@),
{
    let e = url_encode(reason);
    "/admin/anthropic-accounts?error=".to_string().concat(e.as_str())
}

/// `n` in decimal, with a minus sign when negative.
pub open spec fn signed_dec(n: int) -> Seq<char> {
    if n >= 0 {
        dec_of(n as nat)
    } else {
        "-"@ + dec_of((-n) as nat)
    }
}

/// The id of an account added at Unix time `timestamp` (seconds): the
/// pool's account prefix, a hyphen and the time.
pub fn account_id_for(prefix: &str, timestamp: i64) -> (r: String)
    ensures
        r@ == prefix@ + "-"@ + signed_dec(timestamp as int),
{
    if timestamp >= 0 {
        let d = dec_string(timestamp as u64);
        prefix.to_string().concat("-").concat(d.as_str())
    } else {
        let m: u64 = ((-(timestamp + 1)) as u64) + 1;
        let d = dec_string(m);
        prefix.to_string().concat("-").concat("-").concat(d.as_str())
    }
}

/// The page the browser returns to after an account was added: the one the
/// flow was started with (else the accounts page), with the new account's
/// id added to its query.
pub open spec fn added_redirect_of(redirect_after: Option<Seq<char>>, account_id: Seq<char>) -> Seq<char> {
    let path = match redirect_after {
        Some(p) => p,
        None => "/admin/anthropic-accounts"@,
    };
    if path.contains('?') {
        path + "&added="@ + url_encoded(account_id)
    } else {
        path + "?added="@ + url_encoded(account_id)
    }
}

/// Builds the page to return to after an account was added.
pub fn added_redirect(redirect_after: Option<String>, account_id: &str) -> (r: String)
    ensures
        r@ == added_redirect_of(
            match redirect_after {
                Some(p) => Some(p@),
                None => None,
            },
            account_id@,
        ),
{
    let path = match redirect_after {
        Some(p) => p,
        None => "/admin/anthropic-accounts".to_string(),
    };
    let enc = url_encode(account_id);
    let has_query = contains(path.as_str(), "?");
    proof {
        reveal_strlit("?");
        if path@.contains('?') {
            let i = choose|i: int| 0 <= i < path@.len() && path@[i] == '?';
            assert(path@.subrange(i, i + 1) =~= "?"@);
            assert(crate::text::occurs_at(path@, "?"@, i));
        }
        if contains_seq(path@, "?"@) {
            let i = choose|i: int| crate::text::occurs_at(path@, "?"@, i);
            assert(path@.subrange(i, i + 1)[0] == path@[i]);
            assert(path@[i] == '?');
        }
    }
    if has_query {
        path.concat("&added=").concat(enc.as_str())
    } else {
        path.concat("?added=").concat(enc.as_str())
    }
}

/// The answer when the pool could not remove an account: 404 when its
/// message says the account was not found, else 500.
pub fn remove_failure(error_message: &str, id: &str) -> (r: (u16, AdminErrorResponse))
    ensures
        contains_seq(error_message@, "not found"@) ==> admin_error_is(
            r,
            404,
            "not_found"@,
            "Account '"@ + id@ + "' not found"@,
        ),
        !contains_seq(error_message@, "not found"@) ==> admin_error_is(r, 500, "internal_error"@, "server.api.error.internal"@),
{
    if contains(error_message, "not found") {
        admin_error(404, "not_found", "Account '".to_string().concat(id).concat("' not found"))
    } else {
        admin_error(500, "internal_error", "server.api.error.internal".to_string())
    }
}

} // verus!
