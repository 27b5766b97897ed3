//! Feature flag endpoints: which flag a key resolves to when an organization
//! and the platform both define it (the platform's wins), the order in which
//! kill switches are consulted, and how SDK keys on the flag stream are
//! checked.

use vstd::prelude::*;
use vstd::string::StringExecFns;
use crate::text::{chars_of, lemma_str_lt_total, lemma_str_lt_transitive, str_less, str_lt, string_from_chars};

verus! {

broadcast use vstd::string::group_string_axioms;

/// Query of the flag stream.
#[derive(Debug)]
pub struct StreamFlagsParams {
    /// Environment name to subscribe to (e.g. "prod", "staging").
    pub environment: String,
}

/// Error body of the flag endpoints.
#[derive(Debug)]
pub struct FlagsErrorResponse {
    pub error: String,
    pub message: String,
}

/// An error answer with its status.
pub open spec fn flags_error_is(r: (u16, FlagsErrorResponse), status: u16, error: Seq<char>, message: Seq<char>) -> bool {
    r.0 == status && r.1.error@ == error && r.1.message@ == message
}

fn flags_error(status: u16, error: &str, message: &str) -> (r: (u16, FlagsErrorResponse))
    ensures
        flags_error_is(r, status, error@, message@),
{
    (status, FlagsErrorResponse { error: error.to_string(), message: message.to_string() })
}

// ---------------------------------------------------------------------------
// Which flag a key resolves to
// ---------------------------------------------------------------------------

/// Whether a flag is the organization's own or the platform's.
#[derive(Debug, Clone, Copy, PartialEq, Eq, Structural)]
pub enum FlagOrigin {
    Org,
    Platform,
}

/// A flag, by its list and its position there.
#[derive(Debug, Clone, Copy, PartialEq, Eq, Structural)]
pub struct FlagRef {
    pub origin: FlagOrigin,
    pub index: usize,
}

/// The last position of `k` in `keys`, `-1` when it does not occur.
pub open spec fn last_index(keys: Seq<Seq<char>>, k: Seq<char>) -> int
    decreases keys.len(),
{
    if keys.len() == 0 {
        -1
    } else if keys.last() == k {
        keys.len() - 1
    } else {
        last_index(keys.drop_last(), k)
    }
}

/// The flag a key resolves to: the platform's flag with that key when there
/// is one, else the organization's; of several with the key, the last.
pub open spec fn resolved_flag(org: Seq<Seq<char>>, platform: Seq<Seq<char>>, k: Seq<char>) -> FlagRef {
    if last_index(platform, k) >= 0 {
        FlagRef { origin: FlagOrigin::Platform, index: last_index(platform, k) as usize }
    } else {
        FlagRef { origin: FlagOrigin::Org, index: last_index(org, k) as usize }
    }
}

proof fn lemma_last_index(keys: Seq<Seq<char>>, k: Seq<char>)
    ensures
        -1 <= last_index(keys, k) < keys.len(),
        last_index(keys, k) >= 0 ==> keys[last_index(keys, k)] == k,
        last_index(keys, k) < 0 <==> !keys.contains(k),
    decreases keys.len(),
{
    if keys.len() > 0 {
        lemma_last_index(keys.drop_last(), k);
        if keys.last() != k && keys.contains(k) {
            let i = choose|i: int| 0 <= i < keys.len() && keys[i] == k;
            assert(keys.drop_last()[i] == k);
        }
        if keys.last() == k {
            assert(keys[keys.len() - 1] == k);
        }
    }
}

/// The keys of a list of strings.
pub open spec fn key_views(v: Seq<String>) -> Seq<Seq<char>> {
    v.map_values(|s: String| s@)
}

/// The table of flags: one entry per key, no key twice.
pub open spec fn table_ok(t: Seq<(String, FlagRef)>, org: Seq<Seq<char>>, platform: Seq<Seq<char>>) -> bool {
    &&& forall|i: int, j: int| 0 <= i < j < t.len() ==> t[i].0@ != t[j].0@
    &&& forall|i: int| 0 <= i < t.len() ==> (org.contains(#[trigger] t[i].0@) || platform.contains(t[i].0@))
    &&& forall|i: int| 0 <= i < t.len() ==> #[trigger] t[i].1 == resolved_flag(org, platform, t[i].0@)
    &&& forall|k: Seq<char>| (org.contains(k) || platform.contains(k)) ==> exists|i: int| 0 <= i < t.len() && #[trigger] t[i].0@ == k
}

fn find_entry(t: &Vec<(String, FlagRef)>, key: &String) -> (r: Option<usize>)
    ensures
        r matches Some(i) ==> i < t.len() && t@[i as int].0@ == key@,
        r is None ==> forall|i: int| 0 <= i < t.len() ==> t@[i].0@ != key@,
{
    let mut i: usize = 0;
    while i < t.len()
        invariant
            i <= t.len(),
            forall|j: int| 0 <= j < i ==> t@[j].0@ != key@,
        decreases t.len() - i,
    {
        if t[i].0 == *key {
            return Some(i);
        }
        i = i + 1;
    }
    None
}

/// Puts `(key, f)` into the table: replaces the entry of that key, or adds
/// one at the end.
fn upsert(t: &mut Vec<(String, FlagRef)>, key: &String, f: FlagRef)
    requires
        forall|i: int, j: int| 0 <= i < j < old(t).len() ==> old(t)@[i].0@ != old(t)@[j].0@,
    ensures
        forall|i: int, j: int| 0 <= i < j < final(t).len() ==> final(t)@[i].0@ != final(t)@[j].0@,
        forall|i: int| 0 <= i < final(t).len() && final(t)@[i].0@ == key@ ==> #[trigger] final(t)@[i].1 == f,
        forall|i: int| 0 <= i < final(t).len() && final(t)@[i].0@ != key@ ==> exists|j: int|
            0 <= j < old(t).len() && #[trigger] old(t)@[j] == final(t)@[i],
        forall|j: int| 0 <= j < old(t).len() && old(t)@[j].0@ != key@ ==> exists|i: int|
            0 <= i < final(t).len() && #[trigger] final(t)@[i] == old(t)@[j],
        exists|i: int| 0 <= i < final(t).len() && #[trigger] final(t)@[i].0@ == key@,
{
    match find_entry(t, key) {
        Some(i) => {
            let ghost before = t@;
            t.set(i, (key.clone(), f));
            assert forall|a: int| 0 <= a < t.len() && t@[a].0@ != key@ implies exists|j: int|
                0 <= j < before.len() && #[trigger] before[j] == t@[a] by {
                assert(before[a] == t@[a]);
            }
            assert forall|j: int| 0 <= j < before.len() && before[j].0@ != key@ implies exists|a: int|
                0 <= a < t.len() && #[trigger] t@[a] == before[j] by {
                assert(t@[j] == before[j]);
            }
            assert(t@[i as int].0@ == key@);
        },
        None => {
            let ghost before = t@;
            t.push((key.clone(), f));
            assert forall|a: int| 0 <= a < t.len() && t@[a].0@ != key@ implies exists|j: int|
                0 <= j < before.len() && #[trigger] before[j] == t@[a] by {
                assert(before[a] == t@[a]);
            }
            assert forall|j: int| 0 <= j < before.len() && before[j].0@ != key@ implies exists|a: int|
                0 <= a < t.len() && #[trigger] t@[a] == before[j] by {
                assert(t@[j] == before[j]);
            }
            assert(t@[t.len() - 1].0@ == key@);
        },
    }
}

/// Builds the table of the flags to evaluate: the organization's flags
/// first, then the platform's, each replacing an entry of the same key, so
/// that the platform's flag wins. One entry per key.
pub fn merge_flags(org_keys: &Vec<String>, platform_keys: &Vec<String>) -> (r: Vec<(String, FlagRef)>)
    ensures
        table_ok(r@, key_views(org_keys@), key_views(platform_keys@)),
{
    let ghost org = key_views(org_keys@);
    let ghost plat = key_views(platform_keys@);
    let mut t: Vec<(String, FlagRef)> = Vec::new();
    let mut i: usize = 0;
    while i < org_keys.len()
        invariant
            i <= org_keys.len(),
            org == key_views(org_keys@),
            table_ok(t@, org.subrange(0, i as int), Seq::empty()),
        decreases org_keys.len() - i,
    {
        let ghost pre = org.subrange(0, i as int);
        let ghost post = org.subrange(0, i + 1);
        let ghost before = t@;
        proof {
            assert(post.drop_last() == pre);
            assert(post.last() == org_keys@[i as int]@);
        }
        upsert(&mut t, &org_keys[i], FlagRef { origin: FlagOrigin::Org, index: i });
        proof {
            let e: Seq<Seq<char>> = Seq::empty();
            assert(!e.contains(org_keys@[i as int]@));
            assert forall|a: int| 0 <= a < t.len() implies (post.contains(#[trigger] t@[a].0@) || e.contains(t@[a].0@)) by {
                if t@[a].0@ != org_keys@[i as int]@ {
                    let j = choose|j: int| 0 <= j < before.len() && #[trigger] before[j] == t@[a];
                    assert(pre.contains(before[j].0@));
                    let m = choose|m: int| 0 <= m < pre.len() && pre[m] == before[j].0@;
                    assert(post[m] == pre[m]);
                } else {
                    assert(post[i as int] == t@[a].0@);
                }
            }
            assert forall|a: int| 0 <= a < t.len() implies #[trigger] t@[a].1 == resolved_flag(post, e, t@[a].0@) by {
                let k = t@[a].0@;
                lemma_last_index(e, k);
                if k != org_keys@[i as int]@ {
                    let j = choose|j: int| 0 <= j < before.len() && #[trigger] before[j] == t@[a];
                    assert(before[j].1 == resolved_flag(pre, e, k));
                    assert(last_index(post, k) == last_index(pre, k));
                }
            }
            assert forall|k: Seq<char>| (post.contains(k) || e.contains(k)) implies exists|a: int|
                0 <= a < t.len() && #[trigger] t@[a].0@ == k by {
                if k != org_keys@[i as int]@ {
                    let m = choose|m: int| 0 <= m < post.len() && post[m] == k;
                    assert(pre[m] == k);
                    assert(pre.contains(k));
                    let j = choose|j: int| 0 <= j < before.len() && #[trigger] before[j].0@ == k;
                    let a = choose|a: int| 0 <= a < t.len() && #[trigger] t@[a] == before[j];
                    assert(t@[a].0@ == k);
                }
            }
        }
        i = i + 1;
    }
    assert(org.subrange(0, i as int) == org);
    let mut j: usize = 0;
    while j < platform_keys.len()
        invariant
            j <= platform_keys.len(),
            org == key_views(org_keys@),
            plat == key_views(platform_keys@),
            table_ok(t@, org, plat.subrange(0, j as int)),
        decreases platform_keys.len() - j,
    {
        let ghost pre = plat.subrange(0, j as int);
        let ghost post = plat.subrange(0, j + 1);
        let ghost before = t@;
        proof {
            assert(post.drop_last() == pre);
            assert(post.last() == platform_keys@[j as int]@);
        }
        upsert(&mut t, &platform_keys[j], FlagRef { origin: FlagOrigin::Platform, index: j });
        proof {
            assert forall|a: int| 0 <= a < t.len() implies (org.contains(#[trigger] t@[a].0@) || post.contains(t@[a].0@)) by {
                if t@[a].0@ != platform_keys@[j as int]@ {
                    let b = choose|b: int| 0 <= b < before.len() && #[trigger] before[b] == t@[a];
                    if pre.contains(before[b].0@) {
                        let m = choose|m: int| 0 <= m < pre.len() && pre[m] == before[b].0@;
                        assert(post[m] == pre[m]);
                    }
                } else {
                    assert(post[j as int] == t@[a].0@);
                }
            }
            assert forall|a: int| 0 <= a < t.len() implies #[trigger] t@[a].1 == resolved_flag(org, post, t@[a].0@) by {
                let k = t@[a].0@;
                if k != platform_keys@[j as int]@ {
                    let b = choose|b: int| 0 <= b < before.len() && #[trigger] before[b] == t@[a];
                    assert(before[b].1 == resolved_flag(org, pre, k));
                    assert(last_index(post, k) == last_index(pre, k));
                }
            }
            assert forall|k: Seq<char>| (org.contains(k) || post.contains(k)) implies exists|a: int|
                0 <= a < t.len() && #[trigger] t@[a].0@ == k by {
                if k != platform_keys@[j as int]@ {
                    if post.contains(k) {
                        let m = choose|m: int| 0 <= m < post.len() && post[m] == k;
                        assert(pre[m] == k);
                    }
                    assert(org.contains(k) || pre.contains(k));
                    let b = choose|b: int| 0 <= b < before.len() && #[trigger] before[b].0@ == k;
                    let a = choose|a: int| 0 <= a < t.len() && #[trigger] t@[a] == before[b];
                    assert(t@[a].0@ == k);
                }
            }
        }
        j = j + 1;
    }
    assert(plat.subrange(0, j as int) == plat);
    t
}

/// Platform flags take precedence: a key the platform defines resolves to
/// the platform's (last) flag with that key, whatever the organization
/// defines; a key only the organization defines resolves to the
/// organization's (last) flag with it.
pub proof fn lemma_platform_flags_take_precedence(org: Seq<Seq<char>>, platform: Seq<Seq<char>>, k: Seq<char>)
    requires
        org.len() <= usize::MAX,
        platform.len() <= usize::MAX,
    ensures
        platform.contains(k) ==> resolved_flag(org, platform, k).origin == FlagOrigin::Platform
            && platform[resolved_flag(org, platform, k).index as int] == k,
        !platform.contains(k) && org.contains(k) ==> resolved_flag(org, platform, k).origin == FlagOrigin::Org
            && org[resolved_flag(org, platform, k).index as int] == k,
{
    lemma_last_index(platform, k);
    lemma_last_index(org, k);
}

// ---------------------------------------------------------------------------
// Kill switches
// ---------------------------------------------------------------------------

/// The kill switches consulted for an evaluation: the platform's first, then
/// the organization's, each list in its order.
pub fn combine_kill_switches<T>(platform: Vec<T>, org: Vec<T>) -> (r: Vec<T>)
    ensures
        r@ == platform@ + org@,
{
    let mut all = platform;
    let mut rest = org;
    all.append(&mut rest);
    all
}

// ---------------------------------------------------------------------------
// Requests
// ---------------------------------------------------------------------------

/// Whether a user may evaluate an organization's flags, given what reading
/// their membership gave (`Ok(true)` for a member).
pub fn check_flags_membership(membership: Result<bool, ()>) -> (r: Result<(), (u16, FlagsErrorResponse)>)
    ensures
        r is Ok <==> membership == Ok::<bool, ()>(true),
        membership == Ok::<bool, ()>(false) ==> (r matches Err(a) && flags_error_is(a, 404, "not_found"@, "server.api.org.not_a_member"@)),
        membership is Err ==> (r matches Err(a) && flags_error_is(a, 500, "internal_error"@, "server.api.error.internal"@)),
{
    match membership {
        Ok(true) => Ok(()),
        Ok(false) => Err(flags_error(404, "not_found", "server.api.org.not_a_member")),
        Err(_) => Err(flags_error(500, "internal_error", "server.api.error.internal")),
    }
}

/// Whether the environment an evaluation names exists, given what looking it
/// up gave.
pub fn check_environment(found: Result<bool, ()>) -> (r: Result<(), (u16, FlagsErrorResponse)>)
    ensures
        r is Ok <==> found == Ok::<bool, ()>(true),
        found == Ok::<bool, ()>(false) ==> (r matches Err(a) && flags_error_is(
            a,
            400,
            "invalid_environment"@,
            "server.api.flags.environment_not_found"@,
        )),
        found is Err ==> (r matches Err(a) && flags_error_is(a, 500, "internal_error"@, "server.api.error.internal"@)),
{
    match found {
        Ok(true) => Ok(()),
        Ok(false) => Err(flags_error(400, "invalid_environment", "server.api.flags.environment_not_found")),
        Err(_) => Err(flags_error(500, "internal_error", "server.api.error.internal")),
    }
}

// ---------------------------------------------------------------------------
// SDK keys on the flag stream
// ---------------------------------------------------------------------------

/// The code of the lowercase of an ASCII letter; other characters keep
/// their code.
pub open spec fn ascii_lower_code(c: char) -> u32 {
    if 65 <= (c as u32) <= 90 {
        ((c as u32) + 32) as u32
    } else {
        c as u32
    }
}

/// The SDK key of an `Authorization` header: what follows a `Bearer ` prefix
/// (in any case), `None` when the header has no such prefix.
pub open spec fn bearer_key(header: Seq<char>) -> Option<Seq<char>> {
    if header.len() >= 7 && forall|i: int| 0 <= i < 7 ==> #[trigger] ascii_lower_code(header[i]) == ("bearer "@[i] as u32) {
        Some(header.subrange(7, header.len() as int))
    } else {
        None
    }
}

/// Reads the SDK key of an `Authorization` header.
pub fn bearer_token(header: &str) -> (r: Option<String>)
    ensures
        match bearer_key(header@) {
            Some(k) => r matches Some(s) && s@ == k,
            None => r is None,
        },
{
    let c = chars_of(header);
    let prefix = chars_of("bearer ");
    proof {
        reveal_strlit("bearer ");
    }
    if c.len() < 7 {
        return None;
    }
    let mut i: usize = 0;
    while i < 7
        invariant
            i <= 7,
            c.len() >= 7,
            c@ == header@,
            prefix@ == "bearer "@,
            prefix@.len() == 7,
            forall|j: int| 0 <= j < i ==> #[trigger] ascii_lower_code(c@[j]) == ("bearer "@[j] as u32),
        decreases 7 - i,
    {
        let u: u32 = c[i] as u32;
        let low: u32 = if 65 <= u && u <= 90 {
            u + 32
        } else {
            u
        };
        if low != (prefix[i] as u32) {
            assert(low == ascii_lower_code(header@[i as int]));
            return None;
        }
        i = i + 1;
    }
    Some(string_from_chars(&c, 7, c.len()))
}

/// Why an SDK key on the flag stream was refused.
#[derive(Debug, Clone, Copy, PartialEq, Eq, Structural)]
pub enum SdkAuthFailure {
    /// No `Authorization` header.
    MissingHeader,
    /// The header is not `Bearer ...`.
    BadHeaderFormat,
    /// The key is not in the SDK key format.
    BadKeyFormat,
    /// The key store could not be read.
    StoreFailed,
    /// No key of the environment matches.
    UnknownKey,
}

/// The status and message a refused SDK key is answered with.
pub open spec fn sdk_failure_answer(f: SdkAuthFailure) -> (u16, Seq<char>) {
    match f {
        SdkAuthFailure::MissingHeader => (401, "Missing Authorization header"@),
        SdkAuthFailure::BadHeaderFormat => (401, "Invalid Authorization header format"@),
        SdkAuthFailure::BadKeyFormat => (401, "Invalid SDK key format"@),
        SdkAuthFailure::StoreFailed => (500, "Database error"@),
        SdkAuthFailure::UnknownKey => (401, "Invalid SDK key"@),
    }
}

/// Answers a refused SDK key.
pub fn sdk_auth_failure(f: SdkAuthFailure) -> (r: (u16, String))
    ensures
        r.0 == sdk_failure_answer(f).0,
        r.1@ == sdk_failure_answer(f).1,
{
    match f {
        SdkAuthFailure::MissingHeader => (401, "Missing Authorization header".to_string()),
        SdkAuthFailure::BadHeaderFormat => (401, "Invalid Authorization header format".to_string()),
        SdkAuthFailure::BadKeyFormat => (401, "Invalid SDK key format".to_string()),
        SdkAuthFailure::StoreFailed => (500, "Database error".to_string()),
        SdkAuthFailure::UnknownKey => (401, "Invalid SDK key".to_string()),
    }
}

// ---------------------------------------------------------------------------
// Flag definitions
// ---------------------------------------------------------------------------

/// `n` is the name of at least two variants.
pub open spec fn is_duplicate(names: Seq<Seq<char>>, n: Seq<char>) -> bool {
    exists|i: int, j: int| 0 <= i < j < names.len() && names[i] == n && names[j] == n
}

/// The duplicated name a flag definition is refused for: the least one in
/// `str` order, `None` when all names differ.
pub open spec fn least_duplicate_name(names: Seq<Seq<char>>) -> Option<Seq<char>> {
    if exists|n: Seq<char>| is_duplicate(names, n) {
        Some(
            choose|n: Seq<char>|
                is_duplicate(names, n) && forall|m: Seq<char>| is_duplicate(names, m) ==> !str_lt(m, n),
        )
    } else {
        None
    }
}

fn occurs_elsewhere(names: &Vec<String>, i: usize) -> (r: bool)
    requires
        i < names.len(),
    ensures
        r == exists|j: int| 0 <= j < names.len() && j != i && names@[j]@ == names@[i as int]@,
{
    let mut j: usize = 0;
    while j < names.len()
        invariant
            j <= names.len(),
            i < names.len(),
            forall|k: int| 0 <= k < j && k != i ==> names@[k]@ != names@[i as int]@,
        decreases names.len() - j,
    {
        if j != i && names[j] == names[i] {
            return true;
        }
        j = j + 1;
    }
    false
}

/// Finds the least duplicated variant name.
pub fn least_duplicate(names: &Vec<String>) -> (r: Option<String>)
    ensures
        match least_duplicate_name(crate::text::string_views(names@)) {
            Some(n) => r matches Some(s) && s@ == n,
            None => r is None,
        },
{
    let ghost v = crate::text::string_views(names@);
    let mut best: Option<usize> = None;
    let mut i: usize = 0;
    while i < names.len()
        invariant
            i <= names.len(),
            v == crate::text::string_views(names@),
            v.len() == names.len(),
            best matches Some(b) ==> b < names.len() && is_duplicate(v, v[b as int]),
            best is None ==> forall|k: int| 0 <= k < i ==> !is_duplicate(v, #[trigger] v[k]),
            best matches Some(b) ==> forall|k: int| 0 <= k < i && is_duplicate(v, #[trigger] v[k]) ==> !str_lt(v[k], v[b as int]),
        decreases names.len() - i,
    {
        let dup = occurs_elsewhere(names, i);
        proof {
            if dup {
                let j = choose|j: int| 0 <= j < names.len() && j != i && names@[j]@ == names@[i as int]@;
                if j < i {
                    assert(v[j] == v[i as int] && v[i as int] == v[i as int]);
                } else {
                    assert(v[i as int] == v[i as int] && v[j] == v[i as int]);
                }
                assert(is_duplicate(v, v[i as int]));
            } else {
                assert(!is_duplicate(v, v[i as int])) by {
                    if is_duplicate(v, v[i as int]) {
                        let (a, b) = choose|a: int, b: int| 0 <= a < b < v.len() && v[a] == v[i as int] && v[b] == v[i as int];
                        if a != i {
                            assert(names@[a]@ == names@[i as int]@);
                        } else {
                            assert(names@[b]@ == names@[i as int]@);
                        }
                    }
                }
            }
        }
        if dup {
            match best {
                None => {
                    proof {
                        lemma_str_lt_total(v[i as int], v[i as int]);
                    }
                    best = Some(i);
                },
                Some(b) => {
                    let lt = str_less(names[i].as_str(), names[b].as_str());
                    if lt {
                        proof {
                            assert forall|k: int| 0 <= k <= i && is_duplicate(v, #[trigger] v[k]) implies !str_lt(v[k], v[i as int]) by {
                                lemma_str_lt_total(v[i as int], v[i as int]);
                                if str_lt(v[k], v[i as int]) {
                                    lemma_str_lt_transitive(v[k], v[i as int], v[b as int]);
                                }
                            }
                        }
                        best = Some(i);
                    }
                },
            }
        }
        i = i + 1;
    }
    match best {
        None => {
            proof {
                assert forall|n: Seq<char>| !is_duplicate(v, n) by {
                    if is_duplicate(v, n) {
                        let (a, b) = choose|a: int, b: int| 0 <= a < b < v.len() && v[a] == n && v[b] == n;
                        assert(is_duplicate(v, v[a]));
                    }
                }
            }
            None
        },
        Some(b) => {
            proof {
                let n = v[b as int];
                assert forall|m: Seq<char>| is_duplicate(v, m) implies !str_lt(m, n) by {
                    let (a, c) = choose|a: int, c: int| 0 <= a < c < v.len() && v[a] == m && v[c] == m;
                    assert(is_duplicate(v, v[a]));
                }
                let w = choose|w: Seq<char>|
                    is_duplicate(v, w) && forall|m: Seq<char>| is_duplicate(v, m) ==> !str_lt(m, w);
                assert(w == n) by {
                    lemma_str_lt_total(w, n);
                }
            }
            Some(names[b].clone())
        },
    }
}

/// The variant names of a flag must be non-empty in number and distinct,
/// and the default variant must be one of them.
pub open spec fn variants_answer(names: Seq<Seq<char>>, default_variant: Seq<char>) -> Option<(Seq<char>, Seq<char>)> {
    if names.len() == 0 {
        Some(("no_variants"@, "At least one variant is required"@))
    } else if least_duplicate_name(names) is Some {
        Some(("duplicate_variant"@, "Duplicate variant name: "@ + least_duplicate_name(names)->0))
    } else if !names.contains(default_variant) {
        Some(("default_variant_missing"@, "server.api.flags.default_variant_missing"@))
    } else {
        None
    }
}

fn contains_name(names: &Vec<String>, n: &str) -> (r: bool)
    ensures
        r == crate::text::string_views(names@).contains(n@),
{
    let ghost v = crate::text::string_views(names@);
    let mut i: usize = 0;
    while i < names.len()
        invariant
            i <= names.len(),
            v == crate::text::string_views(names@),
            forall|k: int| 0 <= k < i ==> v[k] != n@,
        decreases names.len() - i,
    {
        if crate::text::str_eq(names[i].as_str(), n) {
            assert(v[i as int] == n@);
            return true;
        }
        i = i + 1;
    }
    false
}

/// Checks the variants of a flag definition.
pub fn validate_variants(names: &Vec<String>, default_variant: &str) -> (r: Result<(), (u16, FlagsErrorResponse)>)
    ensures
        match variants_answer(crate::text::string_views(names@), default_variant@) {
            Some((e, m)) => r matches Err(a) && flags_error_is(a, 400, e, m),
            None => r is Ok,
        },
{
    if names.len() == 0 {
        return Err(flags_error(400, "no_variants", "At least one variant is required"));
    }
    match least_duplicate(names) {
        Some(d) => {
            let m = "Duplicate variant name: ".to_string().concat(d.as_str());
            return Err((400, FlagsErrorResponse { error: "duplicate_variant".to_string(), message: m }));
        },
        None => {},
    }
    if !contains_name(names, default_variant) {
        return Err(flags_error(400, "default_variant_missing", "server.api.flags.default_variant_missing"));
    }
    Ok(())
}

/// Checks a new flag's definition: its key (`key_valid`, as the flag model
/// judges it), then its variants.
pub fn validate_new_flag(key_valid: bool, variant_names: &Vec<String>, default_variant: &str) -> (r: Result<(), (u16, FlagsErrorResponse)>)
    ensures
        !key_valid ==> (r matches Err(a) && flags_error_is(a, 400, "invalid_key"@, "server.api.flags.invalid_flag_key"@)),
        key_valid ==> match variants_answer(crate::text::string_views(variant_names@), default_variant@) {
            Some((e, m)) => r matches Err(a) && flags_error_is(a, 400, e, m),
            None => r is Ok,
        },
{
    if !key_valid {
        return Err(flags_error(400, "invalid_key", "server.api.flags.invalid_flag_key"));
    }
    validate_variants(variant_names, default_variant)
}

/// Checks that the organization does not use the key yet, after a valid
/// definition and before the maintainer is read. `existing` is the lookup
/// of a flag with that key: `Ok(true)` when one was found. A failed lookup
/// does not stop the creation.
pub fn check_flag_key_free(existing: Result<bool, ()>) -> (r: Result<(), (u16, FlagsErrorResponse)>)
    ensures
        r is Ok <==> existing != Ok::<bool, ()>(true),
        r matches Err(a) ==> flags_error_is(a, 409, "duplicate_key"@, "server.api.flags.duplicate_flag_key"@),
{
    match existing {
        Ok(true) => Err(duplicate_flag_key()),
        _ => Ok(()),
    }
}

/// Reads the maintainer id of a new flag, which must be a UUID when given;
/// this comes after the duplicate-key check.
pub fn parse_maintainer(maintainer: Option<&str>) -> (r: Result<Option<u128>, (u16, FlagsErrorResponse)>)
    ensures
        match maintainer {
            None => r == Ok::<Option<u128>, (u16, FlagsErrorResponse)>(None),
            Some(s) => match crate::ids::uuid_parse(s@) {
                Some(u) => r == Ok::<Option<u128>, (u16, FlagsErrorResponse)>(Some(u)),
                None => r matches Err(a) && flags_error_is(
                    a,
                    400,
                    "invalid_maintainer_id"@,
                    "Invalid maintainer user ID format"@,
                ),
            },
        },
{
    match maintainer {
        None => Ok(None),
        Some(s) => match crate::ids::parse_uuid(s) {
            Some(u) => Ok(Some(u)),
            None => Err(flags_error(400, "invalid_maintainer_id", "Invalid maintainer user ID format")),
        },
    }
}

/// The answer to a new flag whose key the organization already uses.
pub fn duplicate_flag_key() -> (r: (u16, FlagsErrorResponse))
    ensures
        flags_error_is(r, 409, "duplicate_key"@, "server.api.flags.duplicate_flag_key"@),
{
    flags_error(409, "duplicate_key", "server.api.flags.duplicate_flag_key")
}

/// Whether an archived flag may be archived (`archive == true`) or restored
/// (`archive == false`): only a live flag is archived, only an archived one
/// restored.
pub fn check_archive_transition(archived: bool, archive: bool) -> (r: Result<(), (u16, FlagsErrorResponse)>)
    ensures
        r is Ok <==> archived != archive,
        archived && archive ==> (r matches Err(a) && flags_error_is(a, 400, "already_archived"@, "Flag is already archived"@)),
        !archived && !archive ==> (r matches Err(a) && flags_error_is(a, 400, "not_archived"@, "Flag is not archived"@)),
{
    if archived && archive {
        Err(flags_error(400, "already_archived", "Flag is already archived"))
    } else if !archived && !archive {
        Err(flags_error(400, "not_archived", "Flag is not archived"))
    } else {
        Ok(())
    }
}

/// An archived flag cannot be changed.
pub fn check_flag_updatable(archived: bool) -> (r: Result<(), (u16, FlagsErrorResponse)>)
    ensures
        r is Ok <==> !archived,
        r matches Err(a) ==> flags_error_is(a, 400, "flag_archived"@, "Cannot update an archived flag. Restore it first."@),
{
    if archived {
        Err(flags_error(400, "flag_archived", "Cannot update an archived flag. Restore it first."))
    } else {
        Ok(())
    }
}

/// Whether a record found for an organization belongs to it; a record of
/// another organization (or of the platform, `owner` `None`) is answered as
/// missing, with the given message key.
pub fn check_owned_by_org(owner: Option<u128>, org_id: u128, not_found_key: &str) -> (r: Result<(), (u16, FlagsErrorResponse)>)
    ensures
        r is Ok <==> owner == Some(org_id),
        r matches Err(a) ==> flags_error_is(a, 404, "not_found"@, not_found_key@),
{
    match owner {
        Some(o) => {
            if o == org_id {
                Ok(())
            } else {
                Err(flags_error(404, "not_found", not_found_key))
            }
        },
        None => Err(flags_error(404, "not_found", not_found_key)),
    }
}

/// Whether a name is 1 to 100 bytes long.
pub open spec fn name_len_ok(name: Seq<char>) -> bool {
    name.len() > 0 && vstd::utf8::encode_utf8(name).len() <= 100
}

/// Checks the name of an SDK key.
pub fn check_sdk_key_name(name: &str) -> (r: Result<(), (u16, FlagsErrorResponse)>)
    ensures
        r is Ok <==> name_len_ok(name@),
        r matches Err(a) ==> flags_error_is(a, 400, "invalid_name"@, "SDK key name must be between 1 and 100 characters"@),
{
    let n = name.as_bytes().len();
    if name.is_empty() || n > 100 {
        return Err(flags_error(400, "invalid_name", "SDK key name must be between 1 and 100 characters"));
    }
    Ok(())
}

/// Whether a revoked SDK key may be revoked: never.
pub fn check_sdk_key_revocable(revoked: bool) -> (r: Result<(), (u16, FlagsErrorResponse)>)
    ensures
        r is Ok <==> !revoked,
        r matches Err(a) ==> flags_error_is(a, 400, "already_revoked"@, "server.api.flags.sdk_key_revoked"@),
{
    if revoked {
        Err(flags_error(400, "already_revoked", "server.api.flags.sdk_key_revoked"))
    } else {
        Ok(())
    }
}

/// Some step of a schedule exceeds 100 percent.
pub open spec fn schedule_over_100(steps: Seq<u32>) -> bool {
    exists|i: int| 0 <= i < steps.len() && steps[i] > 100
}

/// Why a strategy is refused, if it is: its name must be 1 to 100 bytes, its
/// percentage and every step of its schedule at most 100.
pub open spec fn strategy_answer(name: Option<Seq<char>>, percentage: Option<u32>, schedule: Option<Seq<u32>>) -> Option<(Seq<char>, Seq<char>)> {
    if name matches Some(n) && !name_len_ok(n) {
        Some(("invalid_name"@, "Strategy name must be between 1 and 100 characters"@))
    } else if percentage matches Some(p) && p > 100 {
        Some(("invalid_percentage"@, "Percentage must be between 0 and 100"@))
    } else if schedule matches Some(steps) && schedule_over_100(steps) {
        Some(("invalid_schedule_percentage"@, "Schedule step percentage must be between 0 and 100"@))
    } else {
        None
    }
}

/// Checks a strategy to create or update: the parts that are given.
pub fn validate_strategy(name: Option<&str>, percentage: Option<u32>, schedule: Option<&Vec<u32>>) -> (r: Result<(), (u16, FlagsErrorResponse)>)
    ensures
        match strategy_answer(
            match name {
                Some(n) => Some(n@),
                None => None,
            },
            percentage,
            match schedule {
                Some(s) => Some(s@),
                None => None,
            },
        ) {
            Some((e, m)) => r matches Err(a) && flags_error_is(a, 400, e, m),
            None => r is Ok,
        },
{
    if let Some(n) = name {
        let len = n.as_bytes().len();
        if n.is_empty() || len > 100 {
            return Err(flags_error(400, "invalid_name", "Strategy name must be between 1 and 100 characters"));
        }
    }
    if let Some(p) = percentage {
        if p > 100 {
            return Err(flags_error(400, "invalid_percentage", "Percentage must be between 0 and 100"));
        }
    }
    if let Some(steps) = schedule {
        let mut i: usize = 0;
        while i < steps.len()
            invariant
                i <= steps.len(),
                forall|k: int| 0 <= k < i ==> steps@[k] <= 100,
                name matches Some(n) ==> name_len_ok(n@),
                percentage matches Some(p) ==> p <= 100,
                schedule == Some(steps),
            decreases steps.len() - i,
        {
            if steps[i] > 100 {
                proof {
                    assert(schedule_over_100(steps@));
                }
                return Err(
                    flags_error(400, "invalid_schedule_percentage", "Schedule step percentage must be between 0 and 100"),
                );
            }
            i = i + 1;
        }
    }
    Ok(())
}

/// A strategy that a flag configuration still uses cannot be deleted.
pub fn check_strategy_unused(strategy_id: u128, config_strategies: &Vec<Option<u128>>) -> (r: Result<(), (u16, FlagsErrorResponse)>)
    ensures
        r is Ok <==> !config_strategies@.contains(Some(strategy_id)),
        r matches Err(a) ==> flags_error_is(a, 400, "strategy_in_use"@, "server.api.flags.strategy_in_use"@),
{
    let mut i: usize = 0;
    while i < config_strategies.len()
        invariant
            i <= config_strategies.len(),
            forall|k: int| 0 <= k < i ==> config_strategies@[k] != Some(strategy_id),
        decreases config_strategies.len() - i,
    {
        if config_strategies[i] == Some(strategy_id) {
            assert(config_strategies@[i as int] == Some(strategy_id));
            return Err(flags_error(400, "strategy_in_use", "server.api.flags.strategy_in_use"));
        }
        i = i + 1;
    }
    Ok(())
}

/// A kill switch is activated only with a reason that holds more than white
/// space.
pub fn check_activation_reason(reason: &str) -> (r: Result<(), (u16, FlagsErrorResponse)>)
    ensures
        r is Ok <==> crate::text::trim_ws(reason@).len() > 0,
        r matches Err(a) ==> flags_error_is(a, 400, "reason_required"@, "server.api.flags.activation_reason_required"@),
{
    let t = crate::text::trim(reason);
    if t.as_str().is_empty() {
        return Err(flags_error(400, "reason_required", "server.api.flags.activation_reason_required"));
    }
    Ok(())
}

// ---------------------------------------------------------------------------
// Looking one flag up for an evaluation
// ---------------------------------------------------------------------------

/// Where the lookup of a flag by key stands once the platform's flags were
/// searched.
pub enum FlagLookup<T> {
    /// The platform defines the flag; it is the one evaluated.
    Platform(T),
    /// The platform does not define it; the organization's flags are next.
    AskOrg,
}

/// The platform's flag takes precedence: found there, it is the one; not
/// found, the organization's flags are searched; a failed read is 500.
pub fn after_platform_lookup<T>(lookup: Result<Option<T>, ()>) -> (r: Result<FlagLookup<T>, (u16, FlagsErrorResponse)>)
    ensures
        match lookup {
            Ok(Some(f)) => r matches Ok(FlagLookup::Platform(g)) && g == f,
            Ok(None) => r matches Ok(FlagLookup::AskOrg),
            Err(_) => r matches Err(a) && flags_error_is(a, 500, "internal_error"@, "server.api.error.internal"@),
        },
{
    match lookup {
        Ok(Some(f)) => Ok(FlagLookup::Platform(f)),
        Ok(None) => Ok(FlagLookup::AskOrg),
        Err(_) => Err(flags_error(500, "internal_error", "server.api.error.internal")),
    }
}

/// The organization's flag, when the platform has none with the key; none
/// there either is 404.
pub fn after_org_lookup<T>(lookup: Result<Option<T>, ()>) -> (r: Result<T, (u16, FlagsErrorResponse)>)
    ensures
        match lookup {
            Ok(Some(f)) => r matches Ok(g) && g == f,
            Ok(None) => r matches Err(a) && flags_error_is(a, 404, "not_found"@, "server.api.flags.flag_not_found"@),
            Err(_) => r matches Err(a) && flags_error_is(a, 500, "internal_error"@, "server.api.error.internal"@),
        },
{
    match lookup {
        Ok(Some(f)) => Ok(f),
        Ok(None) => Err(flags_error(404, "not_found", "server.api.flags.flag_not_found")),
        Err(_) => Err(flags_error(500, "internal_error", "server.api.error.internal")),
    }
}

/// A prerequisite flag, looked up the same way; a failed or empty lookup
/// leaves the prerequisite out of the evaluation.
pub fn prerequisite_flag<T>(platform: Result<Option<T>, ()>, org: Option<Result<Option<T>, ()>>) -> (r: Option<T>)
    ensures
        match platform {
            Ok(Some(f)) => r == Some(f),
            Ok(None) => match org {
                Some(Ok(Some(f))) => r == Some(f),
                _ => r is None,
            },
            Err(_) => r is None,
        },
{
    match platform {
        Ok(Some(f)) => Some(f),
        Ok(None) => match org {
            Some(Ok(Some(f))) => Some(f),
            _ => None,
        },
        Err(_) => None,
    }
}

// ---------------------------------------------------------------------------
// Flag configurations
// ---------------------------------------------------------------------------

/// What an environment's configuration of a flag holds.
#[derive(Debug, Clone, Copy, PartialEq, Eq, Structural)]
pub struct FlagConfigState {
    pub enabled: bool,
    pub strategy_id: Option<u128>,
}

/// What an update asks of the configuration's strategy.
#[derive(Debug, Clone, Copy)]
pub enum StrategyChange {
    /// The update does not mention the strategy.
    Keep,
    /// The update removes the strategy.
    Clear,
    /// The update names a strategy id that does not parse.
    Unparsable,
    /// The update names this strategy; `found` is what looking it up gave.
    Assign { id: u128, found: Result<bool, ()> },
}

/// The answer to a configuration update: the new configuration, or why it
/// is refused. The strategy part is checked after `enabled` is applied.
pub open spec fn config_update_answer(c: FlagConfigState, enabled: Option<bool>, change: StrategyChange) -> Result<FlagConfigState, (u16, Seq<char>, Seq<char>)> {
    let c1 = match enabled {
        Some(e) => FlagConfigState { enabled: e, ..c },
        None => c,
    };
    match change {
        StrategyChange::Keep => Ok(c1),
        StrategyChange::Clear => Ok(FlagConfigState { strategy_id: None, ..c1 }),
        StrategyChange::Unparsable => Err((400, "invalid_strategy_id"@, "server.api.flags.strategy_not_found"@)),
        StrategyChange::Assign { id, found } => match found {
            Ok(true) => Ok(FlagConfigState { strategy_id: Some(id), ..c1 }),
            Ok(false) => Err((404, "not_found"@, "server.api.flags.strategy_not_found"@)),
            Err(_) => Err((500, "internal_error"@, "server.api.error.internal"@)),
        },
    }
}

/// Applies an update to an environment's configuration of a flag.
pub fn update_flag_config(current: FlagConfigState, enabled: Option<bool>, change: StrategyChange) -> (r: Result<FlagConfigState, (u16, FlagsErrorResponse)>)
    ensures
        match config_update_answer(current, enabled, change) {
            Ok(c) => r == Ok::<FlagConfigState, (u16, FlagsErrorResponse)>(c),
            Err((st, e, m)) => r matches Err(a) && flags_error_is(a, st, e, m),
        },
{
    let mut c = current;
    if let Some(e) = enabled {
        c = FlagConfigState { enabled: e, strategy_id: c.strategy_id };
    }
    match change {
        StrategyChange::Keep => Ok(c),
        StrategyChange::Clear => Ok(FlagConfigState { enabled: c.enabled, strategy_id: None }),
        StrategyChange::Unparsable => Err(flags_error(400, "invalid_strategy_id", "server.api.flags.strategy_not_found")),
        StrategyChange::Assign { id, found } => match found {
            Ok(true) => Ok(FlagConfigState { enabled: c.enabled, strategy_id: Some(id) }),
            Ok(false) => Err(flags_error(404, "not_found", "server.api.flags.strategy_not_found")),
            Err(_) => Err(flags_error(500, "internal_error", "server.api.error.internal")),
        },
    }
}

/// The answer when the flag has no configuration for the environment.
pub fn flag_config_not_found() -> (r: (u16, FlagsErrorResponse))
    ensures
        flags_error_is(r, 404, "not_found"@, "Flag config not found for this environment"@),
{
    flags_error(404, "not_found", "Flag config not found for this environment")
}

/// The answer of a membership read that refuses, `None` when the caller
/// belongs to the organization.
pub open spec fn membership_refusal(m: Result<bool, ()>) -> Option<(u16, Seq<char>, Seq<char>)> {
    match m {
        Ok(true) => None,
        Ok(false) => Some((404u16, "not_found"@, "server.api.org.not_a_member"@)),
        Err(_) => Some((500u16, "internal_error"@, "server.api.error.internal"@)),
    }
}

/// `r` is the refusal `x`.
pub open spec fn refused_with(r: Result<(), (u16, FlagsErrorResponse)>, x: (u16, Seq<char>, Seq<char>)) -> bool {
    r matches Err(a) && flags_error_is(a, x.0, x.1, x.2)
}

/// The checks of a flag evaluation, in the order the server makes them: the
/// organization id (`org_id`, or its refusal), the caller's membership, the
/// environment the context names (`environment`: whether it was found),
/// then the flag by key, on the platform first and in the organization
/// next. Returns the organization and the flag, or the answer of the first
/// check that fails; the later reads do not matter once a check has failed,
/// nor the organization's flag when the platform defines it.
pub fn evaluation_checks<T>(
    org_id: Result<u128, (u16, FlagsErrorResponse)>,
    membership: Result<bool, ()>,
    environment: Result<bool, ()>,
    platform_flag: Result<Option<T>, ()>,
    org_flag: Result<Option<T>, ()>,
) -> (r: Result<(u128, T), (u16, FlagsErrorResponse)>)
    ensures
        match org_id {
            Err(a) => r matches Err(b) && b == a,
            Ok(o) => match membership_refusal(membership) {
                Some(x) => r matches Err(a) && flags_error_is(a, x.0, x.1, x.2),
                None => match environment {
                    Ok(false) => r matches Err(a) && flags_error_is(
                        a,
                        400,
                        "invalid_environment"@,
                        "server.api.flags.environment_not_found"@,
                    ),
                    Err(_) => r matches Err(a) && flags_error_is(a, 500, "internal_error"@, "server.api.error.internal"@),
                    Ok(true) => match platform_flag {
                        Ok(Some(f)) => r matches Ok(v) && v.0 == o && v.1 == f,
                        Err(_) => r matches Err(a) && flags_error_is(
                            a,
                            500,
                            "internal_error"@,
                            "server.api.error.internal"@,
                        ),
                        Ok(None) => match org_flag {
                            Ok(Some(f)) => r matches Ok(v) && v.0 == o && v.1 == f,
                            Ok(None) => r matches Err(a) && flags_error_is(
                                a,
                                404,
                                "not_found"@,
                                "server.api.flags.flag_not_found"@,
                            ),
                            Err(_) => r matches Err(a) && flags_error_is(
                                a,
                                500,
                                "internal_error"@,
                                "server.api.error.internal"@,
                            ),
                        },
                    },
                },
            },
        },
{
    let o = org_id?;
    check_flags_membership(membership)?;
    check_environment(environment)?;
    match after_platform_lookup(platform_flag)? {
        FlagLookup::Platform(f) => Ok((o, f)),
        FlagLookup::AskOrg => {
            let f = after_org_lookup(org_flag)?;
            Ok((o, f))
        },
    }
}

/// The checks of a flag configuration update, in the order the server
/// makes them: the organization id (`org_id`, or its refusal), the flag id
/// and the environment id must read, the caller must belong to the
/// organization, the flag must be found (`flag_owner`: the organization
/// owning it, if any) and belong to the organization, the environment must
/// be found (`env_owner`: its organization) and belong to it, and the
/// flag's configuration in that environment must be found (`config`).
/// Returns that configuration, or the answer of the first check that fails;
/// the later reads do not matter once a check has failed.
pub fn flag_config_checks(
    org_id: Result<u128, (u16, FlagsErrorResponse)>,
    flag_id_valid: bool,
    env_id_valid: bool,
    membership: Result<bool, ()>,
    flag_owner: Result<Option<Option<u128>>, ()>,
    env_owner: Result<Option<u128>, ()>,
    config: Result<Option<FlagConfigState>, ()>,
) -> (r: Result<FlagConfigState, (u16, FlagsErrorResponse)>)
    ensures
        org_id matches Err(a) ==> r matches Err(b) && b == a,
        org_id matches Ok(o) ==> {
            let internal = (500u16, "internal_error"@, "server.api.error.internal"@);
            let no_flag = (404u16, "not_found"@, "server.api.flags.flag_not_found"@);
            let no_env = (404u16, "not_found"@, "server.api.flags.environment_not_found"@);
            let refusal: Option<(u16, Seq<char>, Seq<char>)> = if !flag_id_valid {
                Some((400u16, "invalid_id"@, "server.api.flags.flag_not_found"@))
            } else if !env_id_valid {
                Some((400u16, "invalid_id"@, "server.api.flags.environment_not_found"@))
            } else if membership_refusal(membership) is Some {
                membership_refusal(membership)
            } else if flag_owner is Err {
                Some(internal)
            } else if flag_owner == Ok::<Option<Option<u128>>, ()>(None) || flag_owner != Ok::<
                Option<Option<u128>>,
                (),
            >(Some(Some(o))) {
                Some(no_flag)
            } else if env_owner is Err {
                Some(internal)
            } else if env_owner != Ok::<Option<u128>, ()>(Some(o)) {
                Some(no_env)
            } else if config is Err {
                Some(internal)
            } else if config == Ok::<Option<FlagConfigState>, ()>(None) {
                Some((404u16, "not_found"@, "Flag config not found for this environment"@))
            } else {
                None
            };
            match refusal {
                Some(x) => r matches Err(a) && flags_error_is(a, x.0, x.1, x.2),
                None => config matches Ok(Some(c)) && r == Ok::<FlagConfigState, (u16, FlagsErrorResponse)>(c),
            }
        },
{
    let o = org_id?;
    if !flag_id_valid {
        return Err(flags_error(400, "invalid_id", "server.api.flags.flag_not_found"));
    }
    if !env_id_valid {
        return Err(flags_error(400, "invalid_id", "server.api.flags.environment_not_found"));
    }
    check_flags_membership(membership)?;
    let owner = match flag_owner {
        Err(_) => return Err(flags_error(500, "internal_error", "server.api.error.internal")),
        Ok(None) => return Err(flags_error(404, "not_found", "server.api.flags.flag_not_found")),
        Ok(Some(owner)) => owner,
    };
    check_owned_by_org(owner, o, "server.api.flags.flag_not_found")?;
    let env_org = match env_owner {
        Err(_) => return Err(flags_error(500, "internal_error", "server.api.error.internal")),
        Ok(None) => return Err(flags_error(404, "not_found", "server.api.flags.environment_not_found")),
        Ok(Some(e)) => e,
    };
    check_owned_by_org(Some(env_org), o, "server.api.flags.environment_not_found")?;
    match config {
        Err(_) => Err(flags_error(500, "internal_error", "server.api.error.internal")),
        Ok(None) => Err(flag_config_not_found()),
        Ok(Some(c)) => Ok(c),
    }
}

} // verus!
