//! The decisions of the thread store: when an upsert conflicts, how a
//! search query is read (commit SHA prefix or full-text phrase), which
//! commits of a thread are its first and last, and how search-engine cache
//! keys are normalized.

use vstd::prelude::*;
use vstd::string::StringExecFns;
use crate::error::ServerError;
use crate::text::{
    chars_of, collapse_whitespace, is_collapsed, is_whitespace, is_ws, join_spaced, lemma_collapse_is_stable,
    lowercase_of, push_char, to_lowercase, trim, trim_ws, words_of,
};

verus! {

broadcast use vstd::string::group_string_axioms;

/// A GitHub App installation as stored.
#[derive(Debug)]
pub struct GithubInstallation {
    pub installation_id: i64,
    pub account_id: i64,
    pub account_login: String,
    pub account_type: String,
    pub app_slug: Option<String>,
    pub repositories_selection: String,
    pub suspended_at: Option<String>,
    pub created_at: String,
    pub updated_at: String,
}

/// A GitHub repository linked to an installation.
#[derive(Debug)]
pub struct GithubRepo {
    pub repository_id: i64,
    pub owner: String,
    pub name: String,
    pub full_name: String,
    pub private: bool,
    pub default_branch: Option<String>,
}

/// What a lookup needs of an installation.
#[derive(Debug)]
pub struct GithubInstallationInfo {
    pub installation_id: i64,
    pub account_login: String,
    pub account_type: String,
    pub repositories_selection: String,
}

/// What a thread's agent was doing when the thread was saved.
#[derive(Debug, Clone, Copy, PartialEq, Eq, Structural)]
pub enum AgentStateKind {
    WaitingForUserInput,
    CallingLlm,
    ProcessingLlmResponse,
    ExecutingTools,
    PostToolsHook,
    Error,
    ShuttingDown,
}

/// The name an agent state is stored under.
pub open spec fn agent_state_name(k: AgentStateKind) -> Seq<char> {
    match k {
        AgentStateKind::WaitingForUserInput => "waiting_for_user_input"@,
        AgentStateKind::CallingLlm => "calling_llm"@,
        AgentStateKind::ProcessingLlmResponse => "processing_llm_response"@,
        AgentStateKind::ExecutingTools => "executing_tools"@,
        AgentStateKind::PostToolsHook => "post_tools_hook"@,
        AgentStateKind::Error => "error"@,
        AgentStateKind::ShuttingDown => "shutting_down"@,
    }
}

impl AgentStateKind {
    /// The name the state is stored under.
    pub fn as_str(&self) -> (r: &'static str)
        ensures
            r@ == agent_state_name(*self),
    {
        match self {
            AgentStateKind::WaitingForUserInput => "waiting_for_user_input",
            AgentStateKind::CallingLlm => "calling_llm",
            AgentStateKind::ProcessingLlmResponse => "processing_llm_response",
            AgentStateKind::ExecutingTools => "executing_tools",
            AgentStateKind::PostToolsHook => "post_tools_hook",
            AgentStateKind::Error => "error",
            AgentStateKind::ShuttingDown => "shutting_down",
        }
    }
}

/// What an upsert does once the stored thread (if any) is known.
#[derive(Debug, Clone, Copy, PartialEq, Eq, Structural)]
pub enum UpsertAction {
    Insert,
    Update,
}

/// Whether a query looks like a commit SHA (prefix): 7 to 40 bytes, no white
/// space, hex digits only.
pub open spec fn sha_like(q: Seq<char>) -> bool {
    &&& 7 <= vstd::utf8::encode_utf8(q).len() <= 40
    &&& forall|i: int| 0 <= i < q.len() ==> !is_ws(#[trigger] q[i])
    &&& forall|i: int| 0 <= i < q.len() ==> is_hex_char(#[trigger] q[i])
}

/// An ASCII hex digit.
pub open spec fn is_hex_char(c: char) -> bool {
    ('0' <= c <= '9') || ('a' <= c <= 'f') || ('A' <= c <= 'F')
}

/// What an upsert does: insert a thread that is not stored; update a stored
/// one, unless the caller expected another version than the stored one,
/// which is a conflict `(stored, expected)`.
pub open spec fn upsert_outcome(stored: Option<u64>, expected: Option<u64>) -> Result<UpsertAction, (u64, u64)> {
    match stored {
        None => Ok(UpsertAction::Insert),
        Some(v) => match expected {
            Some(e) => if e != v {
                Err((v, e))
            } else {
                Ok(UpsertAction::Update)
            },
            None => Ok(UpsertAction::Update),
        },
    }
}

/// The thread store's decisions. The store itself, which holds the database
/// pool, lives with the server.
pub struct ThreadRepository;

impl ThreadRepository {
    /// What an upsert does: insert a new thread; update a stored one, unless
    /// the caller expected another version than the stored one, which is a
    /// conflict carrying the stored version and the expected one.
    pub fn upsert_action(stored_version: Option<u64>, expected_version: Option<u64>) -> (r: Result<UpsertAction, ServerError>)
        ensures
            match upsert_outcome(stored_version, expected_version) {
                Ok(a) => r == Ok::<UpsertAction, ServerError>(a),
                Err((v, e)) => r == Err::<UpsertAction, ServerError>(ServerError::Conflict { expected: v, actual: e }),
            },
    {
        match stored_version {
            None => Ok(UpsertAction::Insert),
            Some(v) => match expected_version {
                Some(e) => {
                    if e != v {
                        Err(ServerError::Conflict { expected: v, actual: e })
                    } else {
                        Ok(UpsertAction::Update)
                    }
                },
                None => Ok(UpsertAction::Update),
            },
        }
    }

    /// Whether a (trimmed) query looks like a commit SHA prefix.
    pub fn is_sha_like(query: &str) -> (r: bool)
        ensures
            r == sha_like(query@),
    {
        let n = query.as_bytes().len();
        if n < 7 || n > 40 {
            return false;
        }
        let c = chars_of(query);
        let mut i: usize = 0;
        while i < c.len()
            invariant
                i <= c.len(),
                c@ == query@,
                forall|j: int| 0 <= j < i ==> !is_ws(#[trigger] c@[j]),
                forall|j: int| 0 <= j < i ==> is_hex_char(#[trigger] c@[j]),
            decreases c.len() - i,
        {
            let ch = c[i];
            if is_whitespace(ch) {
                assert(is_ws(query@[i as int]));
                return false;
            }
            let hex = ('0' <= ch && ch <= '9') || ('a' <= ch && ch <= 'f') || ('A' <= ch && ch <= 'F');
            if !hex {
                assert(!is_hex_char(query@[i as int]));
                return false;
            }
            i = i + 1;
        }
        true
    }

    /// How a search query is read: trimmed, and whether it is to be tried
    /// as a commit SHA prefix before the full-text search.
    pub fn search_plan(query: &str) -> (r: (String, bool))
        ensures
            r.0@ == trim_ws(query@),
            r.1 == sha_like(trim_ws(query@)),
    {
        let q = trim(query);
        let sha = Self::is_sha_like(q.as_str());
        (q, sha)
    }

    /// The `LIKE` pattern that finds commits starting with `prefix`.
    pub fn commit_like_pattern(prefix: &str) -> (r: String)
        ensures
            r@ == prefix@ + "%"@,
    {
        prefix.to_string().concat("%")
    }

    /// The full-text query of a search: the query as one phrase, its double
    /// quotes turned into spaces.
    pub fn fts_phrase(query: &str) -> (r: String)
        ensures
            r@ == seq!['"'] + query@.map_values(|c: char| if c == '"' { ' ' } else { c }) + seq!['"'],
    {
        let c = chars_of(query);
        let mut out = String::new();
        push_char(&mut out, '"');
        let mut i: usize = 0;
        while i < c.len()
            invariant
                i <= c.len(),
                c@ == query@,
                out@ == seq!['"'] + c@.take(i as int).map_values(|c: char| if c == '"' { ' ' } else { c }),
            decreases c.len() - i,
        {
            let ch = c[i];
            push_char(&mut out, if ch == '"' { ' ' } else { ch });
            assert(c@.take(i + 1).map_values(|c: char| if c == '"' { ' ' } else { c }) == c@.take(
                i as int,
            ).map_values(|c: char| if c == '"' { ' ' } else { c }).push(if ch == '"' { ' ' } else { ch }));
            i = i + 1;
        }
        assert(c@.take(i as int) == query@);
        push_char(&mut out, '"');
        out
    }

    /// Whether a commit of a thread is its first and whether it is its
    /// current one.
    pub fn commit_flags(sha: &String, initial: &Option<String>, current: &Option<String>) -> (r: (bool, bool))
        ensures
            r.0 == (initial matches Some(s) && s@ == sha@),
            r.1 == (current matches Some(s) && s@ == sha@),
    {
        let is_initial = match initial {
            Some(s) => *s == *sha,
            None => false,
        };
        let is_final = match current {
            Some(s) => *s == *sha,
            None => false,
        };
        (is_initial, is_final)
    }

    /// The cache key of a search-engine query: its words joined with single
    /// spaces, lowercased.
    pub fn normalize_cache_query(query: &str) -> (r: String)
        ensures
            r@ == lowercase_of(join_spaced(words_of(query@))),
    {
        let collapsed = collapse_whitespace(query);
        to_lowercase(collapsed.as_str())
    }
}

/// The cache key only sees the query's words: the text it lowercases has
/// its white space collapsed (no white space at either end, single spaces
/// between words), is empty exactly when the query is all white space, and
/// the already collapsed query gives the same key as the query.
pub proof fn lemma_cache_key_reads_collapsed_words(q: Seq<char>)
    ensures
        is_collapsed(join_spaced(words_of(q))),
        join_spaced(words_of(q)).len() == 0 <==> forall|k: int| 0 <= k < q.len() ==> is_ws(#[trigger] q[k]),
        lowercase_of(join_spaced(words_of(join_spaced(words_of(q))))) == lowercase_of(join_spaced(words_of(q))),
{
    lemma_collapse_is_stable(q);
}

/// An upsert without an expected version never conflicts, nor does the
/// first write of a thread, nor one that expects the stored version; any
/// other expected version conflicts, reporting the stored version first.
pub proof fn lemma_upsert_conflicts_only_on_version_mismatch(stored: Option<u64>, expected: Option<u64>)
    ensures
        expected is None ==> upsert_outcome(stored, expected) is Ok,
        stored is None ==> upsert_outcome(stored, expected) == Ok::<UpsertAction, (u64, u64)>(UpsertAction::Insert),
        stored is Some && expected == stored ==> upsert_outcome(stored, expected) == Ok::<UpsertAction, (u64, u64)>(
            UpsertAction::Update,
        ),
        (stored matches Some(v) && expected matches Some(e) && e != v) ==> upsert_outcome(stored, expected)
            == Err::<UpsertAction, (u64, u64)>((stored->0, expected->0)),
{
}

} // verus!
