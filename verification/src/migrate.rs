//! Schema migrations: how a migration script is cut into the statements
//! that are executed one by one, and what an error of the database means
//! for the run (stop, pass over, or log and go on).

use vstd::prelude::*;
use crate::text::{
    chars_of, contains, contains_seq, find_chars_from, find_seq_from, is_whitespace, is_ws, lemma_find_seq_from,
    occurs_at, split_on_seq, split_on_str, string_from_chars, string_views, trim_bounds, trim_ws,
};

verus! {

broadcast use vstd::string::group_string_axioms;

// ---------------------------------------------------------------------------
// Cutting scripts into statements
// ---------------------------------------------------------------------------

/// `s` holds nothing but white space (it trims to nothing).
pub open spec fn is_blank(s: Seq<char>) -> bool {
    forall|k: int| 0 <= k < s.len() ==> is_ws(s[k])
}

/// The pieces that hold more than white space, as they stand, in order.
pub open spec fn nonblank_pieces(parts: Seq<Seq<char>>) -> Seq<Seq<char>>
    decreases parts.len(),
{
    if parts.len() == 0 {
        seq![]
    } else {
        let rest = nonblank_pieces(parts.drop_last());
        if is_blank(parts.last()) {
            rest
        } else {
            rest.push(parts.last())
        }
    }
}

fn is_blank_str(s: &str) -> (r: bool)
    ensures
        r == is_blank(s@),
{
    let v = chars_of(s);
    let mut i: usize = 0;
    while i < v.len()
        invariant
            i <= v.len(),
            v@ == s@,
            forall|k: int| 0 <= k < i ==> is_ws(v@[k]),
        decreases v.len() - i,
    {
        if !is_whitespace(v[i]) {
            return false;
        }
        i = i + 1;
    }
    true
}

/// The statements of a migration script: the pieces between its semicolons
/// that hold more than white space, untrimmed and in order.
pub fn sql_statements(script: &str) -> (r: Vec<String>)
    ensures
        string_views(r@) == nonblank_pieces(split_on_seq(script@, ";"@)),
{
    proof {
        reveal_strlit(";");
    }
    let parts = split_on_str(script, ";");
    let ghost views = string_views(parts@);
    let mut out: Vec<String> = Vec::new();
    let mut i: usize = 0;
    while i < parts.len()
        invariant
            i <= parts.len(),
            views == string_views(parts@),
            views == split_on_seq(script@, ";"@),
            string_views(out@) == nonblank_pieces(views.take(i as int)),
        decreases parts.len() - i,
    {
        assert(views.take(i + 1).drop_last() =~= views.take(i as int));
        let blank = is_blank_str(parts[i].as_str());
        if !blank {
            out.push(parts[i].clone());
            assert(string_views(out@) =~= nonblank_pieces(views.take(i as int)).push(views[i as int]));
        }
        i = i + 1;
    }
    assert(views.take(i as int) =~= views);
    out
}

/// The statements of the full-text migration after its table: each block
/// before an `END;`, trimmed, that creates a trigger, with its `END;` put
/// back.
pub open spec fn trigger_statements(blocks: Seq<Seq<char>>) -> Seq<Seq<char>>
    decreases blocks.len(),
{
    if blocks.len() == 0 {
        seq![]
    } else {
        let rest = trigger_statements(blocks.drop_last());
        let t = trim_ws(blocks.last());
        if contains_seq(t, "CREATE TRIGGER"@) {
            rest.push(t + " END;"@)
        } else {
            rest
        }
    }
}

/// Where the full-text table's statement ends: just after the first `);`.
pub open spec fn table_end(script: Seq<char>) -> int {
    find_seq_from(script, ");"@, 0) + 2
}

/// The full-text migration cut into its table and its triggers.
#[derive(Debug)]
pub struct FullTextScript {
    pub table: String,
    pub triggers: Vec<String>,
}

proof fn lemma_contains_iff_found(s: Seq<char>, n: Seq<char>)
    requires
        n.len() > 0,
    ensures
        contains_seq(s, n) <==> find_seq_from(s, n, 0) < s.len(),
{
    lemma_find_seq_from(s, n, 0);
    if contains_seq(s, n) {
        let i = choose|i: int| occurs_at(s, n, i);
        assert(!occurs_at(s, n, i) || find_seq_from(s, n, 0) <= i);
    }
}

/// Cuts the full-text migration: the table is the text up to the first `);`
/// (included), trimmed; the triggers come from the text after it. `None`
/// when the script has no `);`, and then nothing of it is executed.
pub fn full_text_statements(script: &str) -> (r: Option<FullTextScript>)
    ensures
        r is None <==> !contains_seq(script@, ");"@),
        r matches Some(f) ==> {
            &&& f.table@ == trim_ws(script@.take(table_end(script@)))
            &&& string_views(f.triggers@) == trigger_statements(
                split_on_seq(script@.skip(table_end(script@)), "END;"@),
            )
        },
{
    proof {
        reveal_strlit(");");
        reveal_strlit("END;");
    }
    let v = chars_of(script);
    let n = chars_of(");");
    let idx = find_chars_from(&v, &n, 0);
    proof {
        lemma_find_seq_from(v@, n@, 0);
        lemma_contains_iff_found(v@, n@);
    }
    if idx >= v.len() {
        return None;
    }
    let end = idx + 2;
    let (a, b) = trim_bounds(&v, 0, end);
    let table = string_from_chars(&v, a, b);
    assert(v@.subrange(0, end as int) =~= script@.take(end as int));
    let rest = string_from_chars(&v, end, v.len());
    assert(rest@ =~= script@.skip(end as int));
    let blocks = split_on_str(rest.as_str(), "END;");
    let ghost views = string_views(blocks@);
    let mut triggers: Vec<String> = Vec::new();
    let mut i: usize = 0;
    while i < blocks.len()
        invariant
            i <= blocks.len(),
            views == string_views(blocks@),
            string_views(triggers@) == trigger_statements(views.take(i as int)),
        decreases blocks.len() - i,
    {
        assert(views.take(i + 1).drop_last() =~= views.take(i as int));
        let bv = chars_of(blocks[i].as_str());
        let (a, b) = trim_bounds(&bv, 0, bv.len());
        assert(bv@.subrange(0, bv.len() as int) =~= views[i as int]);
        let t = string_from_chars(&bv, a, b);
        if contains(t.as_str(), "CREATE TRIGGER") {
            let stmt = t.concat(" END;");
            triggers.push(stmt);
            assert(string_views(triggers@) =~= trigger_statements(views.take(i as int)).push(
                trim_ws(views[i as int]) + " END;"@,
            ));
        }
        i = i + 1;
    }
    assert(views.take(i as int) =~= views);
    Some(FullTextScript { table, triggers })
}

// ---------------------------------------------------------------------------
// Errors
// ---------------------------------------------------------------------------

/// How a statement treats an error of the database.
#[derive(Debug, Clone, Copy, PartialEq, Eq, Structural)]
pub enum ErrorPolicy {
    /// Any error stops the run.
    Strict,
    /// An error saying that a column is a duplicate or that something
    /// already exists is passed over; any other stops the run.
    Tolerant,
    /// The full-text table: an error saying that something already exists
    /// is passed over; any other is logged and the run goes on.
    FullTextTable,
    /// A full-text trigger: an error that says something already exists, or
    /// that speaks of a trigger, is passed over; any other is logged and the
    /// run goes on.
    FullTextTrigger,
}

/// What the run does after a statement failed.
#[derive(Debug, Clone, Copy, PartialEq, Eq, Structural)]
pub enum ErrorAction {
    /// Stop, and report the error.
    Abort,
    /// Go on silently.
    Ignore,
    /// Log the error and go on.
    Warn,
}

/// The action for an error with message `msg` under `policy`.
pub open spec fn error_action_of(policy: ErrorPolicy, msg: Seq<char>) -> ErrorAction {
    let present = contains_seq(msg, "already exists"@);
    match policy {
        ErrorPolicy::Strict => ErrorAction::Abort,
        ErrorPolicy::Tolerant => if present || contains_seq(msg, "duplicate column"@) {
            ErrorAction::Ignore
        } else {
            ErrorAction::Abort
        },
        ErrorPolicy::FullTextTable => if present {
            ErrorAction::Ignore
        } else {
            ErrorAction::Warn
        },
        ErrorPolicy::FullTextTrigger => if present || contains_seq(msg, "trigger"@) {
            ErrorAction::Ignore
        } else {
            ErrorAction::Warn
        },
    }
}

/// Decides what a failed statement means for the run.
pub fn error_action(policy: ErrorPolicy, msg: &str) -> (r: ErrorAction)
    ensures
        r == error_action_of(policy, msg@),
{
    match policy {
        ErrorPolicy::Strict => ErrorAction::Abort,
        ErrorPolicy::Tolerant => {
            if contains(msg, "already exists") || contains(msg, "duplicate column") {
                ErrorAction::Ignore
            } else {
                ErrorAction::Abort
            }
        },
        ErrorPolicy::FullTextTable => {
            if contains(msg, "already exists") {
                ErrorAction::Ignore
            } else {
                ErrorAction::Warn
            }
        },
        ErrorPolicy::FullTextTrigger => {
            if contains(msg, "already exists") || contains(msg, "trigger") {
                ErrorAction::Ignore
            } else {
                ErrorAction::Warn
            }
        },
    }
}

// ---------------------------------------------------------------------------
// The steps of a run
// ---------------------------------------------------------------------------

/// How a migration script is executed.
#[derive(Debug, Clone, Copy, PartialEq, Eq, Structural)]
pub enum MigrationStep {
    /// The whole script as one statement, under the given policy.
    Whole(ErrorPolicy),
    /// Statement by statement (`sql_statements`), each tolerant.
    Statements,
    /// The full-text table, then its triggers (`full_text_statements`).
    FullText,
}

/// The number of migrations of the server's database; they are numbered
/// from 1 and run in that order.
pub const MIGRATION_COUNT: u32 = 17;

/// The number of leading migrations that the thread store runs when it
/// opens a database by itself.
pub const THREAD_STORE_MIGRATION_COUNT: u32 = 7;

/// How the migration with the given number is executed: the first as one
/// strict statement, the second and third as one tolerant statement each,
/// the fifth (full-text search) as a table and triggers, and the others
/// statement by statement.
pub open spec fn step_of(number: u32) -> Option<MigrationStep> {
    if number == 1 {
        Some(MigrationStep::Whole(ErrorPolicy::Strict))
    } else if number == 2 || number == 3 {
        Some(MigrationStep::Whole(ErrorPolicy::Tolerant))
    } else if number == 5 {
        Some(MigrationStep::FullText)
    } else if 4 <= number <= MIGRATION_COUNT {
        Some(MigrationStep::Statements)
    } else {
        None
    }
}

/// How the migration with the given number is executed; `None` for a
/// number that names no migration.
pub fn migration_step(number: u32) -> (r: Option<MigrationStep>)
    ensures
        r == step_of(number),
{
    if number == 1 {
        Some(MigrationStep::Whole(ErrorPolicy::Strict))
    } else if number == 2 || number == 3 {
        Some(MigrationStep::Whole(ErrorPolicy::Tolerant))
    } else if number == 5 {
        Some(MigrationStep::FullText)
    } else if 4 <= number && number <= MIGRATION_COUNT {
        Some(MigrationStep::Statements)
    } else {
        None
    }
}

/// Each statement paired with the policy for its errors.
pub open spec fn planned(stmts: Seq<Seq<char>>, policy: ErrorPolicy) -> Seq<(Seq<char>, ErrorPolicy)> {
    stmts.map_values(|s: Seq<char>| (s, policy))
}

/// What a step executes, in order, each statement with its policy.
pub open spec fn step_plan(step: MigrationStep, script: Seq<char>) -> Seq<(Seq<char>, ErrorPolicy)> {
    match step {
        MigrationStep::Whole(p) => seq![(script, p)],
        MigrationStep::Statements => planned(nonblank_pieces(split_on_seq(script, ";"@)), ErrorPolicy::Tolerant),
        MigrationStep::FullText => if contains_seq(script, ");"@) {
            seq![(trim_ws(script.take(table_end(script))), ErrorPolicy::FullTextTable)] + planned(
                trigger_statements(split_on_seq(script.skip(table_end(script)), "END;"@)),
                ErrorPolicy::FullTextTrigger,
            )
        } else {
            seq![]
        },
    }
}

/// The views of planned statements.
pub open spec fn plan_views(v: Seq<(String, ErrorPolicy)>) -> Seq<(Seq<char>, ErrorPolicy)> {
    v.map_values(|x: (String, ErrorPolicy)| (x.0@, x.1))
}

fn push_planned(out: &mut Vec<(String, ErrorPolicy)>, stmts: &Vec<String>, policy: ErrorPolicy)
    ensures
        plan_views(final(out)@) == plan_views(old(out)@) + planned(string_views(stmts@), policy),
{
    let ghost start = plan_views(out@);
    let mut i: usize = 0;
    while i < stmts.len()
        invariant
            i <= stmts.len(),
            plan_views(out@) == start + planned(string_views(stmts@).take(i as int), policy),
        decreases stmts.len() - i,
    {
        out.push((stmts[i].clone(), policy));
        assert(planned(string_views(stmts@).take(i + 1), policy) =~= planned(
            string_views(stmts@).take(i as int),
            policy,
        ).push((stmts@[i as int]@, policy)));
        assert(plan_views(out@) =~= (start + planned(string_views(stmts@).take(i as int), policy)).push(
            (stmts@[i as int]@, policy),
        ));
        i = i + 1;
    }
    assert(string_views(stmts@).take(i as int) =~= string_views(stmts@));
}

/// The statements that a step executes for its script, in order, each
/// with the policy for its errors.
pub fn step_statements(step: MigrationStep, script: &str) -> (r: Vec<(String, ErrorPolicy)>)
    ensures
        plan_views(r@) == step_plan(step, script@),
{
    let mut out: Vec<(String, ErrorPolicy)> = Vec::new();
    match step {
        MigrationStep::Whole(p) => {
            out.push((script.to_string(), p));
            assert(plan_views(out@) =~= seq![(script@, p)]);
        },
        MigrationStep::Statements => {
            let stmts = sql_statements(script);
            push_planned(&mut out, &stmts, ErrorPolicy::Tolerant);
            assert(plan_views(out@) =~= planned(string_views(stmts@), ErrorPolicy::Tolerant));
        },
        MigrationStep::FullText => {
            match full_text_statements(script) {
                None => {
                    assert(plan_views(out@) =~= Seq::<(Seq<char>, ErrorPolicy)>::empty());
                },
                Some(f) => {
                    out.push((f.table, ErrorPolicy::FullTextTable));
                    push_planned(&mut out, &f.triggers, ErrorPolicy::FullTextTrigger);
                },
            }
        },
    }
    out
}

/// Running the migrations again over a database that they already built
/// does no harm: in every step but the strict first one, a statement that
/// fails because what it creates already exists is passed over.
pub proof fn lemma_rerun_passes_over_existing(step: MigrationStep, script: Seq<char>, msg: Seq<char>, i: int)
    requires
        step != MigrationStep::Whole(ErrorPolicy::Strict),
        0 <= i < step_plan(step, script).len(),
        contains_seq(msg, "already exists"@),
    ensures
        error_action_of(step_plan(step, script)[i].1, msg) == ErrorAction::Ignore,
{
}

/// The full-text step never stops the run: whatever its statements fail
/// with is passed over or logged.
pub proof fn lemma_full_text_never_aborts(script: Seq<char>, msg: Seq<char>, i: int)
    requires
        0 <= i < step_plan(MigrationStep::FullText, script).len(),
    ensures
        error_action_of(step_plan(MigrationStep::FullText, script)[i].1, msg) != ErrorAction::Abort,
{
}

} // verus!
