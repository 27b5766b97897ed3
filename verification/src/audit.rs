//! The audit log query: which filters a query sets, in what order they are
//! written into the SQL `WHERE` clause, and the values bound to them.

use vstd::prelude::*;
use vstd::string::StringExecFns;

verus! {

broadcast use vstd::string::group_string_axioms;

/// The filters of an audit log query; timestamps are RFC 3339 texts.
#[derive(Debug)]
pub struct AuditQuery {
    pub event_type: Option<String>,
    pub actor_id: Option<String>,
    pub resource_type: Option<String>,
    pub resource_id: Option<String>,
    pub from: Option<String>,
    pub to: Option<String>,
}

/// The conditions so far, with one more when its value is set.
pub open spec fn with_condition(c: Seq<(Seq<char>, Seq<char>)>, cond: Seq<char>, value: Option<String>) -> Seq<(Seq<char>, Seq<char>)> {
    match value {
        Some(v) => c.push((cond, v@)),
        None => c,
    }
}

/// The conditions of a query and their values, in the fixed order event
/// type, actor, resource type, resource id, from, to; each filter that is
/// set adds one.
pub open spec fn audit_conditions(q: AuditQuery) -> Seq<(Seq<char>, Seq<char>)> {
    with_condition(
        with_condition(
            with_condition(
                with_condition(
                    with_condition(with_condition(Seq::empty(), "event_type = ?"@, q.event_type), "actor_user_id = ?"@, q.actor_id),
                    "resource_type = ?"@,
                    q.resource_type,
                ),
                "resource_id = ?"@,
                q.resource_id,
            ),
            "timestamp >= ?"@,
            q.from,
        ),
        "timestamp <= ?"@,
        q.to,
    )
}

/// Conditions joined with ` AND `.
pub open spec fn and_joined(c: Seq<(Seq<char>, Seq<char>)>) -> Seq<char>
    decreases c.len(),
{
    if c.len() == 0 {
        Seq::empty()
    } else if c.len() == 1 {
        c[0].0
    } else {
        and_joined(c.drop_last()) + " AND "@ + c.last().0
    }
}

/// The `WHERE` clause of a list of conditions: empty without conditions.
pub open spec fn clause_of(c: Seq<(Seq<char>, Seq<char>)>) -> Seq<char> {
    if c.len() == 0 {
        Seq::empty()
    } else {
        "WHERE "@ + and_joined(c)
    }
}

/// The values bound to a list of conditions, in order.
pub open spec fn values_of(c: Seq<(Seq<char>, Seq<char>)>) -> Seq<Seq<char>> {
    c.map_values(|x: (Seq<char>, Seq<char>)| x.1)
}

/// The views of a list of strings.
pub open spec fn views(v: Seq<String>) -> Seq<Seq<char>> {
    v.map_values(|s: String| s@)
}

fn add_condition(
    clause: String,
    binds: &mut Vec<String>,
    Ghost(c): Ghost<Seq<(Seq<char>, Seq<char>)>>,
    cond: &str,
    value: &Option<String>,
) -> (r: String)
    requires
        clause@ == clause_of(c),
        views(old(binds)@) == values_of(c),
    ensures
        r@ == clause_of(with_condition(c, cond@, *value)),
        views(final(binds)@) == values_of(with_condition(c, cond@, *value)),
{
    match value {
        Some(v) => {
            let was_empty = binds.len() == 0;
            let ghost n = c.push((cond@, v@));
            let ghost before = binds@;
            binds.push(v.clone());
            proof {
                assert(n.drop_last() =~= c);
                assert(views(before).len() == before.len());
                assert(values_of(c).len() == c.len());
                assert(before.len() == c.len());
                assert(binds@.len() == before.len() + 1);
                assert(views(binds@).len() == values_of(n).len());
                assert forall|i: int| 0 <= i < n.len() implies views(binds@)[i] == values_of(n)[i] by {
                    if i < c.len() {
                        assert(views(before)[i] == values_of(c)[i]);
                        assert(binds@[i] == before[i]);
                    }
                }
                assert(views(binds@) =~= values_of(n));
            }
            if was_empty {
                "WHERE ".to_string().concat(cond)
            } else {
                clause.concat(" AND ").concat(cond)
            }
        },
        None => clause,
    }
}

/// Builds the `WHERE` clause of a query and the values to bind, in order.
pub fn audit_filter(q: &AuditQuery) -> (r: (String, Vec<String>))
    ensures
        r.0@ == clause_of(audit_conditions(*q)),
        views(r.1@) == values_of(audit_conditions(*q)),
{
    let mut binds: Vec<String> = Vec::new();
    let ghost c0: Seq<(Seq<char>, Seq<char>)> = Seq::empty();
    proof {
        assert(views(binds@) =~= values_of(c0));
    }
    let clause = add_condition(String::new(), &mut binds, Ghost(c0), "event_type = ?", &q.event_type);
    let ghost c1 = with_condition(c0, "event_type = ?"@, q.event_type);
    let clause = add_condition(clause, &mut binds, Ghost(c1), "actor_user_id = ?", &q.actor_id);
    let ghost c2 = with_condition(c1, "actor_user_id = ?"@, q.actor_id);
    let clause = add_condition(clause, &mut binds, Ghost(c2), "resource_type = ?", &q.resource_type);
    let ghost c3 = with_condition(c2, "resource_type = ?"@, q.resource_type);
    let clause = add_condition(clause, &mut binds, Ghost(c3), "resource_id = ?", &q.resource_id);
    let ghost c4 = with_condition(c3, "resource_id = ?"@, q.resource_id);
    let clause = add_condition(clause, &mut binds, Ghost(c4), "timestamp >= ?", &q.from);
    let ghost c5 = with_condition(c4, "timestamp >= ?"@, q.from);
    let clause = add_condition(clause, &mut binds, Ghost(c5), "timestamp <= ?", &q.to);
    (clause, binds)
}

/// How many filters of the query are set.
pub open spec fn filters_set(q: AuditQuery) -> nat {
    (if q.event_type is Some { 1nat } else { 0nat }) + (if q.actor_id is Some { 1nat } else { 0nat }) + (
    if q.resource_type is Some { 1nat } else { 0nat }) + (if q.resource_id is Some { 1nat } else { 0nat }) + (
    if q.from is Some { 1nat } else { 0nat }) + (if q.to is Some { 1nat } else { 0nat })
}

proof fn lemma_with_condition_keeps(c: Seq<(Seq<char>, Seq<char>)>, cond: Seq<char>, value: Option<String>, x: (Seq<char>, Seq<char>))
    requires
        c.contains(x),
    ensures
        with_condition(c, cond, value).contains(x),
        with_condition(c, cond, value).len() == c.len() + if value is Some { 1nat } else { 0nat },
{
    if let Some(v) = value {
        let i = choose|i: int| 0 <= i < c.len() && c[i] == x;
        assert(c.push((cond, v@))[i] == x);
    }
}

proof fn lemma_with_condition_adds(c: Seq<(Seq<char>, Seq<char>)>, cond: Seq<char>, value: Option<String>)
    ensures
        value matches Some(v) ==> with_condition(c, cond, value).contains((cond, v@)),
        with_condition(c, cond, value).len() == c.len() + if value is Some { 1nat } else { 0nat },
{
    if let Some(v) = value {
        assert(c.push((cond, v@))[c.len() as int] == (cond, v@));
    }
}

/// Every filter that is set becomes one condition, with its own fixed
/// test, bound to its value, and nothing else does: the event type, actor,
/// resource type and resource id are matched for equality, `from` is a
/// lower bound on the timestamp (`timestamp >= ?`) and `to` an upper bound
/// (`timestamp <= ?`). A query that sets only `from` (or only `to`, or only
/// both) filters by exactly that.
pub proof fn lemma_audit_filters_mean_what_they_say(q: AuditQuery)
    ensures
        audit_conditions(q).len() == filters_set(q),
        q.event_type matches Some(v) ==> audit_conditions(q).contains(("event_type = ?"@, v@)),
        q.actor_id matches Some(v) ==> audit_conditions(q).contains(("actor_user_id = ?"@, v@)),
        q.resource_type matches Some(v) ==> audit_conditions(q).contains(("resource_type = ?"@, v@)),
        q.resource_id matches Some(v) ==> audit_conditions(q).contains(("resource_id = ?"@, v@)),
        q.from matches Some(v) ==> audit_conditions(q).contains(("timestamp >= ?"@, v@)),
        q.to matches Some(v) ==> audit_conditions(q).contains(("timestamp <= ?"@, v@)),
        q.event_type is None && q.actor_id is None && q.resource_type is None && q.resource_id is None ==> {
            &&& (q.from is Some && q.to is None) ==> clause_of(audit_conditions(q)) == "WHERE timestamp >= ?"@
                && values_of(audit_conditions(q)) == seq![q.from->0@]
            &&& (q.to is Some && q.from is None) ==> clause_of(audit_conditions(q)) == "WHERE timestamp <= ?"@
                && values_of(audit_conditions(q)) == seq![q.to->0@]
            &&& (q.from is Some && q.to is Some) ==> clause_of(audit_conditions(q))
                == "WHERE timestamp >= ? AND timestamp <= ?"@ && values_of(audit_conditions(q)) == seq![
                q.from->0@,
                q.to->0@,
            ]
        },
{
    let c0: Seq<(Seq<char>, Seq<char>)> = Seq::empty();
    let c1 = with_condition(c0, "event_type = ?"@, q.event_type);
    let c2 = with_condition(c1, "actor_user_id = ?"@, q.actor_id);
    let c3 = with_condition(c2, "resource_type = ?"@, q.resource_type);
    let c4 = with_condition(c3, "resource_id = ?"@, q.resource_id);
    let c5 = with_condition(c4, "timestamp >= ?"@, q.from);
    let c6 = with_condition(c5, "timestamp <= ?"@, q.to);
    assert(c6 == audit_conditions(q));
    lemma_with_condition_adds(c0, "event_type = ?"@, q.event_type);
    lemma_with_condition_adds(c1, "actor_user_id = ?"@, q.actor_id);
    lemma_with_condition_adds(c2, "resource_type = ?"@, q.resource_type);
    lemma_with_condition_adds(c3, "resource_id = ?"@, q.resource_id);
    lemma_with_condition_adds(c4, "timestamp >= ?"@, q.from);
    lemma_with_condition_adds(c5, "timestamp <= ?"@, q.to);
    if let Some(v) = q.event_type {
        let x = ("event_type = ?"@, v@);
        lemma_with_condition_keeps(c1, "actor_user_id = ?"@, q.actor_id, x);
        lemma_with_condition_keeps(c2, "resource_type = ?"@, q.resource_type, x);
        lemma_with_condition_keeps(c3, "resource_id = ?"@, q.resource_id, x);
        lemma_with_condition_keeps(c4, "timestamp >= ?"@, q.from, x);
        lemma_with_condition_keeps(c5, "timestamp <= ?"@, q.to, x);
    }
    if let Some(v) = q.actor_id {
        let x = ("actor_user_id = ?"@, v@);
        lemma_with_condition_keeps(c2, "resource_type = ?"@, q.resource_type, x);
        lemma_with_condition_keeps(c3, "resource_id = ?"@, q.resource_id, x);
        lemma_with_condition_keeps(c4, "timestamp >= ?"@, q.from, x);
        lemma_with_condition_keeps(c5, "timestamp <= ?"@, q.to, x);
    }
    if let Some(v) = q.resource_type {
        let x = ("resource_type = ?"@, v@);
        lemma_with_condition_keeps(c3, "resource_id = ?"@, q.resource_id, x);
        lemma_with_condition_keeps(c4, "timestamp >= ?"@, q.from, x);
        lemma_with_condition_keeps(c5, "timestamp <= ?"@, q.to, x);
    }
    if let Some(v) = q.resource_id {
        let x = ("resource_id = ?"@, v@);
        lemma_with_condition_keeps(c4, "timestamp >= ?"@, q.from, x);
        lemma_with_condition_keeps(c5, "timestamp <= ?"@, q.to, x);
    }
    if let Some(v) = q.from {
        let x = ("timestamp >= ?"@, v@);
        lemma_with_condition_keeps(c5, "timestamp <= ?"@, q.to, x);
    }
    if q.event_type is None && q.actor_id is None && q.resource_type is None && q.resource_id is None {
        assert(c4 == c0);
        reveal_strlit("WHERE ");
        reveal_strlit(" AND ");
        reveal_strlit("timestamp >= ?");
        reveal_strlit("timestamp <= ?");
        reveal_strlit("WHERE timestamp >= ?");
        reveal_strlit("WHERE timestamp <= ?");
        reveal_strlit("WHERE timestamp >= ? AND timestamp <= ?");
        if let Some(f) = q.from {
            assert(c5 == seq![("timestamp >= ?"@, f@)]);
            if let Some(t) = q.to {
                assert(c6 == seq![("timestamp >= ?"@, f@), ("timestamp <= ?"@, t@)]);
                assert(c6.drop_last() =~= c5);
                assert(and_joined(c6) == and_joined(c5) + " AND "@ + c6.last().0);
                assert(clause_of(c6) =~= "WHERE timestamp >= ? AND timestamp <= ?"@);
                assert(values_of(c6) =~= seq![f@, t@]);
            } else {
                assert(clause_of(c6) =~= "WHERE timestamp >= ?"@);
                assert(values_of(c6) =~= seq![f@]);
            }
        } else if let Some(t) = q.to {
            assert(c6 == seq![("timestamp <= ?"@, t@)]);
            assert(clause_of(c6) =~= "WHERE timestamp <= ?"@);
            assert(values_of(c6) =~= seq![t@]);
        }
    }
}

} // verus!
