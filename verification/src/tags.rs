//! Tag filters given as `key:value` query parameters.

use vstd::prelude::*;
use crate::text::{chars_of, string_from_chars};
use crate::routes::git::find_from;

verus! {

/// A tag filter entry: the key is what precedes the first `:`, the value
/// what follows it (and may hold further colons). `None` for an entry
/// without a colon.
pub open spec fn split_tag(t: Seq<char>) -> Option<(Seq<char>, Seq<char>)> {
    let i = find_from(t, ':', 0);
    if i >= t.len() {
        None
    } else {
        Some((t.subrange(0, i), t.subrange(i + 1, t.len() as int)))
    }
}

/// The filter that a list of entries makes: each well-formed entry maps its
/// key to its value, a later entry for a key replacing an earlier one.
pub open spec fn tag_map(tags: Seq<Seq<char>>) -> Map<Seq<char>, Seq<char>>
    decreases tags.len(),
{
    if tags.len() == 0 {
        Map::empty()
    } else {
        let m = tag_map(tags.drop_last());
        match split_tag(tags.last()) {
            Some((k, v)) => m.insert(k, v),
            None => m,
        }
    }
}

/// The map that a list of (key, value) pairs describes, later pairs winning.
pub open spec fn pairs_map(v: Seq<(Seq<char>, Seq<char>)>) -> Map<Seq<char>, Seq<char>>
    decreases v.len(),
{
    if v.len() == 0 {
        Map::empty()
    } else {
        pairs_map(v.drop_last()).insert(v.last().0, v.last().1)
    }
}

/// No key occurs twice.
pub open spec fn distinct_keys(v: Seq<(Seq<char>, Seq<char>)>) -> bool {
    forall|i: int, j: int| 0 <= i < j < v.len() ==> v[i].0 != v[j].0
}

/// The views of a list of string pairs.
pub open spec fn pair_views(v: Seq<(String, String)>) -> Seq<(Seq<char>, Seq<char>)> {
    v.map_values(|p: (String, String)| (p.0@, p.1@))
}

proof fn lemma_pairs_map(v: Seq<(Seq<char>, Seq<char>)>)
    requires
        distinct_keys(v),
    ensures
        pairs_map(v).dom().finite(),
        forall|k: Seq<char>| #[trigger] pairs_map(v).dom().contains(k) <==> exists|i: int| 0 <= i < v.len() && v[i].0 == k,
        forall|i: int| 0 <= i < v.len() ==> #[trigger] pairs_map(v)[v[i].0] == v[i].1,
    decreases v.len(),
{
    if v.len() > 0 {
        let p = v.drop_last();
        assert(distinct_keys(p));
        lemma_pairs_map(p);
        assert forall|k: Seq<char>| #[trigger] pairs_map(v).dom().contains(k) <==> exists|i: int| 0 <= i < v.len() && v[i].0 == k by {
            if pairs_map(v).dom().contains(k) && k != v.last().0 {
                assert(pairs_map(p).dom().contains(k));
                let i = choose|i: int| 0 <= i < p.len() && p[i].0 == k;
                assert(v[i].0 == k);
            }
            if k == v.last().0 {
                assert(v[v.len() - 1].0 == k);
            }
            if exists|i: int| 0 <= i < v.len() && v[i].0 == k {
                let i = choose|i: int| 0 <= i < v.len() && v[i].0 == k;
                if i < p.len() {
                    assert(p[i].0 == k);
                }
            }
        }
        assert forall|i: int| 0 <= i < v.len() implies #[trigger] pairs_map(v)[v[i].0] == v[i].1 by {
            if i < p.len() {
                assert(p[i] == v[i]);
                assert(v[i].0 != v[v.len() - 1].0);
                assert(pairs_map(p)[p[i].0] == p[i].1);
            }
        }
    }
}

proof fn lemma_pairs_map_ext(a: Seq<(Seq<char>, Seq<char>)>, m: Map<Seq<char>, Seq<char>>)
    requires
        distinct_keys(a),
        forall|k: Seq<char>| m.dom().contains(k) <==> exists|i: int| 0 <= i < a.len() && a[i].0 == k,
        forall|i: int| 0 <= i < a.len() ==> m[a[i].0] == a[i].1,
    ensures
        pairs_map(a) == m,
{
    lemma_pairs_map(a);
    assert forall|k: Seq<char>| #[trigger] pairs_map(a).dom().contains(k) implies pairs_map(a)[k] == m[k] by {
        let i = choose|i: int| 0 <= i < a.len() && a[i].0 == k;
        assert(pairs_map(a)[a[i].0] == a[i].1);
    }
    assert(pairs_map(a) =~= m);
}

/// Finds `key` among the pairs' keys.
fn find_key(pairs: &Vec<(String, String)>, key: &String) -> (r: Option<usize>)
    ensures
        r matches Some(i) ==> i < pairs.len() && pairs@[i as int].0@ == key@,
        r is None ==> forall|i: int| 0 <= i < pairs.len() ==> pairs@[i].0@ != key@,
{
    let mut i: usize = 0;
    while i < pairs.len()
        invariant
            i <= pairs.len(),
            forall|j: int| 0 <= j < i ==> pairs@[j].0@ != key@,
        decreases pairs.len() - i,
    {
        if pairs[i].0 == *key {
            return Some(i);
        }
        i = i + 1;
    }
    None
}

/// Splits one entry at its first colon.
fn split_tag_exec(t: &String) -> (r: Option<(String, String)>)
    ensures
        match split_tag(t@) {
            Some((k, v)) => r matches Some(p) && p.0@ == k && p.1@ == v,
            None => r is None,
        },
{
    let c = chars_of(t.as_str());
    let mut i: usize = 0;
    while i < c.len() && c[i] != ':'
        invariant
            c@ == t@,
            i <= c.len(),
            forall|j: int| 0 <= j < i ==> c@[j] != ':',
        decreases c.len() - i,
    {
        i = i + 1;
    }
    proof {
        crate::routes::git::lemma_find_from_position(t@, ':', 0, i as int);
    }
    if i >= c.len() {
        None
    } else {
        let k = string_from_chars(&c, 0, i);
        let v = string_from_chars(&c, i + 1, c.len());
        Some((k, v))
    }
}

/// The filter that tag query parameters (`key:value`) describe, with later
/// entries for a key replacing earlier ones. `None` when no tags were given
/// or none of them holds a colon.
pub fn parse_tag_filter(tags: Option<Vec<String>>) -> (r: Option<Vec<(String, String)>>)
    ensures
        r matches Some(p) ==> distinct_keys(pair_views(p@)),
        tags is None ==> r is None,
        tags matches Some(list) ==> {
            let m = tag_map(crate::text::string_views(list@));
            &&& m.dom().len() == 0 ==> r is None
            &&& m.dom().len() > 0 ==> (r matches Some(p) && pairs_map(pair_views(p@)) == m)
        },
{
    match tags {
        None => None,
        Some(list) => {
            let mut pairs: Vec<(String, String)> = Vec::new();
            let mut i: usize = 0;
            let ghost views = crate::text::string_views(list@);
            while i < list.len()
                invariant
                    i <= list.len(),
                    views == crate::text::string_views(list@),
                    distinct_keys(pair_views(pairs@)),
                    pairs_map(pair_views(pairs@)) == tag_map(views.take(i as int)),
                decreases list.len() - i,
            {
                assert(views.take(i + 1).drop_last() =~= views.take(i as int));
                let ghost before = pair_views(pairs@);
                match split_tag_exec(&list[i]) {
                    Some((k, v)) => {
                        proof {
                            lemma_pairs_map(before);
                        }
                        match find_key(&pairs, &k) {
                            Some(j) => {
                                proof {
                                    assert(before[j as int].0 == k@);
                                }
                                pairs.set(j, (k, v));
                                proof {
                                    let after = pair_views(pairs@);
                                    assert(after =~= before.update(j as int, (k@, v@)));
                                    assert forall|x: int| 0 <= x < after.len() implies after[x].0 == before[x].0 by {}
                                    assert(distinct_keys(after));
                                    let m = pairs_map(before).insert(k@, v@);
                                    assert forall|key: Seq<char>| m.dom().contains(key) <==> exists|x: int| 0 <= x < after.len() && after[x].0 == key by {
                                        if m.dom().contains(key) && key != k@ {
                                            let x = choose|x: int| 0 <= x < before.len() && before[x].0 == key;
                                            assert(after[x].0 == key);
                                        }
                                        if key == k@ {
                                            assert(after[j as int].0 == key);
                                        }
                                        if exists|x: int| 0 <= x < after.len() && after[x].0 == key {
                                            let x = choose|x: int| 0 <= x < after.len() && after[x].0 == key;
                                            if x != j {
                                                assert(before[x].0 == key);
                                            }
                                        }
                                    }
                                    assert forall|x: int| 0 <= x < after.len() implies m[after[x].0] == after[x].1 by {
                                        if x != j {
                                            assert(before[x] == after[x]);
                                            assert(before[x].0 != k@);
                                        }
                                    }
                                    lemma_pairs_map_ext(after, m);
                                }
                            },
                            None => {
                                pairs.push((k, v));
                                proof {
                                    let after = pair_views(pairs@);
                                    assert(after =~= before.push((k@, v@)));
                                    assert(after.drop_last() =~= before);
                                }
                            },
                        }
                    },
                    None => {},
                }
                i = i + 1;
            }
            assert(views.take(list.len() as int) =~= views);
            proof {
                lemma_pairs_map(pair_views(pairs@));
                if pairs.len() > 0 {
                    assert(pairs_map(pair_views(pairs@)).dom().contains(pair_views(pairs@)[0].0));
                    vstd::set::axiom_set_contains_len(pairs_map(pair_views(pairs@)).dom(), pair_views(pairs@)[0].0);
                }
                if pairs.len() == 0 {
                    assert(pairs_map(pair_views(pairs@)) =~= Map::<Seq<char>, Seq<char>>::empty());
                }
            }
            if pairs.len() == 0 {
                None
            } else {
                Some(pairs)
            }
        },
    }
}

/// A later tag for a key wins: appending a well-formed entry sets its key to
/// its value and leaves every other key as it was; appending an entry
/// without a colon changes nothing.
pub proof fn lemma_later_tag_wins(tags: Seq<Seq<char>>, t: Seq<char>)
    ensures
        split_tag(t) matches Some((k, v)) ==> tag_map(tags.push(t)) == tag_map(tags).insert(k, v),
        split_tag(t) is None ==> tag_map(tags.push(t)) == tag_map(tags),
{
    assert(tags.push(t).drop_last() =~= tags);
}

} // verus!
