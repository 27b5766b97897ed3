//! The listing of the binary directory: in which order the entries are
//! shown (directories first, then by name) and the HTML page that lists
//! them. Reading the directory and formatting file sizes stay with the
//! server.

use vstd::prelude::*;
use vstd::string::StringExecFns;
use crate::text::{lemma_str_lt_total, lemma_str_lt_transitive, str_less, str_lt};

verus! {

broadcast use vstd::string::group_string_axioms;

/// One entry of the directory.
#[derive(Debug)]
pub struct BinEntry {
    pub name: String,
    pub is_dir: bool,
    /// The size as shown for a file.
    pub size_text: String,
    /// The modification time as shown, `-` when unknown.
    pub modified: String,
}

/// `a` is listed before `b`: directories before files, and by name among
/// entries of the same kind.
pub open spec fn listed_before(a: BinEntry, b: BinEntry) -> bool {
    (a.is_dir && !b.is_dir) || (a.is_dir == b.is_dir && str_lt(a.name@, b.name@))
}

proof fn lemma_listed_before_order(a: BinEntry, b: BinEntry, c: BinEntry)
    ensures
        !listed_before(a, a),
        listed_before(a, b) ==> !listed_before(b, a),
        listed_before(a, b) && listed_before(b, c) ==> listed_before(a, c),
        !listed_before(a, b) && !listed_before(b, c) ==> !listed_before(a, c),
{
    lemma_str_lt_total(a.name@, b.name@);
    lemma_str_lt_total(b.name@, c.name@);
    lemma_str_lt_total(a.name@, c.name@);
    if str_lt(a.name@, b.name@) && str_lt(b.name@, c.name@) {
        lemma_str_lt_transitive(a.name@, b.name@, c.name@);
    }
    if str_lt(c.name@, b.name@) && str_lt(b.name@, a.name@) {
        lemma_str_lt_transitive(c.name@, b.name@, a.name@);
    }
    if !str_lt(a.name@, b.name@) && !str_lt(b.name@, c.name@) && str_lt(a.name@, c.name@) {
        if str_lt(b.name@, a.name@) {
            lemma_str_lt_transitive(b.name@, a.name@, c.name@);
        }
    }
}

/// Neither entry is listed before the other: same kind, same name.
pub open spec fn listed_alike(a: BinEntry, b: BinEntry) -> bool {
    !listed_before(a, b) && !listed_before(b, a)
}

/// `order` lists each entry exactly once, no entry comes after one listed
/// before it, and entries listed alike keep the order they came in (the
/// sort is stable).
pub open spec fn listing_order(entries: Seq<BinEntry>, order: Seq<usize>) -> bool {
    &&& order.len() == entries.len()
    &&& forall|k: int| 0 <= k < order.len() ==> #[trigger] order[k] < entries.len()
    &&& forall|k: int, l: int| 0 <= k < l < order.len() ==> order[k] != order[l]
    &&& forall|k: int, l: int|
        0 <= k < l < order.len() ==> !listed_before(entries[order[l] as int], entries[order[k] as int])
    &&& forall|k: int, l: int|
        0 <= k < l < order.len() && listed_alike(entries[order[k] as int], entries[order[l] as int])
            ==> order[k] < order[l]
}

fn before(a: &BinEntry, b: &BinEntry) -> (r: bool)
    ensures
        r == listed_before(*a, *b),
{
    if a.is_dir && !b.is_dir {
        true
    } else if a.is_dir == b.is_dir {
        str_less(a.name.as_str(), b.name.as_str())
    } else {
        false
    }
}

/// The order in which the entries are listed (a stable sort).
pub fn listing(entries: &Vec<BinEntry>) -> (r: Vec<usize>)
    ensures
        listing_order(entries@, r@),
{
    let mut order: Vec<usize> = Vec::new();
    let mut i: usize = 0;
    while i < entries.len()
        invariant
            i <= entries.len(),
            order.len() == i,
            forall|k: int| 0 <= k < order.len() ==> #[trigger] order@[k] < i,
            forall|k: int, l: int| 0 <= k < l < order.len() ==> order@[k] != order@[l],
            forall|k: int, l: int|
                0 <= k < l < order.len() ==> !listed_before(entries@[order@[l] as int], entries@[order@[k] as int]),
            forall|k: int, l: int|
                0 <= k < l < order.len() && listed_alike(entries@[order@[k] as int], entries@[order@[l] as int])
                    ==> order@[k] < order@[l],
        decreases entries.len() - i,
    {
        let mut p: usize = 0;
        while p < order.len() && !before(&entries[i], &entries[order[p]])
            invariant
                p <= order.len(),
                i < entries.len(),
                forall|k: int| 0 <= k < order.len() ==> #[trigger] order@[k] < i,
                forall|k: int| 0 <= k < p ==> !listed_before(entries@[i as int], #[trigger] entries@[order@[k] as int]),
            decreases order.len() - p,
        {
            p = p + 1;
        }
        let ghost old_order = order@;
        let ghost e = entries@;
        order.insert(p, i);
        proof {
            assert(order@ == old_order.insert(p as int, i));
            assert forall|k: int| 0 <= k < order@.len() implies #[trigger] order@[k] < i + 1 by {
                if k < p {
                    assert(order@[k] == old_order[k]);
                } else if k > p {
                    assert(order@[k] == old_order[k - 1]);
                }
            }
            assert forall|k: int, l: int| 0 <= k < l < order@.len() implies order@[k] != order@[l] by {
                if k < p && l < p {
                    assert(order@[k] == old_order[k] && order@[l] == old_order[l]);
                } else if k > p && l > p {
                    assert(order@[k] == old_order[k - 1] && order@[l] == old_order[l - 1]);
                } else if k < p && l > p {
                    assert(order@[k] == old_order[k] && order@[l] == old_order[l - 1]);
                } else if k == p {
                    assert(order@[l] == old_order[l - 1]);
                    assert(old_order[l - 1] < i);
                } else {
                    assert(order@[k] == old_order[k]);
                    assert(old_order[k] < i);
                }
            }
            assert forall|k: int, l: int| 0 <= k < l < order@.len() implies !listed_before(
                e[order@[l] as int],
                e[order@[k] as int],
            ) by {
                let ei = e[i as int];
                if k < p && l < p {
                    assert(order@[k] == old_order[k] && order@[l] == old_order[l]);
                } else if k > p && l > p {
                    assert(order@[k] == old_order[k - 1] && order@[l] == old_order[l - 1]);
                } else if k < p && l > p {
                    assert(order@[k] == old_order[k] && order@[l] == old_order[l - 1]);
                    if l - 1 > k {
                        assert(!listed_before(e[old_order[l - 1] as int], e[old_order[k] as int]));
                    }
                } else if k == p {
                    assert(order@[l] == old_order[l - 1]);
                    let x = e[old_order[l - 1] as int];
                    assert(listed_before(ei, e[old_order[p as int] as int]));
                    if l - 1 > p {
                        assert(!listed_before(x, e[old_order[p as int] as int]));
                    }
                    lemma_listed_before_order(x, ei, e[old_order[p as int] as int]);
                    lemma_listed_before_order(ei, e[old_order[p as int] as int], x);
                    lemma_listed_before_order(e[old_order[p as int] as int], x, ei);
                    if listed_before(x, ei) {
                        lemma_listed_before_order(x, ei, e[old_order[p as int] as int]);
                    }
                } else {
                    assert(l == p);
                    assert(order@[k] == old_order[k]);
                    assert(!listed_before(ei, e[old_order[k] as int]));
                }
            }
            assert forall|k: int, l: int|
                0 <= k < l < order@.len() && listed_alike(e[order@[k] as int], e[order@[l] as int]) implies order@[k]
                < order@[l] by {
                let ei = e[i as int];
                if k < p && l < p {
                    assert(order@[k] == old_order[k] && order@[l] == old_order[l]);
                } else if k > p && l > p {
                    assert(order@[k] == old_order[k - 1] && order@[l] == old_order[l - 1]);
                } else if k < p && l > p {
                    assert(order@[k] == old_order[k] && order@[l] == old_order[l - 1]);
                } else if k == p {
                    assert(order@[l] == old_order[l - 1]);
                    let x = e[old_order[l - 1] as int];
                    let y = e[old_order[p as int] as int];
                    assert(listed_before(ei, y));
                    if l - 1 > p {
                        assert(!listed_before(x, y));
                    }
                    lemma_listed_before_order(ei, x, y);
                    assert(false);
                } else {
                    assert(l == p);
                    assert(order@[k] == old_order[k]);
                    assert(old_order[k] < i);
                }
            }
        }
        i = i + 1;
    }
    order
}

/// What chrono writes with the format `%Y-%m-%d %H:%M` for the UTC time
/// `secs` seconds after the Unix epoch; `None` when the time is out of
/// chrono's range (`DateTime::from_timestamp` gives none).
pub uninterp spec fn utc_minute_text(secs: i64) -> Option<Seq<char>>;

/// Formats a UTC time given in seconds since the Unix epoch with
/// `chrono::DateTime::from_timestamp` and `format("%Y-%m-%d %H:%M")`.
#[verifier::external_body]
fn format_utc_minute(secs: i64) -> (r: Option<String>)
    ensures
        r is Some <==> utc_minute_text(secs) is Some,
        r matches Some(t) ==> t@ == utc_minute_text(secs)->0,
{
    match chrono::DateTime::from_timestamp(secs, 0) {
        Some(dt) => Some(dt.format("%Y-%m-%d %H:%M").to_string()),
        None => None,
    }
}

/// The modification time as the listing shows it: `-` when unknown, else
/// the UTC minute of the time (seconds since the Unix epoch, read as a
/// signed number), and the epoch's when chrono cannot hold the time.
pub fn modified_text(secs: Option<u64>) -> (r: String)
    ensures
        match secs {
            None => r@ == "-"@,
            Some(s) => match utc_minute_text(s as i64) {
                Some(t) => r@ == t,
                None => r@ == "1970-01-01 00:00"@,
            },
        },
{
    match secs {
        None => "-".to_string(),
        Some(s) => {
            let signed = s as i64;
            match format_utc_minute(signed) {
                Some(t) => t,
                None => "1970-01-01 00:00".to_string(),
            }
        },
    }
}

/// The start of the listing page, up to the table's header row.
pub const LISTING_HEAD: &'static str = "<!DOCTYPE html>\n<html>\n<head>\n<title>Index of /bin/</title>\n<style>\nbody { font-family: monospace; margin: 2em; }\ntable { border-collapse: collapse; }\nth, td { text-align: left; padding: 0.25em 1em; }\nth { border-bottom: 1px solid #ccc; }\na { text-decoration: none; }\na:hover { text-decoration: underline; }\n.dir { font-weight: bold; }\n.size { text-align: right; }\n</style>\n</head>\n<body>\n<h1>Index of /bin/</h1>\n<table>\n<tr><th>Name</th><th>Size</th><th>Modified</th></tr>\n";

/// The row of one entry: a directory's name ends in `/`, is shown in bold
/// and has no size.
pub open spec fn row_of(e: BinEntry) -> Seq<char> {
    let class = if e.is_dir {
        " class=\"dir\""@
    } else {
        ""@
    };
    let display = if e.is_dir {
        e.name@ + "/"@
    } else {
        e.name@
    };
    let size = if e.is_dir {
        "-"@
    } else {
        e.size_text@
    };
    "<tr><td"@ + class + "><a href=\"/bin/"@ + e.name@ + "\">"@ + display + "</a></td><td class=\"size\">"@ + size
        + "</td><td>"@ + e.modified@ + "</td></tr>\n"@
}

/// The rows of the entries in the given order.
pub open spec fn rows_of(entries: Seq<BinEntry>, order: Seq<usize>) -> Seq<char>
    decreases order.len(),
{
    if order.len() == 0 {
        Seq::empty()
    } else {
        rows_of(entries, order.drop_last()) + row_of(entries[order.last() as int])
    }
}

/// The listing page: the head, the rows, the end of the table.
pub open spec fn page_of(entries: Seq<BinEntry>, order: Seq<usize>) -> Seq<char> {
    LISTING_HEAD@ + rows_of(entries, order) + "</table>\n</body>\n</html>"@
}

fn row(e: &BinEntry) -> (r: String)
    ensures
        r@ == row_of(*e),
{
    let class = if e.is_dir {
        " class=\"dir\""
    } else {
        ""
    };
    let display = if e.is_dir {
        e.name.clone().concat("/")
    } else {
        e.name.clone()
    };
    let size = if e.is_dir {
        "-".to_string()
    } else {
        e.size_text.clone()
    };
    "<tr><td".to_string().concat(class).concat("><a href=\"/bin/").concat(e.name.as_str()).concat("\">").concat(
        display.as_str(),
    ).concat("</a></td><td class=\"size\">").concat(size.as_str()).concat("</td><td>").concat(
        e.modified.as_str(),
    ).concat("</td></tr>\n")
}

/// Renders the listing page with the entries in the given order.
pub fn render_listing(entries: &Vec<BinEntry>, order: &Vec<usize>) -> (r: String)
    requires
        forall|k: int| 0 <= k < order.len() ==> #[trigger] order@[k] < entries.len(),
    ensures
        r@ == page_of(entries@, order@),
{
    let mut html = LISTING_HEAD.to_string();
    let mut k: usize = 0;
    while k < order.len()
        invariant
            k <= order.len(),
            forall|j: int| 0 <= j < order.len() ==> #[trigger] order@[j] < entries.len(),
            html@ == LISTING_HEAD@ + rows_of(entries@, order@.take(k as int)),
        decreases order.len() - k,
    {
        let line = row(&entries[order[k]]);
        proof {
            assert(order@.take(k + 1).drop_last() == order@.take(k as int));
            assert(order@.take(k + 1).last() == order@[k as int]);
        }
        html = html.concat(line.as_str());
        k = k + 1;
    }
    assert(order@.take(k as int) == order@);
    html.concat("</table>\n</body>\n</html>")
}

/// The index page of the binary directory: its entries, directories first,
/// then by name.
pub fn bin_index_page(entries: &Vec<BinEntry>) -> (r: String)
    ensures
        exists|order: Seq<usize>| listing_order(entries@, order) && r@ == page_of(entries@, order),
{
    let order = listing(entries);
    render_listing(entries, &order)
}

} // verus!
