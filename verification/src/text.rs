//! Character-level helpers over strings: the pieces of `str`'s API that the
//! rest of the library reasons about, each with the statement of what it does.

use vstd::prelude::*;

verus! {

broadcast use vstd::string::group_string_axioms;

/// The characters of `s`, in order.
pub fn chars_of(s: &str) -> (v: Vec<char>)
    ensures
        v@ == s@,
{
    let mut v: Vec<char> = Vec::new();
    for c in it: s.chars()
        invariant
            v@ == it.seq().take(it.index() as int),
            it.seq() == s@,
    {
        v.push(c);
    }
    v
}

/// Appends one character to a string (`String::push`).
#[verifier::external_body]
pub(crate) fn push_char(s: &mut String, c: char)
    ensures
        final(s)@ == old(s)@.push(c),
{
    s.push(c);
}

/// The string made of the characters `v[lo..hi]`.
pub fn string_from_chars(v: &Vec<char>, lo: usize, hi: usize) -> (s: String)
    requires
        lo <= hi <= v.len(),
    ensures
        s@ == v@.subrange(lo as int, hi as int),
{
    let mut s = String::new();
    let mut i = lo;
    while i < hi
        invariant
            lo <= i <= hi <= v.len(),
            s@ == v@.subrange(lo as int, i as int),
        decreases hi - i,
    {
        push_char(&mut s, v[i]);
        assert(v@.subrange(lo as int, i + 1) == v@.subrange(lo as int, i as int).push(v@[i as int]));
        i = i + 1;
    }
    s
}

/// The Unicode `White_Space` property, which `char::is_whitespace` tests.
pub open spec fn is_ws(c: char) -> bool {
    let u = c as u32;
    ||| 0x09 <= u <= 0x0d
    ||| u == 0x20
    ||| u == 0x85
    ||| u == 0xa0
    ||| u == 0x1680
    ||| 0x2000 <= u <= 0x200a
    ||| u == 0x2028
    ||| u == 0x2029
    ||| u == 0x202f
    ||| u == 0x205f
    ||| u == 0x3000
}

/// Whether `c` is Unicode white space.
pub fn is_whitespace(c: char) -> (r: bool)
    ensures
        r == is_ws(c),
{
    let u = c as u32;
    (0x09 <= u && u <= 0x0d) || u == 0x20 || u == 0x85 || u == 0xa0 || u == 0x1680 || (0x2000 <= u
        && u <= 0x200a) || u == 0x2028 || u == 0x2029 || u == 0x202f || u == 0x205f || u == 0x3000
}

/// `needle` occurs in `hay` starting at position `i`.
pub open spec fn occurs_at(hay: Seq<char>, needle: Seq<char>, i: int) -> bool {
    0 <= i && i + needle.len() <= hay.len() && hay.subrange(i, i + needle.len()) == needle
}

/// `needle` occurs somewhere in `hay`.
pub open spec fn contains_seq(hay: Seq<char>, needle: Seq<char>) -> bool {
    exists|i: int| occurs_at(hay, needle, i)
}

/// `s` begins with `prefix`.
pub open spec fn has_prefix(s: Seq<char>, prefix: Seq<char>) -> bool {
    prefix.len() <= s.len() && s.subrange(0, prefix.len() as int) == prefix
}

pub(crate) fn matches_at(hay: &Vec<char>, needle: &Vec<char>, i: usize) -> (r: bool)
    requires
        i + needle.len() <= hay.len(),
    ensures
        r == occurs_at(hay@, needle@, i as int),
{
    let mut j: usize = 0;
    while j < needle.len()
        invariant
            j <= needle.len(),
            i + needle.len() <= hay.len(),
            forall|k: int| 0 <= k < j ==> hay@[i + k] == needle@[k],
        decreases needle.len() - j,
    {
        if hay[i + j] != needle[j] {
            assert(hay@.subrange(i as int, i + needle.len())[j as int] != needle@[j as int]);
            return false;
        }
        j = j + 1;
    }
    assert(hay@.subrange(i as int, i + needle.len()) =~= needle@);
    true
}

/// Whether `needle` occurs in `hay` (`str::contains`).
pub fn contains(hay: &str, needle: &str) -> (r: bool)
    ensures
        r == contains_seq(hay@, needle@),
{
    let h = chars_of(hay);
    let n = chars_of(needle);
    if n.len() > h.len() {
        assert forall|i: int| !occurs_at(hay@, needle@, i) by {}
        return false;
    }
    let last = h.len() - n.len();
    let mut i: usize = 0;
    while i < last
        invariant
            h@ == hay@,
            n@ == needle@,
            last == h.len() - n.len(),
            i <= last,
            forall|k: int| 0 <= k < i ==> !occurs_at(hay@, needle@, k),
        decreases last - i,
    {
        if matches_at(&h, &n, i) {
            return true;
        }
        i = i + 1;
    }
    if matches_at(&h, &n, last) {
        return true;
    }
    assert forall|k: int| !occurs_at(hay@, needle@, k) by {
        if 0 <= k && k + needle@.len() <= hay@.len() {
            assert(k <= last);
        }
    }
    false
}

/// Whether `s` begins with `prefix` (`str::starts_with`).
pub fn starts_with(s: &str, prefix: &str) -> (r: bool)
    ensures
        r == has_prefix(s@, prefix@),
{
    let h = chars_of(s);
    let p = chars_of(prefix);
    if p.len() > h.len() {
        return false;
    }
    matches_at(&h, &p, 0)
}

/// Whether two strings are equal.
pub fn str_eq(a: &str, b: &str) -> (r: bool)
    ensures
        r == (a@ == b@),
{
    let x = chars_of(a);
    let y = chars_of(b);
    if x.len() != y.len() {
        return false;
    }
    let r = matches_at(&x, &y, 0);
    proof {
        if r {
            assert(x@.subrange(0, y@.len() as int) =~= x@);
        } else {
            if a@ == b@ {
                assert(x@.subrange(0, y@.len() as int) =~= x@);
            }
        }
    }
    r
}

/// `s` without its leading white space.
pub open spec fn trim_start_ws(s: Seq<char>) -> Seq<char>
    decreases s.len(),
{
    if s.len() > 0 && is_ws(s[0]) {
        trim_start_ws(s.drop_first())
    } else {
        s
    }
}

/// `s` without its trailing white space.
pub open spec fn trim_end_ws(s: Seq<char>) -> Seq<char>
    decreases s.len(),
{
    if s.len() > 0 && is_ws(s.last()) {
        trim_end_ws(s.drop_last())
    } else {
        s
    }
}

/// `s` without leading and trailing white space (`str::trim`).
pub open spec fn trim_ws(s: Seq<char>) -> Seq<char> {
    trim_end_ws(trim_start_ws(s))
}

proof fn lemma_trim_start(s: Seq<char>, a: int)
    requires
        0 <= a <= s.len(),
        forall|k: int| 0 <= k < a ==> is_ws(s[k]),
        a < s.len() ==> !is_ws(s[a]),
    ensures
        trim_start_ws(s) == s.skip(a),
    decreases a,
{
    if a > 0 {
        lemma_trim_start(s.drop_first(), a - 1);
        assert(s.drop_first().skip(a - 1) =~= s.skip(a));
    } else {
        assert(s.skip(0) =~= s);
    }
}

proof fn lemma_trim_end(s: Seq<char>, b: int)
    requires
        0 <= b <= s.len(),
        forall|k: int| b <= k < s.len() ==> is_ws(s[k]),
        b > 0 ==> !is_ws(s[b - 1]),
    ensures
        trim_end_ws(s) == s.take(b),
    decreases s.len() - b,
{
    if b < s.len() {
        lemma_trim_end(s.drop_last(), b);
        assert(s.drop_last().take(b) =~= s.take(b));
    } else {
        assert(s.take(b) =~= s);
    }
}

/// The bounds of `v[lo..hi]` with white space trimmed from both ends.
pub(crate) fn trim_bounds(v: &Vec<char>, lo: usize, hi: usize) -> (r: (usize, usize))
    requires
        lo <= hi <= v.len(),
    ensures
        lo <= r.0 <= r.1 <= hi,
        v@.subrange(r.0 as int, r.1 as int) == trim_ws(v@.subrange(lo as int, hi as int)),
{
    let ghost s = v@.subrange(lo as int, hi as int);
    let mut a = lo;
    while a < hi && is_whitespace(v[a])
        invariant
            lo <= a <= hi <= v.len(),
            forall|k: int| lo <= k < a ==> is_ws(v@[k]),
        decreases hi - a,
    {
        a = a + 1;
    }
    proof {
        lemma_trim_start(s, a - lo);
    }
    let mut b = hi;
    while b > a && is_whitespace(v[b - 1])
        invariant
            lo <= a <= b <= hi <= v.len(),
            forall|k: int| b <= k < hi ==> is_ws(v@[k]),
        decreases b,
    {
        b = b - 1;
    }
    proof {
        let t = s.skip(a - lo);
        assert(t =~= v@.subrange(a as int, hi as int));
        lemma_trim_end(t, b - a);
        assert(t.take(b - a) =~= v@.subrange(a as int, b as int));
    }
    (a, b)
}

/// `s` with white space trimmed from both ends (`str::trim`).
pub fn trim(s: &str) -> (r: String)
    ensures
        r@ == trim_ws(s@),
{
    let v = chars_of(s);
    let (a, b) = trim_bounds(&v, 0, v.len());
    assert(v@.subrange(0, v.len() as int) =~= v@);
    string_from_chars(&v, a, b)
}

/// The pieces of `s` between occurrences of `sep` (`str::split` with a
/// character): always at least one piece, empty ones included.
pub open spec fn split_on(s: Seq<char>, sep: char) -> Seq<Seq<char>>
    decreases s.len(),
{
    if s.len() == 0 {
        seq![Seq::<char>::empty()]
    } else {
        let p = split_on(s.drop_last(), sep);
        if s.last() == sep {
            p.push(Seq::<char>::empty())
        } else {
            p.update(p.len() - 1, p.last().push(s.last()))
        }
    }
}

/// Splitting always yields at least one piece.
pub proof fn lemma_split_on_nonempty(s: Seq<char>, sep: char)
    ensures
        split_on(s, sep).len() >= 1,
    decreases s.len(),
{
    if s.len() > 0 {
        lemma_split_on_nonempty(s.drop_last(), sep);
    }
}

/// Where `needle` first occurs in `hay` at or after `from`, or `hay.len()`
/// when it does not occur there.
pub open spec fn find_seq_from(hay: Seq<char>, needle: Seq<char>, from: int) -> int
    decreases hay.len() - from,
{
    if from < 0 || from >= hay.len() || from + needle.len() > hay.len() {
        hay.len() as int
    } else if occurs_at(hay, needle, from) {
        from
    } else {
        find_seq_from(hay, needle, from + 1)
    }
}

/// `find_seq_from` lands at or after `from`, on an occurrence when it
/// finds one, and no occurrence lies before it.
pub proof fn lemma_find_seq_from(hay: Seq<char>, needle: Seq<char>, from: int)
    requires
        0 <= from <= hay.len(),
    ensures
        from <= find_seq_from(hay, needle, from) <= hay.len(),
        find_seq_from(hay, needle, from) < hay.len() ==> occurs_at(hay, needle, find_seq_from(hay, needle, from)),
        forall|k: int| from <= k < find_seq_from(hay, needle, from) ==> !occurs_at(hay, needle, k),
    decreases hay.len() - from,
{
    if from < hay.len() && from + needle.len() <= hay.len() && !occurs_at(hay, needle, from) {
        lemma_find_seq_from(hay, needle, from + 1);
    }
}

proof fn lemma_find_seq_shift(s: Seq<char>, n: Seq<char>, start: int, k: int)
    requires
        0 <= start <= s.len(),
        0 <= k,
        n.len() > 0,
    ensures
        find_seq_from(s, n, start + k) == start + find_seq_from(s.skip(start), n, k),
    decreases s.len() - start - k,
{
    let t = s.skip(start);
    if start + k < s.len() && start + k + n.len() <= s.len() {
        assert(s.subrange(start + k, start + k + n.len()) =~= t.subrange(k, k + n.len()));
        if !occurs_at(s, n, start + k) {
            lemma_find_seq_shift(s, n, start, k + 1);
        }
    }
}

/// Where `needle` first occurs in `hay` at or after `from`, or `hay.len()`.
pub(crate) fn find_chars_from(hay: &Vec<char>, needle: &Vec<char>, from: usize) -> (r: usize)
    requires
        from <= hay.len(),
    ensures
        r == find_seq_from(hay@, needle@, from as int),
{
    let mut i = from;
    while i < hay.len() && needle.len() <= hay.len() - i
        invariant
            from <= i <= hay.len(),
            find_seq_from(hay@, needle@, from as int) == find_seq_from(hay@, needle@, i as int),
        decreases hay.len() - i,
    {
        if matches_at(hay, needle, i) {
            return i;
        }
        i = i + 1;
    }
    hay.len()
}

/// The pieces of `s` between the occurrences of `sep`, found from left to
/// right without overlap (`str::split` with a string pattern); always at
/// least one piece, empty ones included.
pub open spec fn split_on_seq(s: Seq<char>, sep: Seq<char>) -> Seq<Seq<char>>
    decreases s.len(),
{
    let i = find_seq_from(s, sep, 0);
    if sep.len() == 0 || i >= s.len() {
        seq![s]
    } else {
        proof {
            lemma_find_seq_from(s, sep, 0);
        }
        seq![s.take(i)] + split_on_seq(s.skip(i + sep.len()), sep)
    }
}

/// The pieces of `s` between the occurrences of `sep` (`str::split`).
pub fn split_on_str(s: &str, sep: &str) -> (r: Vec<String>)
    requires
        sep@.len() > 0,
    ensures
        string_views(r@) == split_on_seq(s@, sep@),
{
    let v = chars_of(s);
    let n = chars_of(sep);
    let mut out: Vec<String> = Vec::new();
    let mut start: usize = 0;
    assert(v@.skip(0) =~= v@);
    loop
        invariant
            start <= v.len(),
            v@ == s@,
            n@ == sep@,
            n.len() > 0,
            string_views(out@) + split_on_seq(v@.skip(start as int), n@) == split_on_seq(v@, n@),
        decreases v.len() - start,
    {
        let i = find_chars_from(&v, &n, start);
        let ghost t = v@.skip(start as int);
        let ghost before = string_views(out@);
        proof {
            lemma_find_seq_shift(v@, n@, start as int, 0);
            lemma_find_seq_from(v@, n@, start as int);
        }
        if i >= v.len() {
            let piece = string_from_chars(&v, start, v.len());
            out.push(piece);
            proof {
                assert(v@.subrange(start as int, v.len() as int) =~= t);
                assert(string_views(out@) =~= before.push(t));
                assert(split_on_seq(t, n@) == seq![t]);
                assert(before + seq![t] =~= before.push(t));
            }
            return out;
        }
        let piece = string_from_chars(&v, start, i);
        out.push(piece);
        proof {
            let j = i - start;
            assert(t.take(j) =~= v@.subrange(start as int, i as int));
            assert(t.skip(j + n.len()) =~= v@.skip(i + n.len()));
            assert(split_on_seq(t, n@) == seq![t.take(j)] + split_on_seq(t.skip(j + n.len()), n@));
            assert(string_views(out@) =~= before.push(t.take(j)));
            assert(before + (seq![t.take(j)] + split_on_seq(v@.skip(i + n.len()), n@)) =~= before.push(t.take(j))
                + split_on_seq(v@.skip(i + n.len()), n@));
        }
        start = i + n.len();
    }
}

/// The trimmed, non-empty pieces of a comma-separated list, in order.
pub open spec fn list_items(parts: Seq<Seq<char>>) -> Seq<Seq<char>>
    decreases parts.len(),
{
    if parts.len() == 0 {
        seq![]
    } else {
        let rest = list_items(parts.drop_last());
        let t = trim_ws(parts.last());
        if t.len() > 0 {
            rest.push(t)
        } else {
            rest
        }
    }
}

/// The views of a list of strings.
pub open spec fn string_views(v: Seq<String>) -> Seq<Seq<char>> {
    v.map_values(|x: String| x@)
}

/// The trimmed, non-empty items of a `sep`-separated list (what
/// `s.split(sep).map(str::trim).filter(|x| !x.is_empty())` yields).
pub fn split_trimmed_nonempty(s: &str, sep: char) -> (r: Vec<String>)
    ensures
        string_views(r@) == list_items(split_on(s@, sep)),
{
    let v = chars_of(s);
    let mut out: Vec<String> = Vec::new();
    let mut start: usize = 0;
    let mut i: usize = 0;
    proof {
        assert(v@.take(0) =~= Seq::<char>::empty());
        assert(split_on(v@.take(0), sep) =~= seq![Seq::<char>::empty()]);
        assert(split_on(v@.take(0), sep).drop_last() =~= Seq::<Seq<char>>::empty());
        assert(v@.subrange(0, 0) =~= Seq::<char>::empty());
    }
    while i < v.len()
        invariant
            start <= i <= v.len(),
            v@ == s@,
            split_on(v@.take(i as int), sep).len() >= 1,
            split_on(v@.take(i as int), sep).last() == v@.subrange(start as int, i as int),
            string_views(out@) == list_items(split_on(v@.take(i as int), sep).drop_last()),
        decreases v.len() - i,
    {
        let ghost prev = split_on(v@.take(i as int), sep);
        assert(v@.take(i + 1).drop_last() =~= v@.take(i as int));
        if v[i] == sep {
            let (a, b) = trim_bounds(&v, start, i);
            if a < b {
                let item = string_from_chars(&v, a, b);
                out.push(item);
            }
            proof {
                let cur = split_on(v@.take(i + 1), sep);
                assert(cur == prev.push(Seq::<char>::empty()));
                assert(cur.drop_last() =~= prev);
                assert(prev =~= prev.drop_last().push(prev.last()));
                assert(string_views(out@) =~= list_items(prev));
                assert(v@.subrange((i + 1) as int, (i + 1) as int) =~= Seq::<char>::empty());
            }
            start = i + 1;
        } else {
            proof {
                let cur = split_on(v@.take(i + 1), sep);
                assert(cur == prev.update(prev.len() - 1, prev.last().push(v@[i as int])));
                assert(cur.drop_last() =~= prev.drop_last());
                assert(v@.subrange(start as int, i + 1) =~= v@.subrange(start as int, i as int).push(v@[i as int]));
            }
        }
        i = i + 1;
    }
    let (a, b) = trim_bounds(&v, start, i);
    if a < b {
        let item = string_from_chars(&v, a, b);
        out.push(item);
    }
    proof {
        let all = split_on(v@.take(i as int), sep);
        assert(all =~= all.drop_last().push(all.last()));
        assert(string_views(out@) =~= list_items(all));
        assert(v@.take(i as int) =~= s@);
    }
    out
}

/// The words of `s`: its maximal runs of non-white-space characters, in
/// order (what `str::split_whitespace` yields).
pub open spec fn words_of(s: Seq<char>) -> Seq<Seq<char>>
    decreases s.len(),
{
    if s.len() == 0 {
        Seq::empty()
    } else {
        let w = words_of(s.drop_last());
        let c = s.last();
        if is_ws(c) {
            w
        } else if s.len() >= 2 && !is_ws(s[s.len() - 2]) {
            w.drop_last().push(w.last().push(c))
        } else {
            w.push(seq![c])
        }
    }
}

/// Words joined with single spaces.
pub open spec fn join_spaced(w: Seq<Seq<char>>) -> Seq<char>
    decreases w.len(),
{
    if w.len() == 0 {
        Seq::empty()
    } else if w.len() == 1 {
        w[0]
    } else {
        join_spaced(w.drop_last()) + seq![' '] + w.last()
    }
}

proof fn lemma_words_nonempty(s: Seq<char>)
    ensures
        s.len() > 0 && !is_ws(s.last()) ==> words_of(s).len() > 0,
    decreases s.len(),
{
    if s.len() > 0 {
        lemma_words_nonempty(s.drop_last());
    }
}

/// A word: at least one character, none of them white space.
pub open spec fn is_word(w: Seq<char>) -> bool {
    w.len() > 0 && forall|k: int| 0 <= k < w.len() ==> !is_ws(#[trigger] w[k])
}

proof fn lemma_words_are_words(s: Seq<char>)
    ensures
        forall|i: int| 0 <= i < words_of(s).len() ==> is_word(#[trigger] words_of(s)[i]),
        s.len() > 0 && !is_ws(s.last()) ==> words_of(s).len() > 0,
        words_of(s).len() == 0 <==> forall|k: int| 0 <= k < s.len() ==> is_ws(#[trigger] s[k]),
    decreases s.len(),
{
    if s.len() > 0 {
        let t = s.drop_last();
        lemma_words_are_words(t);
        let w = words_of(t);
        let c = s.last();
        if is_ws(c) {
            assert forall|k: int| 0 <= k < t.len() implies #[trigger] s[k] == t[k] by {}
            if w.len() == 0 {
                assert forall|k: int| 0 <= k < s.len() implies is_ws(#[trigger] s[k]) by {
                    if k < t.len() {
                        assert(is_ws(t[k]));
                    }
                }
            } else {
                let k0 = choose|k: int| 0 <= k < t.len() && !is_ws(#[trigger] t[k]);
                assert(!is_ws(s[k0]));
            }
        } else if s.len() >= 2 && !is_ws(s[s.len() - 2]) {
            assert(t.last() == s[s.len() - 2]);
            let nw = w.drop_last().push(w.last().push(c));
            assert forall|i: int| 0 <= i < nw.len() implies is_word(#[trigger] nw[i]) by {
                if i < w.len() - 1 {
                    assert(nw[i] == w[i]);
                } else {
                    assert(is_word(w[w.len() - 1]));
                    let x = w.last().push(c);
                    assert forall|k: int| 0 <= k < x.len() implies !is_ws(#[trigger] x[k]) by {
                        if k < w.last().len() {
                            assert(x[k] == w.last()[k]);
                        }
                    }
                }
            }
            assert(!is_ws(s[s.len() - 1]));
        } else {
            let nw = w.push(seq![c]);
            assert forall|i: int| 0 <= i < nw.len() implies is_word(#[trigger] nw[i]) by {
                if i < w.len() {
                    assert(nw[i] == w[i]);
                } else {
                    assert(nw[i] == seq![c]);
                }
            }
            assert(!is_ws(s[s.len() - 1]));
        }
    }
}

proof fn lemma_words_of_ws(s: Seq<char>, c: char)
    requires
        is_ws(c),
    ensures
        words_of(s.push(c)) == words_of(s),
{
    assert(s.push(c).drop_last() =~= s);
}

proof fn lemma_words_of_word(s: Seq<char>, w: Seq<char>)
    requires
        is_word(w),
        s.len() > 0 ==> is_ws(s.last()),
    ensures
        words_of(s + w) == words_of(s).push(w),
    decreases w.len(),
{
    let sw = s + w;
    let c = w.last();
    assert(!is_ws(w[w.len() - 1]));
    if w.len() == 1 {
        assert(sw.drop_last() =~= s);
        assert(seq![c] =~= w);
        if sw.len() >= 2 {
            assert(sw[sw.len() - 2] == s.last());
        }
    } else {
        let w1 = w.drop_last();
        assert forall|k: int| 0 <= k < w1.len() implies !is_ws(#[trigger] w1[k]) by {
            assert(w1[k] == w[k]);
        }
        lemma_words_of_word(s, w1);
        assert(sw.drop_last() =~= s + w1);
        assert(sw[sw.len() - 2] == w[w.len() - 2]);
        assert(!is_ws(w[w.len() - 2]));
        assert(w1.push(c) =~= w);
    }
}

/// White space collapsed: words, each white space a single space between
/// two of them.
pub open spec fn is_collapsed(c: Seq<char>) -> bool {
    forall|k: int|
        0 <= k < c.len() && is_ws(#[trigger] c[k]) ==> c[k] == ' ' && 0 < k < c.len() - 1 && !is_ws(c[k - 1])
            && !is_ws(c[k + 1])
}

proof fn lemma_join_words(w: Seq<Seq<char>>)
    requires
        forall|i: int| 0 <= i < w.len() ==> is_word(#[trigger] w[i]),
    ensures
        words_of(join_spaced(w)) == w,
        is_collapsed(join_spaced(w)),
        w.len() > 0 ==> join_spaced(w).len() > 0 && !is_ws(join_spaced(w)[0]) && !is_ws(join_spaced(w).last()),
    decreases w.len(),
{
    if w.len() == 1 {
        assert(is_word(w[0]));
        lemma_words_of_word(Seq::empty(), w[0]);
        assert(Seq::<char>::empty() + w[0] =~= w[0]);
        assert(seq![w[0]] =~= w);
        assert(!is_ws(w[0][0]));
        assert(!is_ws(w[0][w[0].len() - 1]));
    } else if w.len() > 1 {
        let w1 = w.drop_last();
        assert forall|i: int| 0 <= i < w1.len() implies is_word(#[trigger] w1[i]) by {
            assert(w1[i] == w[i]);
        }
        lemma_join_words(w1);
        let j1 = join_spaced(w1);
        let x = w.last();
        assert(is_word(w[w.len() - 1]));
        let s = j1 + seq![' '];
        assert(is_ws(' '));
        assert(s =~= j1.push(' '));
        lemma_words_of_ws(j1, ' ');
        lemma_words_of_word(s, x);
        assert(w1.push(x) =~= w);
        let j = join_spaced(w);
        assert(j == s + x);
        assert(!is_ws(x[0]));
        assert(!is_ws(x[x.len() - 1]));
        assert(j[0] == j1[0]);
        assert(j.last() == x[x.len() - 1]);
        assert forall|k: int| 0 <= k < j.len() && is_ws(#[trigger] j[k]) implies j[k] == ' ' && 0 < k < j.len() - 1
            && !is_ws(j[k - 1]) && !is_ws(j[k + 1]) by {
            if k < j1.len() {
                assert(j[k] == j1[k]);
                if k == j1.len() - 1 {
                    assert(j1[k] == j1.last());
                }
                assert(j[k - 1] == j1[k - 1]);
                assert(j[k + 1] == j1[k + 1]);
            } else if k == j1.len() {
                assert(j[k - 1] == j1[j1.len() - 1]);
                assert(j[k + 1] == x[0]);
            } else {
                assert(j[k] == x[k - j1.len() - 1]);
                assert(!is_ws(x[k - j1.len() - 1]));
            }
        }
    }
}

/// Collapsing white space is stable: the collapsed text collapses to
/// itself, has no white space at either end nor two white space characters
/// in a row (each is a single space), and is empty exactly when the text is
/// all white space.
pub proof fn lemma_collapse_is_stable(s: Seq<char>)
    ensures
        join_spaced(words_of(join_spaced(words_of(s)))) == join_spaced(words_of(s)),
        is_collapsed(join_spaced(words_of(s))),
        join_spaced(words_of(s)).len() == 0 <==> forall|k: int| 0 <= k < s.len() ==> is_ws(#[trigger] s[k]),
{
    lemma_words_are_words(s);
    lemma_join_words(words_of(s));
}

/// The words of `s` joined with single spaces: white space collapsed and
/// trimmed.
pub fn collapse_whitespace(s: &str) -> (r: String)
    ensures
        r@ == join_spaced(words_of(s@)),
{
    let v = chars_of(s);
    let mut words: Vec<Vec<char>> = Vec::new();
    let mut i: usize = 0;
    while i < v.len()
        invariant
            i <= v.len(),
            v@ == s@,
            words@.map_values(|w: Vec<char>| w@) == words_of(v@.take(i as int)),
        decreases v.len() - i,
    {
        let ghost pre = v@.take(i as int);
        let ghost cur = v@.take(i + 1);
        proof {
            assert(cur.drop_last() == pre);
            assert(cur.last() == v@[i as int]);
            lemma_words_nonempty(pre);
            if i >= 1 {
                assert(cur[cur.len() - 2] == pre.last());
            }
        }
        let c = v[i];
        if is_whitespace(c) {
        } else if i >= 1 && !is_whitespace(v[i - 1]) {
            let ghost before = words@;
            let mut last = words.pop().unwrap();
            last.push(c);
            words.push(last);
            proof {
                assert(words@.map_values(|w: Vec<char>| w@) =~= before.map_values(|w: Vec<char>| w@).drop_last().push(
                    before.map_values(|w: Vec<char>| w@).last().push(c),
                ));
            }
        } else {
            let ghost before = words@;
            let mut w: Vec<char> = Vec::new();
            w.push(c);
            words.push(w);
            proof {
                assert(words@.map_values(|w: Vec<char>| w@) =~= before.map_values(|w: Vec<char>| w@).push(seq![c]));
            }
        }
        i = i + 1;
    }
    proof {
        assert(v@.take(i as int) == s@);
    }
    let ghost ws = words@.map_values(|w: Vec<char>| w@);
    let mut out: Vec<char> = Vec::new();
    let mut j: usize = 0;
    while j < words.len()
        invariant
            j <= words.len(),
            ws == words@.map_values(|w: Vec<char>| w@),
            out@ == join_spaced(ws.take(j as int)),
        decreases words.len() - j,
    {
        proof {
            assert(ws.take(j + 1).drop_last() == ws.take(j as int));
            assert(ws.take(j + 1).last() == words@[j as int]@);
        }
        if j > 0 {
            out.push(' ');
        }
        let w = &words[j];
        let mut k: usize = 0;
        let ghost base = out@;
        while k < w.len()
            invariant
                k <= w.len(),
                out@ == base + w@.take(k as int),
            decreases w.len() - k,
        {
            out.push(w[k]);
            assert(w@.take(k + 1) == w@.take(k as int).push(w@[k as int]));
            k = k + 1;
        }
        proof {
            assert(w@.take(k as int) == w@);
            if j == 0 {
                assert(base == Seq::<char>::empty());
                assert(out@ == w@);
            }
        }
        j = j + 1;
    }
    proof {
        assert(ws.take(j as int) == ws);
    }
    string_from_chars(&out, 0, out.len())
}

/// The lowercase of `s`, as `str::to_lowercase` gives it.
pub uninterp spec fn lowercase_of(s: Seq<char>) -> Seq<char>;

/// Lowercases text with `str::to_lowercase`, by the Unicode lowercase
/// mappings and independently of any locale (a capital sigma depends on the
/// characters around it); the result is a function of the whole text,
/// named, not spelled out.
#[verifier::external_body]
pub(crate) fn to_lowercase(s: &str) -> (r: String)
    ensures
        r@ == lowercase_of(s@),
{
    s.to_lowercase()
}

/// `a` sorts before `b`: the order of `str`, character by character by code
/// point, a proper prefix first.
pub open spec fn str_lt(a: Seq<char>, b: Seq<char>) -> bool
    decreases a.len(),
{
    if a.len() == 0 {
        b.len() > 0
    } else if b.len() == 0 {
        false
    } else if a[0] != b[0] {
        (a[0] as u32) < (b[0] as u32)
    } else {
        str_lt(a.drop_first(), b.drop_first())
    }
}

/// `str_lt` is irreflexive, asymmetric and total on different texts.
pub proof fn lemma_str_lt_total(a: Seq<char>, b: Seq<char>)
    ensures
        !str_lt(a, a),
        a != b ==> (str_lt(a, b) || str_lt(b, a)),
        str_lt(a, b) ==> !str_lt(b, a),
    decreases a.len(),
{
    if a.len() > 0 {
        lemma_str_lt_total(a.drop_first(), a.drop_first());
    }
    if a.len() > 0 && b.len() > 0 {
        lemma_str_lt_total(a.drop_first(), b.drop_first());
        if (a[0] as u32) == (b[0] as u32) {
            vstd::utf8::char_u32_cast(a[0], a[0] as u32);
            vstd::utf8::char_u32_cast(b[0], b[0] as u32);
        }
        if a != b && a[0] == b[0] {
            assert(a.drop_first() != b.drop_first()) by {
                if a.drop_first() == b.drop_first() {
                    assert(a =~= seq![a[0]] + a.drop_first());
                    assert(b =~= seq![b[0]] + b.drop_first());
                }
            }
        }
    }
    if a.len() == 0 && b.len() == 0 {
        assert(a =~= b);
    }
}

/// `str_lt` is transitive.
pub proof fn lemma_str_lt_transitive(a: Seq<char>, b: Seq<char>, c: Seq<char>)
    requires
        str_lt(a, b),
        str_lt(b, c),
    ensures
        str_lt(a, c),
    decreases a.len(),
{
    if a.len() > 0 && b.len() > 0 && c.len() > 0 && a[0] == b[0] && b[0] == c[0] {
        lemma_str_lt_transitive(a.drop_first(), b.drop_first(), c.drop_first());
    }
}

/// Whether `a` sorts before `b` (`a < b` on `str`).
pub fn str_less(a: &str, b: &str) -> (r: bool)
    ensures
        r == str_lt(a@, b@),
{
    let x = chars_of(a);
    let y = chars_of(b);
    let mut i: usize = 0;
    assert(x@.subrange(0, x@.len() as int) == x@);
    assert(y@.subrange(0, y@.len() as int) == y@);
    while i < x.len() && i < y.len() && x[i] == y[i]
        invariant
            i <= x.len(),
            i <= y.len(),
            x@ == a@,
            y@ == b@,
            str_lt(a@, b@) == str_lt(x@.subrange(i as int, x@.len() as int), y@.subrange(i as int, y@.len() as int)),
        decreases x.len() - i,
    {
        let ghost xs = x@.subrange(i as int, x@.len() as int);
        let ghost ys = y@.subrange(i as int, y@.len() as int);
        assert(xs.drop_first() == x@.subrange(i + 1, x@.len() as int));
        assert(ys.drop_first() == y@.subrange(i + 1, y@.len() as int));
        i = i + 1;
    }
    let ghost xs = x@.subrange(i as int, x@.len() as int);
    let ghost ys = y@.subrange(i as int, y@.len() as int);
    if i == x.len() {
        i < y.len()
    } else if i == y.len() {
        false
    } else {
        assert(xs[0] == x@[i as int] && ys[0] == y@[i as int]);
        (x[i] as u32) < (y[i] as u32)
    }
}

} // verus!
