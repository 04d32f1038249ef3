//! Text primitives over sequences of characters, with their specifications.

use vstd::prelude::*;

verus! {

/// `p` is a prefix of `s`.
pub open spec fn starts_with(s: Seq<char>, p: Seq<char>) -> bool {
    p.len() <= s.len() && s.subrange(0, p.len() as int) == p
}

/// `p` is a suffix of `s`.
pub open spec fn ends_with(s: Seq<char>, p: Seq<char>) -> bool {
    p.len() <= s.len() && s.subrange(s.len() - p.len(), s.len() as int) == p
}

/// Replaces every occurrence of `p` in `s` by `r`, scanning left to right
/// without overlap (an empty pattern leaves `s` as it is).
pub open spec fn replace_all(s: Seq<char>, p: Seq<char>, r: Seq<char>) -> Seq<char>
    decreases s.len(),
{
    if p.len() == 0 || s.len() < p.len() {
        s
    } else if starts_with(s, p) {
        r + replace_all(s.subrange(p.len() as int, s.len() as int), p, r)
    } else {
        seq![s[0]] + replace_all(s.subrange(1, s.len() as int), p, r)
    }
}

/// The pieces of `s` between occurrences of `c` (always at least one piece).
pub open spec fn split(s: Seq<char>, c: char) -> Seq<Seq<char>>
    decreases s.len(),
{
    if s.len() == 0 {
        seq![Seq::<char>::empty()]
    } else {
        let rest = split(s.subrange(1, s.len() as int), c);
        if s[0] == c {
            seq![Seq::<char>::empty()] + rest
        } else {
            rest.update(0, seq![s[0]] + rest[0])
        }
    }
}

/// Splits `s` around the first occurrence of `c`, if there is one.
pub open spec fn split_once(s: Seq<char>, c: char) -> Option<(Seq<char>, Seq<char>)>
    decreases s.len(),
{
    if s.len() == 0 {
        None
    } else if s[0] == c {
        Some((Seq::<char>::empty(), s.subrange(1, s.len() as int)))
    } else {
        match split_once(s.subrange(1, s.len() as int), c) {
            Some(pair) => Some((seq![s[0]] + pair.0, pair.1)),
            None => None,
        }
    }
}

/// Drops every leading `c`.
pub open spec fn trim_start(s: Seq<char>, c: char) -> Seq<char>
    decreases s.len(),
{
    if s.len() > 0 && s[0] == c {
        trim_start(s.subrange(1, s.len() as int), c)
    } else {
        s
    }
}

/// Drops every trailing `c`.
pub open spec fn trim_end(s: Seq<char>, c: char) -> Seq<char>
    decreases s.len(),
{
    if s.len() > 0 && s[s.len() - 1] == c {
        trim_end(s.subrange(0, s.len() - 1), c)
    } else {
        s
    }
}

/// Drops every leading and trailing `c`.
pub open spec fn trim(s: Seq<char>, c: char) -> Seq<char> {
    trim_start(trim_end(s, c), c)
}

/// The pieces joined with `sep` between consecutive pieces.
pub open spec fn join(parts: Seq<Seq<char>>, sep: Seq<char>) -> Seq<char>
    decreases parts.len(),
{
    if parts.len() == 0 {
        Seq::<char>::empty()
    } else if parts.len() == 1 {
        parts[0]
    } else {
        join(parts.drop_last(), sep) + sep + parts.last()
    }
}

/// The views of a vector of character vectors.
pub open spec fn views(v: Seq<Vec<char>>) -> Seq<Seq<char>> {
    v.map_values(|x: Vec<char>| x@)
}

/// The view of an optional string.
pub open spec fn opt_view(o: Option<String>) -> Option<Seq<char>> {
    match o {
        Some(s) => Some(s@),
        None => None,
    }
}

/// The views of a vector of strings.
pub open spec fn string_views(v: Seq<String>) -> Seq<Seq<char>> {
    v.map_values(|x: String| x@)
}

pub proof fn lemma_split_nonempty(s: Seq<char>, c: char)
    ensures
        split(s, c).len() >= 1,
    decreases s.len(),
{
    if s.len() > 0 {
        lemma_split_nonempty(s.subrange(1, s.len() as int), c);
    }
}

/// Copies a string slice into a vector of its characters.
pub fn chars_of(s: &str) -> (v: Vec<char>)
    ensures
        v@ == s@,
{
    let n = s.unicode_len();
    let mut v: Vec<char> = Vec::new();
    let mut i: usize = 0;
    while i < n
        invariant
            n == s@.len(),
            i <= n,
            v@ == s@.subrange(0, i as int),
        decreases n - i,
    {
        v.push(s.get_char(i));
        i = i + 1;
    }
    v
}

/// Collects characters into a `String` (`Iterator::collect`).
#[verifier::external_body]
pub(crate) fn string_of(v: &[char]) -> (s: String)
    ensures
        s@ == v@,
{
    v.iter().collect()
}

/// Appends the characters of `s` to `out`.
pub fn push_str(out: &mut Vec<char>, s: &str)
    ensures
        final(out)@ == old(out)@ + s@,
{
    let n = s.unicode_len();
    let mut i: usize = 0;
    while i < n
        invariant
            n == s@.len(),
            i <= n,
            out@ == old(out)@ + s@.subrange(0, i as int),
        decreases n - i,
    {
        out.push(s.get_char(i));
        i = i + 1;
    }
}

/// Appends the characters of `s` to `out`.
pub fn push_chars(out: &mut Vec<char>, s: &[char])
    ensures
        final(out)@ == old(out)@ + s@,
{
    let mut i: usize = 0;
    while i < s.len()
        invariant
            i <= s@.len(),
            out@ == old(out)@ + s@.subrange(0, i as int),
        decreases s@.len() - i,
    {
        out.push(s[i]);
        i = i + 1;
    }
}

/// Copies the characters `s[lo..hi]`.
pub fn slice_chars(s: &[char], lo: usize, hi: usize) -> (v: Vec<char>)
    requires
        lo <= hi <= s@.len(),
    ensures
        v@ == s@.subrange(lo as int, hi as int),
{
    let mut v: Vec<char> = Vec::new();
    let mut i: usize = lo;
    while i < hi
        invariant
            lo <= i <= hi,
            hi <= s@.len(),
            v@ == s@.subrange(lo as int, i as int),
        decreases hi - i,
    {
        v.push(s[i]);
        i = i + 1;
    }
    v
}

/// Character-wise equality.
pub fn chars_eq(a: &[char], b: &[char]) -> (r: bool)
    ensures
        r == (a@ == b@),
{
    if a.len() != b.len() {
        return false;
    }
    let mut i: usize = 0;
    while i < a.len()
        invariant
            a@.len() == b@.len(),
            i <= a@.len(),
            forall|j: int| 0 <= j < i ==> a@[j] == b@[j],
        decreases a@.len() - i,
    {
        if a[i] != b[i] {
            return false;
        }
        i = i + 1;
    }
    assert(a@ =~= b@);
    true
}

/// Character-wise equality with a string slice.
pub fn chars_eq_str(a: &[char], b: &str) -> (r: bool)
    ensures
        r == (a@ == b@),
{
    let bv = chars_of(b);
    chars_eq(a, bv.as_slice())
}

/// Whether `p` occurs in `s` at position `i`.
pub fn matches_at(s: &[char], i: usize, p: &[char]) -> (r: bool)
    requires
        i <= s@.len(),
    ensures
        r == starts_with(s@.subrange(i as int, s@.len() as int), p@),
{
    let ghost t = s@.subrange(i as int, s@.len() as int);
    let n = s.len();
    if n - i < p.len() {
        return false;
    }
    let mut k: usize = 0;
    while k < p.len()
        invariant
            n == s@.len(),
            i + p@.len() <= n,
            k <= p@.len(),
            t == s@.subrange(i as int, s@.len() as int),
            forall|j: int| 0 <= j < k ==> s@[i + j] == p@[j],
        decreases p@.len() - k,
    {
        if s[i + k] != p[k] {
            assert(t.subrange(0, p@.len() as int)[k as int] != p@[k as int]);
            return false;
        }
        k = k + 1;
    }
    assert(t.subrange(0, p@.len() as int) =~= p@);
    true
}

/// Whether `p` is a prefix of `s`.
pub fn chars_starts_with(s: &[char], p: &[char]) -> (r: bool)
    ensures
        r == starts_with(s@, p@),
{
    let r = matches_at(s, 0, p);
    assert(s@.subrange(0, s@.len() as int) =~= s@);
    r
}

/// Whether `p` is a suffix of `s`.
pub fn chars_ends_with(s: &[char], p: &[char]) -> (r: bool)
    ensures
        r == ends_with(s@, p@),
{
    if p.len() > s.len() {
        return false;
    }
    let i = s.len() - p.len();
    let r = matches_at(s, i, p);
    let ghost t = s@.subrange(i as int, s@.len() as int);
    assert(t.subrange(0, p@.len() as int) =~= s@.subrange(s@.len() - p@.len(), s@.len() as int));
    r
}

/// Replaces every occurrence of `p` in `s` by `r`.
pub fn chars_replace_all(s: &[char], p: &[char], r: &[char]) -> (out: Vec<char>)
    ensures
        out@ == replace_all(s@, p@, r@),
{
    let n = s.len();
    if p.len() == 0 {
        return slice_chars(s, 0, n);
    }
    let mut out: Vec<char> = Vec::new();
    let mut i: usize = 0;
    assert(s@.subrange(0, n as int) =~= s@);
    while i < n
        invariant
            n == s@.len(),
            p@.len() > 0,
            i <= n,
            out@ + replace_all(s@.subrange(i as int, n as int), p@, r@) == replace_all(s@, p@, r@),
        decreases n - i,
    {
        let ghost t = s@.subrange(i as int, n as int);
        if matches_at(s, i, p) {
            push_chars(&mut out, r);
            assert(t.subrange(p@.len() as int, t.len() as int) =~= s@.subrange(i + p@.len(), n as int));
            i = i + p.len();
        } else {
            assert(t.subrange(1, t.len() as int) =~= s@.subrange(i + 1, n as int));
            proof {
                if t.len() < p@.len() {
                    assert(replace_all(t.subrange(1, t.len() as int), p@, r@) == t.subrange(1, t.len() as int));
                    assert(t =~= seq![t[0]] + t.subrange(1, t.len() as int));
                }
            }
            out.push(s[i]);
            i = i + 1;
        }
    }
    assert(s@.subrange(n as int, n as int) =~= Seq::<char>::empty());
    out
}


/// Replaces the first piece of `parts` by `cur` followed by it.
pub open spec fn prepend_first(cur: Seq<char>, parts: Seq<Seq<char>>) -> Seq<Seq<char>> {
    parts.update(0, cur + parts[0])
}

/// The pieces of `s` between occurrences of `c`.
pub fn chars_split(s: &[char], c: char) -> (parts: Vec<Vec<char>>)
    ensures
        views(parts@) == split(s@, c),
        parts@.len() >= 1,
{
    let n = s.len();
    let mut parts: Vec<Vec<char>> = Vec::new();
    let mut cur: Vec<char> = Vec::new();
    let mut i: usize = 0;
    assert(s@.subrange(0, n as int) =~= s@);
    proof {
        lemma_split_nonempty(s@, c);
        assert(prepend_first(cur@, split(s@, c)) =~= split(s@, c));
        assert(views(parts@) + split(s@, c) =~= split(s@, c));
    }
    while i < n
        invariant
            n == s@.len(),
            i <= n,
            views(parts@) + prepend_first(cur@, split(s@.subrange(i as int, n as int), c)) == split(s@, c),
        decreases n - i,
    {
        let ghost t = s@.subrange(i as int, n as int);
        let ghost t1 = s@.subrange(i + 1, n as int);
        proof {
            assert(t.subrange(1, t.len() as int) =~= t1);
            lemma_split_nonempty(t1, c);
        }
        if s[i] == c {
            let ghost old_parts = parts@;
            let ghost old_cur = cur@;
            parts.push(cur);
            cur = Vec::new();
            proof {
                assert(views(parts@) =~= views(old_parts).push(old_cur));
                assert(prepend_first(old_cur, split(t, c)) =~= seq![old_cur] + split(t1, c));
                assert(prepend_first(cur@, split(t1, c)) =~= split(t1, c));
                assert(views(parts@) + prepend_first(cur@, split(t1, c)) =~= views(old_parts) + (seq![old_cur] + split(t1, c)));
            }
        } else {
            let ghost old_cur = cur@;
            cur.push(s[i]);
            proof {
                let l = split(t1, c);
                assert(t[0] == s@[i as int]);
                assert(split(t, c) == l.update(0, seq![t[0]] + l[0]));
                assert(old_cur + (seq![t[0]] + l[0]) =~= cur@ + l[0]);
                assert(prepend_first(old_cur, split(t, c)) =~= prepend_first(cur@, split(t1, c)));
            }
        }
        i = i + 1;
    }
    let ghost old_parts = parts@;
    proof {
        assert(s@.subrange(n as int, n as int) =~= Seq::<char>::empty());
        assert(prepend_first(cur@, split(Seq::<char>::empty(), c)) =~= seq![cur@]);
    }
    let ghost last = cur@;
    parts.push(cur);
    assert(views(parts@) =~= views(old_parts).push(last));
    parts
}

/// Index-free description of `split_once` when the first `i` characters differ from `c`.
pub proof fn lemma_split_once_skip(s: Seq<char>, c: char, i: int)
    requires
        0 <= i <= s.len(),
        forall|j: int| 0 <= j < i ==> s[j] != c,
    ensures
        split_once(s, c) == (match split_once(s.subrange(i, s.len() as int), c) {
            Some(pair) => Some((s.subrange(0, i) + pair.0, pair.1)),
            None => None::<(Seq<char>, Seq<char>)>,
        }),
    decreases i,
{
    if i == 0 {
        assert(s.subrange(0, s.len() as int) =~= s);
        match split_once(s, c) {
            Some(pair) => { assert(s.subrange(0, 0) + pair.0 =~= pair.0); },
            None => {},
        }
    } else {
        let s1 = s.subrange(1, s.len() as int);
        lemma_split_once_skip(s1, c, i - 1);
        assert(s1.subrange(i - 1, s1.len() as int) =~= s.subrange(i, s.len() as int));
        match split_once(s.subrange(i, s.len() as int), c) {
            Some(pair) => {
                assert(seq![s[0]] + (s1.subrange(0, i - 1) + pair.0) =~= s.subrange(0, i) + pair.0);
            },
            None => {},
        }
    }
}

/// Splits `s` around the first occurrence of `c`.
pub fn chars_split_once(s: &[char], c: char) -> (r: Option<(Vec<char>, Vec<char>)>)
    ensures
        match r {
            Some(pair) => split_once(s@, c) == Some((pair.0@, pair.1@)),
            None => split_once(s@, c) is None,
        },
{
    let n = s.len();
    let mut i: usize = 0;
    while i < n
        invariant
            n == s@.len(),
            i <= n,
            forall|j: int| 0 <= j < i ==> s@[j] != c,
        decreases n - i,
    {
        if s[i] == c {
            proof {
                lemma_split_once_skip(s@, c, i as int);
                let t = s@.subrange(i as int, n as int);
                assert(t.subrange(1, t.len() as int) =~= s@.subrange(i + 1, n as int));
                assert(s@.subrange(0, i as int) + Seq::<char>::empty() =~= s@.subrange(0, i as int));
            }
            let a = slice_chars(s, 0, i);
            let b = slice_chars(s, i + 1, n);
            return Some((a, b));
        }
        i = i + 1;
    }
    proof {
        lemma_split_once_skip(s@, c, n as int);
    }
    None
}

/// Drops every leading and trailing `c`.
pub fn chars_trim(s: &[char], c: char) -> (out: Vec<char>)
    ensures
        out@ == trim(s@, c),
{
    let n = s.len();
    let mut hi: usize = n;
    assert(s@.subrange(0, n as int) =~= s@);
    while hi > 0 && s[hi - 1] == c
        invariant
            n == s@.len(),
            hi <= n,
            trim_end(s@.subrange(0, hi as int), c) == trim_end(s@, c),
        decreases hi,
    {
        assert(s@.subrange(0, hi as int).subrange(0, hi - 1) =~= s@.subrange(0, hi - 1));
        hi = hi - 1;
    }
    let ghost t = s@.subrange(0, hi as int);
    assert(trim_end(t, c) == t);
    let mut lo: usize = 0;
    assert(t.subrange(0, hi as int) =~= t);
    while lo < hi && s[lo] == c
        invariant
            hi <= n,
            n == s@.len(),
            lo <= hi,
            t == s@.subrange(0, hi as int),
            trim_start(t.subrange(lo as int, hi as int), c) == trim_start(t, c),
        decreases hi - lo,
    {
        let ghost u = t.subrange(lo as int, hi as int);
        assert(u.subrange(1, u.len() as int) =~= t.subrange(lo + 1, hi as int));
        lo = lo + 1;
    }
    let out = slice_chars(s, lo, hi);
    assert(out@ =~= t.subrange(lo as int, hi as int));
    out
}

pub proof fn lemma_join_take(parts: Seq<Seq<char>>, sep: Seq<char>, i: int)
    requires
        1 <= i < parts.len(),
    ensures
        join(parts.take(i + 1), sep) == join(parts.take(i), sep) + sep + parts[i],
{
    assert(parts.take(i + 1).drop_last() =~= parts.take(i));
}

/// The pieces joined with `sep`.
pub fn chars_join(parts: &Vec<Vec<char>>, sep: &str) -> (out: Vec<char>)
    ensures
        out@ == join(views(parts@), sep@),
{
    let mut out: Vec<char> = Vec::new();
    let ghost ps = views(parts@);
    let mut i: usize = 0;
    while i < parts.len()
        invariant
            ps == views(parts@),
            i <= parts@.len(),
            out@ == join(ps.take(i as int), sep@),
        decreases parts@.len() - i,
    {
        if i > 0 {
            push_str(&mut out, sep);
            proof { lemma_join_take(ps, sep@, i as int); }
        } else {
            assert(ps.take(1) =~= seq![ps[0]]);
        }
        push_chars(&mut out, parts[i].as_slice());
        i = i + 1;
    }
    assert(ps.take(parts@.len() as int) =~= ps);
    out
}


/// `c` does not occur in `s`.
pub open spec fn free_of(s: Seq<char>, c: char) -> bool {
    forall|i: int| 0 <= i < s.len() ==> s[i] != c
}

pub proof fn lemma_split_concat(a: Seq<char>, b: Seq<char>, c: char)
    ensures
        split(a + seq![c] + b, c) == split(a, c) + split(b, c),
    decreases a.len(),
{
    let s = a + seq![c] + b;
    if a.len() == 0 {
        assert(s =~= seq![c] + b);
        assert(s.subrange(1, s.len() as int) =~= b);
    } else {
        let a1 = a.subrange(1, a.len() as int);
        lemma_split_concat(a1, b, c);
        assert(s.subrange(1, s.len() as int) =~= a1 + seq![c] + b);
        lemma_split_nonempty(a1, c);
        if a[0] == c {
            assert(split(s, c) =~= split(a, c) + split(b, c));
        } else {
            let r = split(a1, c);
            assert((r + split(b, c)).update(0, seq![a[0]] + (r + split(b, c))[0]) =~= r.update(0, seq![a[0]] + r[0]) + split(b, c));
        }
    }
}

pub proof fn lemma_split_free(a: Seq<char>, c: char)
    requires
        free_of(a, c),
    ensures
        split(a, c) == seq![a],
    decreases a.len(),
{
    if a.len() > 0 {
        let a1 = a.subrange(1, a.len() as int);
        lemma_split_free(a1, c);
        assert(seq![a[0]] + a1 =~= a);
        assert(split(a, c) == seq![a1].update(0, seq![a[0]] + a1));
        assert(seq![a1].update(0, seq![a[0]] + a1) =~= seq![a]);
    } else {
        assert(a =~= Seq::<char>::empty());
    }
}

pub proof fn lemma_split_once_at(a: Seq<char>, b: Seq<char>, c: char)
    requires
        free_of(a, c),
    ensures
        split_once(a + seq![c] + b, c) == Some((a, b)),
    decreases a.len(),
{
    let s = a + seq![c] + b;
    if a.len() == 0 {
        assert(s.subrange(1, s.len() as int) =~= b);
        assert(a =~= Seq::<char>::empty());
    } else {
        let a1 = a.subrange(1, a.len() as int);
        lemma_split_once_at(a1, b, c);
        assert(s.subrange(1, s.len() as int) =~= a1 + seq![c] + b);
        assert(seq![a[0]] + a1 =~= a);
    }
}

pub proof fn lemma_trim_quoted(v: Seq<char>, c: char)
    requires
        free_of(v, c),
    ensures
        trim(seq![c] + v + seq![c], c) == v,
{
    let q = seq![c] + v + seq![c];
    assert(q.subrange(0, q.len() - 1) =~= seq![c] + v);
    let p = seq![c] + v;
    if v.len() == 0 {
        assert(p.subrange(0, p.len() - 1) =~= Seq::<char>::empty());
        assert(trim_end(p, c) == trim_end(Seq::<char>::empty(), c));
    } else {
        assert(p[p.len() - 1] == v[v.len() - 1]);
    }
    assert(trim_end(q, c) == trim_end(p, c));
    if v.len() > 0 {
        assert(trim_end(p, c) == p);
        assert(p.subrange(1, p.len() as int) =~= v);
        assert(trim_start(p, c) == trim_start(v, c));
        assert(trim_start(v, c) == v);
    }
}

pub proof fn lemma_split_join(parts: Seq<Seq<char>>, c: char)
    requires
        parts.len() >= 1,
        forall|i: int| 0 <= i < parts.len() ==> free_of(#[trigger] parts[i], c),
    ensures
        split(join(parts, seq![c]), c) == parts,
    decreases parts.len(),
{
    if parts.len() == 1 {
        lemma_split_free(parts[0], c);
        assert(seq![parts[0]] =~= parts);
    } else {
        let init = parts.drop_last();
        assert forall|i: int| 0 <= i < init.len() implies free_of(#[trigger] init[i], c) by {
            assert(init[i] == parts[i]);
        }
        lemma_split_join(init, c);
        lemma_split_concat(join(init, seq![c]), parts.last(), c);
        lemma_split_free(parts.last(), c);
        assert(init + seq![parts.last()] =~= parts);
    }
}


pub proof fn lemma_join_free(parts: Seq<Seq<char>>, sep: Seq<char>, c: char)
    requires
        free_of(sep, c),
        forall|i: int| 0 <= i < parts.len() ==> free_of(#[trigger] parts[i], c),
    ensures
        free_of(join(parts, sep), c),
    decreases parts.len(),
{
    if parts.len() > 1 {
        let init = parts.drop_last();
        assert forall|i: int| 0 <= i < init.len() implies free_of(#[trigger] init[i], c) by {
            assert(init[i] == parts[i]);
        }
        lemma_join_free(init, sep, c);
        let j = join(init, sep);
        let r = j + sep + parts.last();
        assert forall|i: int| 0 <= i < r.len() implies r[i] != c by {
            if i < j.len() {
                assert(r[i] == j[i]);
            } else if i < j.len() + sep.len() {
                assert(r[i] == sep[i - j.len()]);
            } else {
                assert(r[i] == parts.last()[i - j.len() - sep.len()]);
            }
        }
    } else if parts.len() == 1 {
        assert(free_of(parts[0], c));
    }
}

pub proof fn lemma_free_concat(a: Seq<char>, b: Seq<char>, c: char)
    requires
        free_of(a, c),
        free_of(b, c),
    ensures
        free_of(a + b, c),
{
    assert forall|i: int| 0 <= i < (a + b).len() implies (a + b)[i] != c by {
        if i < a.len() {
            assert((a + b)[i] == a[i]);
        } else {
            assert((a + b)[i] == b[i - a.len()]);
        }
    }
}


/// Replaces the first occurrence of `p` in `s` by `r` (an empty pattern occurs at the start).
pub open spec fn replace_first(s: Seq<char>, p: Seq<char>, r: Seq<char>) -> Seq<char>
    decreases s.len(),
{
    if p.len() == 0 {
        r + s
    } else if s.len() < p.len() {
        s
    } else if starts_with(s, p) {
        r + s.subrange(p.len() as int, s.len() as int)
    } else {
        seq![s[0]] + replace_first(s.subrange(1, s.len() as int), p, r)
    }
}

/// Replaces the first occurrence of `p` in `s` by `r`.
pub fn chars_replace_first(s: &[char], p: &[char], r: &[char]) -> (out: Vec<char>)
    ensures
        out@ == replace_first(s@, p@, r@),
{
    let n = s.len();
    if p.len() == 0 {
        let mut out = slice_chars(r, 0, r.len());
        push_chars(&mut out, s);
        assert(r@.subrange(0, r@.len() as int) =~= r@);
        return out;
    }
    let mut out: Vec<char> = Vec::new();
    let mut i: usize = 0;
    assert(s@.subrange(0, n as int) =~= s@);
    while i < n
        invariant
            n == s@.len(),
            p@.len() > 0,
            i <= n,
            out@ == s@.subrange(0, i as int),
            out@ + replace_first(s@.subrange(i as int, n as int), p@, r@) == replace_first(s@, p@, r@),
        decreases n - i,
    {
        let ghost t = s@.subrange(i as int, n as int);
        if matches_at(s, i, p) {
            push_chars(&mut out, r);
            let rest = slice_chars(s, i + p.len(), n);
            push_chars(&mut out, rest.as_slice());
            assert(t.subrange(p@.len() as int, t.len() as int) =~= s@.subrange(i + p@.len(), n as int));
            assert(out@ =~= s@.subrange(0, i as int) + (r@ + t.subrange(p@.len() as int, t.len() as int)));
            return out;
        }
        assert(t.subrange(1, t.len() as int) =~= s@.subrange(i + 1, n as int));
        proof {
            if t.len() < p@.len() {
                assert(replace_first(t.subrange(1, t.len() as int), p@, r@) == t.subrange(1, t.len() as int));
                assert(t =~= seq![t[0]] + t.subrange(1, t.len() as int));
            }
        }
        out.push(s[i]);
        assert(out@ =~= s@.subrange(0, i + 1));
        i = i + 1;
    }
    assert(s@.subrange(n as int, n as int) =~= Seq::<char>::empty());
    out
}


/// The character of a decimal digit.
pub open spec fn digit_char(d: nat) -> char {
    if d == 0 { '0' } else if d == 1 { '1' } else if d == 2 { '2' } else if d == 3 { '3' }
    else if d == 4 { '4' } else if d == 5 { '5' } else if d == 6 { '6' } else if d == 7 { '7' }
    else if d == 8 { '8' } else { '9' }
}

/// The decimal writing of a number.
pub open spec fn decimal(n: nat) -> Seq<char>
    decreases n,
{
    if n < 10 {
        seq![digit_char(n)]
    } else {
        decimal(n / 10).push(digit_char(n % 10))
    }
}

fn digit(d: u64) -> (c: char)
    requires
        d < 10,
    ensures
        c == digit_char(d as nat),
{
    if d == 0 { '0' } else if d == 1 { '1' } else if d == 2 { '2' } else if d == 3 { '3' }
    else if d == 4 { '4' } else if d == 5 { '5' } else if d == 6 { '6' } else if d == 7 { '7' }
    else if d == 8 { '8' } else { '9' }
}

/// Appends the decimal writing of `n`.
pub fn push_decimal(out: &mut Vec<char>, n: u64)
    ensures
        final(out)@ == old(out)@ + decimal(n as nat),
    decreases n,
{
    if n >= 10 {
        push_decimal(out, n / 10);
    }
    out.push(digit(n % 10));
    assert(out@ =~= old(out)@ + decimal(n as nat));
}

/// Positions `j` and `j + 1` of `s` both hold `/`.
pub open spec fn slash_pair(s: Seq<char>, j: int) -> bool {
    0 <= j && j + 1 < s.len() && s[j] == '/' && s[j + 1] == '/'
}

/// Every pair of adjacent `/` in `s` starts before position `k`.
pub open spec fn double_slashes_before(s: Seq<char>, k: int) -> bool {
    forall|j: int| #[trigger] slash_pair(s, j) ==> j < k
}

/// A pattern whose adjacent `/` pair sits at `k` is not found in a text whose
/// pairs of adjacent `/` all start before `k`: replacing it changes nothing.
pub proof fn lemma_replace_absent(s: Seq<char>, p: Seq<char>, r: Seq<char>, k: int)
    requires
        0 <= k && k + 1 < p.len(),
        p[k] == '/' && p[k + 1] == '/',
        double_slashes_before(s, k),
    ensures
        replace_all(s, p, r) == s,
    decreases s.len(),
{
    if s.len() >= p.len() {
        if starts_with(s, p) {
            assert(s[k] == s.subrange(0, p.len() as int)[k]);
            assert(s[k + 1] == s.subrange(0, p.len() as int)[k + 1]);
            assert(slash_pair(s, k));
        }
        let s1 = s.subrange(1, s.len() as int);
        assert forall|j: int| #[trigger] slash_pair(s1, j) implies j < k by {
            assert(s[j + 1] == s1[j] && s[j + 2] == s1[j + 1]);
            assert(slash_pair(s, j + 1));
        }
        lemma_replace_absent(s1, p, r, k);
        assert(seq![s[0]] + s1 =~= s);
    }
}

/// Replacing a pattern in a text that starts with it: the replacement, then the
/// rest replaced.
pub proof fn lemma_replace_prefix(p: Seq<char>, rest: Seq<char>, r: Seq<char>)
    requires
        p.len() > 0,
    ensures
        replace_all(p + rest, p, r) == r + replace_all(rest, p, r),
{
    let s = p + rest;
    assert(s.subrange(0, p.len() as int) =~= p);
    assert(s.subrange(p.len() as int, s.len() as int) =~= rest);
}

/// Replacing every `c` by nothing leaves no `c`.
pub proof fn lemma_replace_char_removes(s: Seq<char>, c: char)
    ensures
        free_of(replace_all(s, seq![c], Seq::empty()), c),
    decreases s.len(),
{
    if s.len() >= 1 {
        let rest = s.subrange(1, s.len() as int);
        lemma_replace_char_removes(rest, c);
        let t = replace_all(rest, seq![c], Seq::empty());
        if starts_with(s, seq![c]) {
            assert(replace_all(s, seq![c], Seq::empty()) =~= t);
        } else {
            assert(s.subrange(0, 1) =~= seq![s[0]]);
            assert(s[0] != c);
            let u = seq![s[0]] + t;
            assert forall|i: int| 0 <= i < u.len() implies u[i] != c by {
                if i > 0 {
                    assert(u[i] == t[i - 1]);
                }
            }
        }
    }
}

/// Replacing a pattern that holds a character `s` lacks leaves `s` as it is.
pub proof fn lemma_replace_missing(s: Seq<char>, p: Seq<char>, r: Seq<char>, k: int)
    requires
        0 <= k < p.len(),
        free_of(s, p[k]),
    ensures
        replace_all(s, p, r) == s,
    decreases s.len(),
{
    if s.len() >= p.len() {
        if starts_with(s, p) {
            assert(s.subrange(0, p.len() as int)[k] == s[k]);
            assert(false);
        }
        let rest = s.subrange(1, s.len() as int);
        lemma_replace_missing(rest, p, r, k);
        assert(seq![s[0]] + rest =~= s);
    }
}

} // verus!
