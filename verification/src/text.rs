//! Character classes, decimal rendering and small string helpers shared by the
//! rest of the library.

use vstd::prelude::*;

verus! {

/// `char::is_control`: the Unicode general category `Cc`
/// (U+0000..=U+001F and U+007F..=U+009F).
pub open spec fn is_control_spec(c: char) -> bool {
    (c as u32) <= 0x1f || (0x7f <= (c as u32) && (c as u32) <= 0x9f)
}

/// `char::is_whitespace`: the Unicode `White_Space` property.
pub open spec fn is_ws_spec(c: char) -> bool {
    let u = c as u32;
    ||| (0x09 <= u && u <= 0x0d)
    ||| u == 0x20
    ||| u == 0x85
    ||| u == 0xa0
    ||| u == 0x1680
    ||| (0x2000 <= u && u <= 0x200a)
    ||| u == 0x2028
    ||| u == 0x2029
    ||| u == 0x202f
    ||| u == 0x205f
    ||| u == 0x3000
}

/// ASCII letters and digits.
pub open spec fn is_ascii_alnum_spec(c: char) -> bool {
    let u = c as u32;
    ||| (0x30 <= u && u <= 0x39)
    ||| (0x41 <= u && u <= 0x5a)
    ||| (0x61 <= u && u <= 0x7a)
}

pub fn is_control(c: char) -> (r: bool)
    ensures
        r == is_control_spec(c),
{
    let u = c as u32;
    u <= 0x1f || (0x7f <= u && u <= 0x9f)
}

pub fn is_ws(c: char) -> (r: bool)
    ensures
        r == is_ws_spec(c),
{
    let u = c as u32;
    (0x09 <= u && u <= 0x0d) || u == 0x20 || u == 0x85 || u == 0xa0 || u == 0x1680 || (0x2000
        <= u && u <= 0x200a) || u == 0x2028 || u == 0x2029 || u == 0x202f || u == 0x205f || u
        == 0x3000
}

pub fn is_ascii_alnum(c: char) -> (r: bool)
    ensures
        r == is_ascii_alnum_spec(c),
{
    let u = c as u32;
    (0x30 <= u && u <= 0x39) || (0x41 <= u && u <= 0x5a) || (0x61 <= u && u <= 0x7a)
}

/// The characters of a string, in order.
pub fn chars_of(s: &str) -> (r: Vec<char>)
    ensures
        r@ == s@,
{
    let mut out: Vec<char> = Vec::new();
    for c in it: s.chars()
        invariant
            it.seq() == s@,
            out@ == it.seq().take(it.index() as int),
    {
        out.push(c);
    }
    out
}

/// `String::push`.
#[verifier::external_body]
pub fn push_char(s: &mut String, c: char)
    ensures
        final(s)@ == old(s)@.push(c),
{
    s.push(c)
}

/// `String::push_str`.
#[verifier::external_body]
pub fn push_str(s: &mut String, t: &str)
    ensures
        final(s)@ == old(s)@ + t@,
{
    s.push_str(t)
}

/// An owned copy of a string slice.
pub fn to_owned_string(s: &str) -> (r: String)
    ensures
        r@ == s@,
{
    s.to_owned()
}

/// A string holding exactly the given characters.
pub fn string_from_chars(v: &Vec<char>) -> (r: String)
    ensures
        r@ == v@,
{
    let mut out = String::new();
    let mut i: usize = 0;
    while i < v.len()
        invariant
            i <= v.len(),
            out@ == v@.take(i as int),
        decreases v.len() - i,
    {
        push_char(&mut out, v[i]);
        assert(v@.take(i + 1) =~= v@.take(i as int).push(v@[i as int]));
        i = i + 1;
    }
    assert(v@.take(v.len() as int) =~= v@);
    out
}

/// Character equality of two strings.
pub fn str_eq(a: &str, b: &str) -> (r: bool)
    ensures
        r == (a@ == b@),
{
    let va = chars_of(a);
    let vb = chars_of(b);
    if va.len() != vb.len() {
        return false;
    }
    let mut i: usize = 0;
    while i < va.len()
        invariant
            i <= va.len(),
            va.len() == vb.len(),
            va@ == a@,
            vb@ == b@,
            forall|j: int| 0 <= j < i ==> va@[j] == vb@[j],
        decreases va.len() - i,
    {
        if va[i] != vb[i] {
            return false;
        }
        i = i + 1;
    }
    assert(va@ =~= vb@);
    true
}

pub open spec fn digit_char(d: nat) -> char {
    if d == 0 {
        '0'
    } else if d == 1 {
        '1'
    } else if d == 2 {
        '2'
    } else if d == 3 {
        '3'
    } else if d == 4 {
        '4'
    } else if d == 5 {
        '5'
    } else if d == 6 {
        '6'
    } else if d == 7 {
        '7'
    } else if d == 8 {
        '8'
    } else {
        '9'
    }
}

/// The decimal rendering of a natural number, without leading zeros.
pub open spec fn decimal(n: nat) -> Seq<char>
    decreases n,
{
    if n < 10 {
        seq![digit_char(n)]
    } else {
        decimal(n / 10).push(digit_char(n % 10))
    }
}

pub fn digit_of(d: u64) -> (c: char)
    requires
        d < 10,
    ensures
        c == digit_char(d as nat),
{
    if d == 0 {
        '0'
    } else if d == 1 {
        '1'
    } else if d == 2 {
        '2'
    } else if d == 3 {
        '3'
    } else if d == 4 {
        '4'
    } else if d == 5 {
        '5'
    } else if d == 6 {
        '6'
    } else if d == 7 {
        '7'
    } else if d == 8 {
        '8'
    } else {
        '9'
    }
}

/// Appends the decimal rendering of `n` (as `u64::to_string` does).
pub fn push_decimal(out: &mut String, n: u64)
    ensures
        final(out)@ == old(out)@ + decimal(n as nat),
    decreases n,
{
    if n < 10 {
        push_char(out, digit_of(n));
    } else {
        push_decimal(out, n / 10);
        push_char(out, digit_of(n % 10));
    }
}

/// The decimal rendering of `n`.
pub fn decimal_string(n: u64) -> (r: String)
    ensures
        r@ == decimal(n as nat),
{
    let mut s = String::new();
    push_decimal(&mut s, n);
    s
}


/// The views of a list of character vectors.
pub open spec fn views(v: Seq<Vec<char>>) -> Seq<Seq<char>> {
    v.map_values(|x: Vec<char>| x@)
}

/// `str::split_whitespace`: the maximal runs of non-whitespace characters.
pub open spec fn words(s: Seq<char>) -> Seq<Seq<char>>
    decreases s.len(),
{
    if s.len() == 0 {
        seq![]
    } else {
        let w = words(s.drop_last());
        let c = s.last();
        if is_ws_spec(c) {
            w
        } else if s.len() >= 2 && !is_ws_spec(s[s.len() - 2]) && w.len() > 0 {
            w.drop_last().push(w.last().push(c))
        } else {
            w.push(seq![c])
        }
    }
}

/// The parts joined with `sep` between neighbours (`[..].join(sep)`).
pub open spec fn join(parts: Seq<Seq<char>>, sep: Seq<char>) -> Seq<char>
    decreases parts.len(),
{
    if parts.len() == 0 {
        seq![]
    } else if parts.len() == 1 {
        parts[0]
    } else {
        join(parts.drop_last(), sep) + sep + parts.last()
    }
}

/// `split_whitespace().collect::<Vec<_>>().join(" ")`.
pub open spec fn collapse_ws(s: Seq<char>) -> Seq<char> {
    join(words(s), seq![' '])
}

/// `str::split(d)`: the pieces between occurrences of `d` (always at least one).
pub open spec fn split_on(s: Seq<char>, d: char) -> Seq<Seq<char>>
    decreases s.len(),
{
    if s.len() == 0 {
        seq![seq![]]
    } else {
        let p = split_on(s.drop_last(), d);
        if s.last() == d {
            p.push(seq![])
        } else {
            p.drop_last().push(p.last().push(s.last()))
        }
    }
}

pub proof fn lemma_split_on_nonempty(s: Seq<char>, d: char)
    ensures
        split_on(s, d).len() >= 1,
    decreases s.len(),
{
    if s.len() > 0 {
        lemma_split_on_nonempty(s.drop_last(), d);
    }
}

/// Every word is non-empty and made of non-whitespace characters of `s`; a string
/// that ends in a non-whitespace character has at least one word.
pub proof fn lemma_words_shape(s: Seq<char>)
    ensures
        forall|k: int| 0 <= k < words(s).len() ==> #[trigger] words(s)[k].len() > 0,
        forall|k: int, j: int|
            0 <= k < words(s).len() && 0 <= j < words(s)[k].len() ==> !is_ws_spec(
                #[trigger] words(s)[k][j],
            ) && s.contains(words(s)[k][j]),
        s.len() > 0 && !is_ws_spec(s.last()) ==> words(s).len() > 0,
    decreases s.len(),
{
    if s.len() > 0 {
        let t = s.drop_last();
        lemma_words_shape(t);
        let w = words(t);
        let c = s.last();
        assert forall|x: char| t.contains(x) implies s.contains(x) by {
            let i = choose|i: int| 0 <= i < t.len() && t[i] == x;
            assert(s[i] == x);
        }
        assert(s[s.len() - 1] == c);
        if is_ws_spec(c) {
        } else if s.len() >= 2 && !is_ws_spec(s[s.len() - 2]) && w.len() > 0 {
            let nw = w.drop_last().push(w.last().push(c));
            assert forall|k: int, j: int| 0 <= k < nw.len() && 0 <= j < nw[k].len() implies !is_ws_spec(
                #[trigger] nw[k][j],
            ) && s.contains(nw[k][j]) by {
                if k < nw.len() - 1 {
                    assert(nw[k] == w[k]);
                } else {
                    if j < w.last().len() {
                        assert(nw[k][j] == w[w.len() - 1][j]);
                    } else {
                        assert(nw[k][j] == c);
                    }
                }
            }
            assert forall|k: int| 0 <= k < nw.len() implies #[trigger] nw[k].len() > 0 by {
                if k < nw.len() - 1 {
                    assert(nw[k] == w[k]);
                }
            }
        } else {
            let nw = w.push(seq![c]);
            assert forall|k: int, j: int| 0 <= k < nw.len() && 0 <= j < nw[k].len() implies !is_ws_spec(
                #[trigger] nw[k][j],
            ) && s.contains(nw[k][j]) by {
                if k < nw.len() - 1 {
                    assert(nw[k] == w[k]);
                } else {
                    assert(nw[k][j] == c);
                }
            }
            assert forall|k: int| 0 <= k < nw.len() implies #[trigger] nw[k].len() > 0 by {
                if k < nw.len() - 1 {
                    assert(nw[k] == w[k]);
                }
            }
        }
    }
}

pub proof fn lemma_join_push(parts: Seq<Seq<char>>, p: Seq<char>, sep: Seq<char>)
    ensures
        join(parts.push(p), sep) == (if parts.len() == 0 {
            p
        } else {
            join(parts, sep) + sep + p
        }),
{
    assert(parts.push(p).drop_last() =~= parts);
    if parts.len() == 0 {
        assert(parts.push(p)[0] == p);
    }
}

/// A text with no whitespace at either end and no two whitespace characters in a row.
pub open spec fn single_spaced(r: Seq<char>) -> bool {
    &&& r.len() > 0 ==> !is_ws_spec(r[0]) && !is_ws_spec(r[r.len() - 1])
    &&& forall|i: int|
        0 <= i < r.len() - 1 && is_ws_spec(#[trigger] r[i]) ==> !is_ws_spec(r[i + 1])
}

/// Non-empty parts without whitespace, joined by single spaces, are single-spaced.
pub proof fn lemma_join_single_spaced(parts: Seq<Seq<char>>)
    requires
        forall|k: int| 0 <= k < parts.len() ==> #[trigger] parts[k].len() > 0,
        forall|k: int, j: int|
            0 <= k < parts.len() && 0 <= j < parts[k].len() ==> !is_ws_spec(#[trigger] parts[k][j]),
    ensures
        single_spaced(join(parts, seq![' '])),
        parts.len() > 0 ==> join(parts, seq![' ']).len() > 0,
    decreases parts.len(),
{
    let r = join(parts, seq![' ']);
    if parts.len() == 1 {
        assert(r == parts[0]);
        assert(!is_ws_spec(parts[0][0]));
        assert(!is_ws_spec(parts[0][parts[0].len() - 1]));
    } else if parts.len() > 1 {
        let q = parts.drop_last();
        assert forall|k: int| 0 <= k < q.len() implies #[trigger] q[k].len() > 0 by {
            assert(q[k] == parts[k]);
        }
        assert forall|k: int, j: int| 0 <= k < q.len() && 0 <= j < q[k].len() implies !is_ws_spec(
            #[trigger] q[k][j],
        ) by {
            assert(q[k] == parts[k]);
        }
        lemma_join_single_spaced(q);
        let jq = join(q, seq![' ']);
        let last = parts[parts.len() - 1];
        assert(last.len() > 0);
        assert(r == jq + seq![' '] + last);
        assert(!is_ws_spec(last[0]));
        assert(!is_ws_spec(last[last.len() - 1]));
        assert(r[0] == jq[0]);
        assert(r[r.len() - 1] == last[last.len() - 1]);
        assert forall|i: int| 0 <= i < r.len() - 1 && is_ws_spec(#[trigger] r[i]) implies !is_ws_spec(
            r[i + 1],
        ) by {
            if i < jq.len() - 1 {
                assert(r[i] == jq[i]);
                assert(r[i + 1] == jq[i + 1]);
            } else if i == jq.len() - 1 {
                assert(r[i] == jq[jq.len() - 1]);
            } else if i == jq.len() {
                assert(r[i + 1] == last[0]);
            } else {
                let j = i - jq.len() - 1;
                assert(r[i] == last[j]);
            }
        }
    }
}

/// Text whose only whitespace is single spaces, none leading and never two in a row,
/// collapses to itself less a trailing space.
proof fn lemma_collapse_ws_spaced(s: Seq<char>)
    requires
        forall|i: int| 0 <= i < s.len() && is_ws_spec(#[trigger] s[i]) ==> s[i] == ' ',
        s.len() > 0 ==> !is_ws_spec(s[0]),
        forall|i: int| 0 <= i < s.len() - 1 && is_ws_spec(#[trigger] s[i]) ==> !is_ws_spec(s[i + 1]),
    ensures
        collapse_ws(s) == (if s.len() > 0 && is_ws_spec(s.last()) {
            s.drop_last()
        } else {
            s
        }),
    decreases s.len(),
{
    if s.len() > 0 {
        let t = s.drop_last();
        let c = s.last();
        assert forall|i: int| 0 <= i < t.len() && is_ws_spec(#[trigger] t[i]) implies t[i] == ' ' by {
            assert(t[i] == s[i]);
        }
        assert forall|i: int| 0 <= i < t.len() - 1 && is_ws_spec(#[trigger] t[i]) implies !is_ws_spec(
            t[i + 1],
        ) by {
            assert(t[i] == s[i]);
            assert(t[i + 1] == s[i + 1]);
        }
        if t.len() > 0 {
            assert(t[0] == s[0]);
        }
        lemma_collapse_ws_spaced(t);
        let w = words(t);
        let sep = seq![' '];
        if is_ws_spec(c) {
            assert(words(s) == w);
            if t.len() > 0 {
                assert(t.last() == s[s.len() - 2]);
                assert(!is_ws_spec(t.last()));
            }
        } else if t.len() == 0 {
            assert(words(s) == seq![seq![c]]);
            assert(join(seq![seq![c]], sep) == seq![c]);
            assert(s =~= seq![c]);
        } else if !is_ws_spec(t.last()) {
            assert(t.last() == s[s.len() - 2]);
            lemma_words_shape(t);
            assert(w.len() > 0);
            assert(join(w, sep) == t);
            let nw = w.drop_last().push(w.last().push(c));
            assert(words(s) == nw);
            if w.len() == 1 {
                assert(nw =~= seq![w[0].push(c)]);
                assert(join(nw, sep) == w[0].push(c));
                assert(join(w, sep) == w[0]);
            } else {
                assert(nw.drop_last() =~= w.drop_last());
                assert(join(nw, sep) == join(w.drop_last(), sep) + sep + w.last().push(c));
                assert(join(w, sep) == join(w.drop_last(), sep) + sep + w.last());
            }
            assert(join(nw, sep) =~= t.push(c));
            assert(s =~= t.push(c));
        } else {
            assert(t.last() == s[s.len() - 2]);
            assert(words(s) == w.push(seq![c]));
            lemma_join_push(w, seq![c], sep);
            assert(join(w, sep) == t.drop_last());
            if w.len() == 0 {
                assert(t.drop_last().len() == 0);
                assert(t.len() == 1);
                assert(false);
            }
            assert(t.drop_last() + sep + seq![c] =~= s);
        }
    }
}

/// Single-spaced text whose only whitespace is the space collapses to itself.
pub proof fn lemma_collapse_ws_identity(s: Seq<char>)
    requires
        single_spaced(s),
        forall|i: int| 0 <= i < s.len() && is_ws_spec(#[trigger] s[i]) ==> s[i] == ' ',
    ensures
        collapse_ws(s) == s,
{
    lemma_collapse_ws_spaced(s);
}

/// `collapse_ws` gives a single-spaced text.
pub proof fn lemma_collapse_ws_single_spaced(s: Seq<char>)
    ensures
        single_spaced(collapse_ws(s)),
{
    lemma_words_shape(s);
    lemma_join_single_spaced(words(s));
}

/// Every character of a join comes from a part or from the separator.
pub proof fn lemma_join_chars(parts: Seq<Seq<char>>, sep: Seq<char>)
    ensures
        forall|i: int|
            0 <= i < join(parts, sep).len() ==> sep.contains(#[trigger] join(parts, sep)[i])
                || exists|k: int, j: int|
                0 <= k < parts.len() && 0 <= j < parts[k].len() && parts[k][j] == join(
                    parts,
                    sep,
                )[i],
    decreases parts.len(),
{
    if parts.len() == 1 {
        assert forall|i: int| 0 <= i < join(parts, sep).len() implies sep.contains(
            #[trigger] join(parts, sep)[i],
        ) || exists|k: int, j: int|
            0 <= k < parts.len() && 0 <= j < parts[k].len() && parts[k][j] == join(
                parts,
                sep,
            )[i] by {
            assert(parts[0][i] == join(parts, sep)[i]);
        }
    } else if parts.len() > 1 {
        let q = parts.drop_last();
        lemma_join_chars(q, sep);
        let jq = join(q, sep);
        let whole = join(parts, sep);
        assert(whole == jq + sep + parts.last());
        assert forall|i: int| 0 <= i < whole.len() implies sep.contains(#[trigger] whole[i])
            || exists|k: int, j: int|
            0 <= k < parts.len() && 0 <= j < parts[k].len() && parts[k][j] == whole[i] by {
            if i < jq.len() {
                assert(whole[i] == jq[i]);
                if !sep.contains(jq[i]) {
                    let (k, j) = choose|k: int, j: int|
                        0 <= k < q.len() && 0 <= j < q[k].len() && q[k][j] == jq[i];
                    assert(parts[k] == q[k]);
                }
            } else if i < jq.len() + sep.len() {
                assert(whole[i] == sep[i - jq.len()]);
            } else {
                let j = i - jq.len() - sep.len();
                assert(whole[i] == parts[parts.len() - 1][j]);
            }
        }
    }
}

/// The parts of `v` as vectors, built by splitting at `d`.
pub fn split_chars(v: &Vec<char>, d: char) -> (r: Vec<Vec<char>>)
    ensures
        views(r@) == split_on(v@, d),
        r.len() >= 1,
{
    let mut parts: Vec<Vec<char>> = Vec::new();
    let mut cur: Vec<char> = Vec::new();
    let mut i: usize = 0;
    proof {
        assert(v@.take(0) =~= Seq::<char>::empty());
    }
    while i < v.len()
        invariant
            i <= v.len(),
            views(parts@).push(cur@) == split_on(v@.take(i as int), d),
        decreases v.len() - i,
    {
        let c = v[i];
        proof {
            let t = v@.take(i + 1);
            assert(t.drop_last() =~= v@.take(i as int));
            assert(t.last() == c);
            lemma_split_on_nonempty(v@.take(i as int), d);
        }
        if c == d {
            let done = cur;
            parts.push(done);
            cur = Vec::new();
            proof {
                assert(views(parts@) =~= split_on(v@.take(i as int), d));
                assert(views(parts@).push(cur@) =~= split_on(v@.take(i + 1), d));
            }
        } else {
            let ghost old_cur = cur@;
            cur.push(c);
            proof {
                let p = split_on(v@.take(i as int), d);
                assert(p.last() == old_cur);
                assert(p.drop_last() =~= views(parts@));
                assert(views(parts@).push(cur@) =~= split_on(v@.take(i + 1), d));
            }
        }
        i = i + 1;
    }
    parts.push(cur);
    proof {
        assert(v@.take(v.len() as int) =~= v@);
    }
    parts
}

/// The words of `v`, as `split_whitespace` yields them.
pub fn words_of(v: &Vec<char>) -> (r: Vec<Vec<char>>)
    ensures
        views(r@) == words(v@),
{
    let mut ws: Vec<Vec<char>> = Vec::new();
    let mut cur: Vec<char> = Vec::new();
    let mut in_word = false;
    let mut i: usize = 0;
    proof {
        assert(v@.take(0) =~= Seq::<char>::empty());
    }
    while i < v.len()
        invariant
            i <= v.len(),
            in_word == (i > 0 && !is_ws_spec(v@[i - 1])),
            in_word ==> words(v@.take(i as int)) == views(ws@).push(cur@),
            !in_word ==> words(v@.take(i as int)) == views(ws@),
        decreases v.len() - i,
    {
        let c = v[i];
        let ghost t = v@.take(i + 1);
        proof {
            assert(t.drop_last() =~= v@.take(i as int));
            assert(t.last() == c);
            if i > 0 {
                assert(t[t.len() - 2] == v@[i - 1]);
            }
        }
        if is_ws(c) {
            if in_word {
                let done = cur;
                ws.push(done);
                cur = Vec::new();
                proof {
                    assert(views(ws@) =~= words(v@.take(i as int)));
                }
            }
            in_word = false;
        } else {
            if in_word {
                let ghost old_cur = cur@;
                cur.push(c);
                proof {
                    let w = words(v@.take(i as int));
                    assert(w.len() > 0);
                    assert(w.drop_last() =~= views(ws@));
                    assert(views(ws@).push(cur@) =~= w.drop_last().push(w.last().push(c)));
                }
            } else {
                cur = Vec::new();
                cur.push(c);
                proof {
                    assert(cur@ =~= seq![c]);
                    assert(views(ws@).push(cur@) =~= words(v@.take(i as int)).push(seq![c]));
                }
            }
            in_word = true;
        }
        i = i + 1;
    }
    if in_word {
        ws.push(cur);
        proof {
            assert(views(ws@) =~= words(v@.take(i as int)));
        }
    }
    proof {
        assert(v@.take(v.len() as int) =~= v@);
    }
    ws
}

/// The parts joined with `sep` between neighbours.
pub fn join_chars(parts: &Vec<Vec<char>>, sep: &Vec<char>) -> (r: Vec<char>)
    ensures
        r@ == join(views(parts@), sep@),
{
    let mut out: Vec<char> = Vec::new();
    let mut i: usize = 0;
    while i < parts.len()
        invariant
            i <= parts.len(),
            out@ == join(views(parts@).take(i as int), sep@),
        decreases parts.len() - i,
    {
        proof {
            let q = views(parts@).take(i as int);
            assert(views(parts@).take(i + 1) =~= q.push(parts@[i as int]@));
            lemma_join_push(q, parts@[i as int]@, sep@);
        }
        if i > 0 {
            let mut k: usize = 0;
            let ghost base = out@;
            while k < sep.len()
                invariant
                    k <= sep.len(),
                    out@ == base + sep@.take(k as int),
                decreases sep.len() - k,
            {
                out.push(sep[k]);
                assert(sep@.take(k + 1) =~= sep@.take(k as int).push(sep@[k as int]));
                k = k + 1;
            }
            assert(sep@.take(sep.len() as int) =~= sep@);
        }
        let p = &parts[i];
        let mut k: usize = 0;
        let ghost base = out@;
        while k < p.len()
            invariant
                k <= p.len(),
                out@ == base + p@.take(k as int),
            decreases p.len() - k,
        {
            out.push(p[k]);
            assert(p@.take(k + 1) =~= p@.take(k as int).push(p@[k as int]));
            k = k + 1;
        }
        assert(p@.take(p.len() as int) =~= p@);
        i = i + 1;
    }
    assert(views(parts@).take(parts.len() as int) =~= views(parts@));
    out
}

/// `split_whitespace().collect::<Vec<_>>().join(" ")`.
pub fn collapse_whitespace(v: &Vec<char>) -> (r: Vec<char>)
    ensures
        r@ == collapse_ws(v@),
{
    let ws = words_of(v);
    let sep = vec![' '];
    assert(sep@ =~= seq![' ']);
    join_chars(&ws, &sep)
}

pub open spec fn pair_views(v: Seq<(String, String)>) -> Seq<(Seq<char>, Seq<char>)> {
    v.map_values(|p: (String, String)| (p.0@, p.1@))
}

/// The value of `key` in a list of pairs collected into a map: the last pair with
/// that key wins, as with `HashMap::from_iter`.
pub open spec fn last_value(pairs: Seq<(Seq<char>, Seq<char>)>, key: Seq<char>) -> Option<Seq<char>>
    decreases pairs.len(),
{
    if pairs.len() == 0 {
        None
    } else if pairs.last().0 == key {
        Some(pairs.last().1)
    } else {
        last_value(pairs.drop_last(), key)
    }
}

pub fn lookup_last(pairs: &Vec<(String, String)>, key: &str) -> (r: Option<String>)
    ensures
        match r { Some(x) => Some(x@), None => None } == last_value(pair_views(pairs@), key@),
{
    let mut i = pairs.len();
    assert(pair_views(pairs@).take(i as int) =~= pair_views(pairs@));
    while i > 0
        invariant
            i <= pairs.len(),
            last_value(pair_views(pairs@), key@) == last_value(pair_views(pairs@).take(i as int), key@),
        decreases i,
    {
        let ghost t = pair_views(pairs@).take(i as int);
        assert(t.drop_last() =~= pair_views(pairs@).take(i - 1));
        assert(t.last() == (pairs@[i - 1].0@, pairs@[i - 1].1@));
        if str_eq(pairs[i - 1].0.as_str(), key) {
            return Some(pairs[i - 1].1.clone());
        }
        i = i - 1;
    }
    None
}

/// Whether `s` begins with `p`.
pub open spec fn starts_with(s: Seq<char>, p: Seq<char>) -> bool {
    p.len() <= s.len() && s.take(p.len() as int) == p
}

/// `strip_prefix`: what follows `p` in `s`, when `s` begins with `p`.
pub fn strip_prefix(s: &Vec<char>, p: &str) -> (r: Option<Vec<char>>)
    ensures
        match r {
            Some(x) => starts_with(s@, p@) && x@ == s@.skip(p@.len() as int),
            None => !starts_with(s@, p@),
        },
{
    let pv = chars_of(p);
    if pv.len() > s.len() {
        return None;
    }
    let mut i: usize = 0;
    while i < pv.len()
        invariant
            i <= pv.len(),
            pv.len() <= s.len(),
            pv@ == p@,
            forall|j: int| 0 <= j < i ==> s@[j] == pv@[j],
        decreases pv.len() - i,
    {
        if s[i] != pv[i] {
            assert(s@.take(pv.len() as int)[i as int] != p@[i as int]);
            return None;
        }
        i = i + 1;
    }
    assert(s@.take(pv.len() as int) =~= p@);
    let mut rest: Vec<char> = Vec::new();
    let mut k: usize = pv.len();
    while k < s.len()
        invariant
            pv.len() <= k <= s.len(),
            rest@ == s@.subrange(pv.len() as int, k as int),
        decreases s.len() - k,
    {
        rest.push(s[k]);
        assert(s@.subrange(pv.len() as int, k + 1) =~= s@.subrange(pv.len() as int, k as int).push(s@[k as int]));
        k = k + 1;
    }
    assert(rest@ =~= s@.skip(p@.len() as int));
    Some(rest)
}

} // verus!
