//! vCard values: escaping, making and parsing vCards.

use std::fmt::Write;

use vstd::prelude::*;

use crate::contact_tools::{
    regex_captures_result, name_addr_pattern, sanitize_name_and_addr,
    spec_sanitize_name_and_addr,
};
use crate::text::{chars_of, lit, push_all, string_of, sub_chars};

verus! {

/// How one character is written in an escaped vCard value.
pub open spec fn escape_char(c: char) -> Seq<char> {
    if c == '\\' {
        seq!['\\', '\\']
    } else if c == ',' {
        seq!['\\', ',']
    } else if c == ';' {
        seq!['\\', ';']
    } else if c == '\n' {
        seq!['\\', 'n']
    } else {
        seq![c]
    }
}

/// What `escape` returns: every backslash, comma, semicolon and newline escaped.
pub open spec fn spec_escape(s: Seq<char>) -> Seq<char>
    decreases s.len(),
{
    if s.len() == 0 {
        Seq::empty()
    } else {
        escape_char(s[0]) + spec_escape(s.skip(1))
    }
}

/// What `unescape` returns: `\\`, `\,`, `\;` become the escaped character, `\n` and
/// `\N` become a newline, any other backslash is kept.
pub open spec fn spec_unescape(s: Seq<char>) -> Seq<char>
    decreases s.len(),
{
    if s.len() == 0 {
        Seq::empty()
    } else if s[0] == '\\' {
        if s.len() == 1 {
            seq!['\\']
        } else {
            let next = s[1];
            if next == '\\' || next == ',' || next == ';' {
                seq![next] + spec_unescape(s.skip(2))
            } else if next == 'n' || next == 'N' {
                seq!['\n'] + spec_unescape(s.skip(2))
            } else {
                seq!['\\', next] + spec_unescape(s.skip(2))
            }
        }
    } else {
        seq![s[0]] + spec_unescape(s.skip(1))
    }
}

proof fn lemma_escape_skip(s: Seq<char>, i: int)
    requires
        0 <= i < s.len(),
    ensures
        spec_escape(s.skip(i)) == escape_char(s[i]) + spec_escape(s.skip(i + 1)),
{
    assert(s.skip(i).skip(1) =~= s.skip(i + 1));
}

fn escape_chars(v: &[char]) -> (r: Vec<char>)
    ensures
        r@ == spec_escape(v@),
{
    let mut out: Vec<char> = Vec::new();
    let mut i: usize = 0;
    proof {
        assert(v@.skip(0) =~= v@);
    }
    while i < v.len()
        invariant
            i <= v.len(),
            out@ + spec_escape(v@.skip(i as int)) == spec_escape(v@),
        decreases v.len() - i,
    {
        proof {
            lemma_escape_skip(v@, i as int);
        }
        let ghost before = out@;
        let c = v[i];
        if c == '\\' {
            out.push('\\');
            out.push('\\');
        } else if c == ',' {
            out.push('\\');
            out.push(',');
        } else if c == ';' {
            out.push('\\');
            out.push(';');
        } else if c == '\n' {
            out.push('\\');
            out.push('n');
        } else {
            out.push(c);
        }
        proof {
            assert(out@ =~= before + escape_char(v@[i as int]));
            assert(out@ + spec_escape(v@.skip(i + 1)) =~= before + (escape_char(v@[i as int])
                + spec_escape(v@.skip(i + 1))));
        }
        i += 1;
    }
    proof {
        assert(v@.skip(v.len() as int) =~= Seq::<char>::empty());
        assert(out@ + Seq::<char>::empty() =~= out@);
    }
    out
}

/// Escapes a vCard value (RFC 6350, section 3.4).
pub fn escape(s: &str) -> (r: String)
    ensures
        r@ == spec_escape(s@),
{
    let v = chars_of(s);
    let r = escape_chars(&v);
    string_of(&r)
}

fn unescape_chars(v: &[char]) -> (r: Vec<char>)
    ensures
        r@ == spec_unescape(v@),
{
    let mut out: Vec<char> = Vec::new();
    let mut i: usize = 0;
    proof {
        assert(v@.skip(0) =~= v@);
    }
    while i < v.len()
        invariant
            i <= v.len(),
            out@ + spec_unescape(v@.skip(i as int)) == spec_unescape(v@),
        decreases v.len() - i,
    {
        let ghost before = out@;
        let ghost rest = v@.skip(i as int);
        let c = v[i];
        if c == '\\' {
            if i + 1 < v.len() {
                let next = v[i + 1];
                if next == '\\' || next == ',' || next == ';' {
                    out.push(next);
                } else if next == 'n' || next == 'N' {
                    out.push('\n');
                } else {
                    out.push('\\');
                    out.push(next);
                }
                proof {
                    assert(rest.skip(2) =~= v@.skip(i + 2));
                    assert(rest[1] == next);
                    assert(out@ + spec_unescape(v@.skip(i + 2)) =~= before + spec_unescape(rest));
                }
                i += 2;
            } else {
                out.push('\\');
                proof {
                    assert(rest.len() == 1);
                    assert(v@.skip(i + 1) =~= Seq::<char>::empty());
                    assert(out@ + spec_unescape(v@.skip(i + 1)) =~= before + spec_unescape(rest));
                }
                i += 1;
            }
        } else {
            out.push(c);
            proof {
                assert(rest.skip(1) =~= v@.skip(i + 1));
                assert(out@ + spec_unescape(v@.skip(i + 1)) =~= before + spec_unescape(rest));
            }
            i += 1;
        }
    }
    proof {
        assert(v@.skip(v.len() as int) =~= Seq::<char>::empty());
        assert(out@ + Seq::<char>::empty() =~= out@);
    }
    out
}

/// Unescapes a vCard value (RFC 6350, section 3.4); invalid escape sequences are kept.
pub fn unescape(s: &str) -> (r: String)
    ensures
        r@ == spec_unescape(s@),
{
    let v = chars_of(s);
    let r = unescape_chars(&v);
    string_of(&r)
}

/// Unescaping an escaped value gives the value back.
pub proof fn unescape_escape_round_trip(s: Seq<char>)
    ensures
        spec_unescape(spec_escape(s)) == s,
    decreases s.len(),
{
    if s.len() > 0 {
        unescape_escape_round_trip(s.skip(1));
        let c = s[0];
        let e = spec_escape(s);
        let rest = spec_escape(s.skip(1));
        assert(e == escape_char(c) + rest);
        if c == '\\' || c == ',' || c == ';' || c == '\n' {
            assert(e.skip(2) =~= rest);
            assert(e[0] == '\\');
        } else {
            assert(e.skip(1) =~= rest);
            assert(e[0] == c);
        }
        assert(seq![c] + s.skip(1) =~= s);
    }
}

/// The characters held by an optional vector.
pub open spec fn opt_seq(o: Option<Vec<char>>) -> Option<Seq<char>> {
    match o {
        Some(v) => Some(v@),
        None => None,
    }
}

/// Start and end positions of the lines of `v`, as `spec_lines` gives them.
pub fn line_bounds(v: &[char]) -> (r: Vec<(usize, usize)>)
    ensures
        r.len() == spec_lines(v@).len(),
        forall|i: int|
            #![trigger r@[i]]
            0 <= i < r.len() ==> r@[i].0 <= r@[i].1 <= v@.len() && spec_lines(v@)[i] == v@.subrange(
                r@[i].0 as int,
                r@[i].1 as int,
            ),
{
    let mut out: Vec<(usize, usize)> = Vec::new();
    let mut i: usize = 0;
    let ghost mut done: Seq<Seq<char>> = Seq::empty();
    proof {
        assert(v@.skip(0) =~= v@);
    }
    while i < v.len()
        invariant
            i <= v.len(),
            done + spec_lines(v@.skip(i as int)) == spec_lines(v@),
            out.len() == done.len(),
            forall|k: int|
                #![trigger out@[k]]
                0 <= k < out.len() ==> out@[k].0 <= out@[k].1 <= v@.len() && done[k] == v@.subrange(
                    out@[k].0 as int,
                    out@[k].1 as int,
                ),
        decreases v.len() - i,
    {
        let ghost t = v@.skip(i as int);
        proof {
            lemma_lines_step(v@, i as int);
            lemma_first_index_of(t, '\n');
        }
        let ghost before = done;
        match first_index(v, i, '\n') {
            None => {
                out.push((i, v.len()));
                proof {
                    assert(v@.subrange(i as int, v.len() as int) =~= t);
                    done = before.push(t);
                    assert forall|m: int| #![trigger out@[m]] 0 <= m < out.len() implies out@[m].0 <= out@[m].1 <= v@.len()
                        && done[m] == v@.subrange(out@[m].0 as int, out@[m].1 as int) by {
                        if m < out.len() - 1 {
                            assert(done[m] == before[m]);
                        }
                    }
                    assert(v@.skip(v.len() as int) =~= Seq::<char>::empty());
                    assert(done + Seq::<Seq<char>>::empty() =~= before + seq![t]);
                }
                i = v.len();
            },
            Some(k) => {
                let end = if k > i && v[k - 1] == '\r' {
                    k - 1
                } else {
                    k
                };
                assert(i <= end <= v@.len());
                out.push((i, end));
                proof {
                    assert(out@.last() == (i, end));
                    assert(out@.last().0 <= out@.last().1);
                    let f = k - i;
                    if f > 0 {
                        assert(t[f - 1] == v@[k - 1]);
                    }
                    let line = v@.subrange(i as int, end as int);
                    assert(line =~= if f > 0 && t[f - 1] == '\r' {
                        t.take(f - 1)
                    } else {
                        t.take(f)
                    });
                    assert(t.skip(f + 1) =~= v@.skip(k + 1));
                    done = before.push(line);
                    assert forall|m: int| #![trigger out@[m]] 0 <= m < out.len() implies out@[m].0 <= out@[m].1 <= v@.len()
                        && done[m] == v@.subrange(out@[m].0 as int, out@[m].1 as int) by {
                        if m < out.len() - 1 {
                            assert(done[m] == before[m]);
                        }
                    }
                    assert(done + spec_lines(v@.skip(k + 1)) =~= before + (seq![line] + spec_lines(
                        t.skip(f + 1),
                    )));
                }
                i = k + 1;
            },
        }
    }
    proof {
        assert(v@.skip(v.len() as int) =~= Seq::<char>::empty());
        assert(done + Seq::<Seq<char>>::empty() =~= done);
        assert(done == spec_lines(v@));
    }
    out
}

/// ASCII characters folded to lowercase, as `eq_ignore_ascii_case` compares them.
pub open spec fn ascii_fold(c: char) -> int {
    if 'A' <= c && c <= 'Z' {
        c as int + 32
    } else {
        c as int
    }
}

/// `s` without the prefix `p`, compared ignoring ASCII case; `None` if `s` does not
/// start with it.
pub open spec fn strip_prefix_ic(s: Seq<char>, p: Seq<char>) -> Option<Seq<char>> {
    if p.len() <= s.len() && forall|i: int| 0 <= i < p.len() ==> #[trigger] ascii_fold(s[i])
        == ascii_fold(p[i]) {
        Some(s.skip(p.len() as int))
    } else {
        None
    }
}

/// `s` equals `p`, ignoring ASCII case.
pub open spec fn eq_ic(s: Seq<char>, p: Seq<char>) -> bool {
    s.len() == p.len() && strip_prefix_ic(s, p) is Some
}

/// Position of the first `c` in `s`, or -1.
pub open spec fn first_index_of(s: Seq<char>, c: char) -> int
    decreases s.len(),
{
    if s.len() == 0 {
        -1
    } else if s[0] == c {
        0
    } else {
        let k = first_index_of(s.skip(1), c);
        if k < 0 {
            -1
        } else {
            k + 1
        }
    }
}

pub proof fn lemma_first_index_of(s: Seq<char>, c: char)
    ensures
        -1 <= first_index_of(s, c) < s.len(),
        first_index_of(s, c) >= 0 ==> s[first_index_of(s, c)] == c,
        forall|j: int|
            0 <= j < s.len() && (first_index_of(s, c) < 0 || j < first_index_of(s, c)) ==> s[j]
                != c,
    decreases s.len(),
{
    if s.len() > 0 && s[0] != c {
        lemma_first_index_of(s.skip(1), c);
        assert forall|j: int|
            0 <= j < s.len() && (first_index_of(s, c) < 0 || j < first_index_of(s, c)) implies s[j]
            != c by {
            if j > 0 {
                assert(s[j] == s.skip(1)[j - 1]);
            }
        }
    }
}

/// The lines of `s`, as `str::lines` gives them: split after each `\n`, with the `\n`
/// and a `\r` just before it removed, and no empty line after a final `\n`.
pub open spec fn spec_lines(s: Seq<char>) -> Seq<Seq<char>>
    decreases s.len(),
{
    if s.len() == 0 {
        Seq::empty()
    } else {
        let k = first_index_of(s, '\n');
        if k < 0 {
            seq![s]
        } else {
            proof {
                lemma_first_index_of(s, '\n');
            }
            let line = if k > 0 && s[k - 1] == '\r' {
                s.take(k - 1)
            } else {
                s.take(k)
            };
            seq![line] + spec_lines(s.skip(k + 1))
        }
    }
}

fn fold_char(c: char) -> (r: u32)
    ensures
        r as int == ascii_fold(c),
{
    if 'A' <= c && c <= 'Z' {
        (c as u32) + 32
    } else {
        c as u32
    }
}

fn strip_prefix_ic_chars(v: &[char], p: &[char]) -> (r: Option<Vec<char>>)
    ensures
        opt_seq(r) == strip_prefix_ic(v@, p@),
{
    if p.len() > v.len() {
        return None;
    }
    let mut i: usize = 0;
    while i < p.len()
        invariant
            i <= p.len() <= v.len(),
            forall|k: int| 0 <= k < i ==> #[trigger] ascii_fold(v@[k]) == ascii_fold(p@[k]),
        decreases p.len() - i,
    {
        if fold_char(v[i]) != fold_char(p[i]) {
            return None;
        }
        i += 1;
    }
    let rest = sub_chars(v, p.len(), v.len());
    proof {
        assert(rest@ =~= v@.skip(p.len() as int));
    }
    Some(rest)
}

fn eq_ic_chars(v: &[char], p: &[char]) -> (r: bool)
    ensures
        r == eq_ic(v@, p@),
{
    v.len() == p.len() && strip_prefix_ic_chars(v, p).is_some()
}

fn first_index(v: &[char], start: usize, c: char) -> (r: Option<usize>)
    requires
        start <= v.len(),
    ensures
        match r {
            Some(k) => start <= k < v.len() && k - start == first_index_of(v@.skip(start as int), c),
            None => first_index_of(v@.skip(start as int), c) == -1,
        },
{
    let ghost t = v@.skip(start as int);
    proof {
        lemma_first_index_of(t, c);
    }
    let mut i = start;
    while i < v.len()
        invariant
            start <= i <= v.len(),
            t == v@.skip(start as int),
            -1 <= first_index_of(t, c) < t.len(),
            first_index_of(t, c) >= 0 ==> t[first_index_of(t, c)] == c,
            forall|j: int|
                0 <= j < t.len() && (first_index_of(t, c) < 0 || j < first_index_of(t, c)) ==> t[j]
                    != c,
            forall|j: int| start <= j < i ==> v@[j] != c,
        decreases v.len() - i,
    {
        if v[i] == c {
            proof {
                assert(t[i - start] == c);
                let f = first_index_of(t, c);
                if f < 0 || f > i - start {
                    assert(t[i - start] != c);
                }
                if f >= 0 && f < i - start {
                    assert(v@[start + f] == t[f]);
                }
            }
            return Some(i);
        }
        i += 1;
    }
    proof {
        let f = first_index_of(t, c);
        if f >= 0 {
            assert(v@[start + f] == t[f]);
        }
    }
    None
}

proof fn lemma_lines_step(s: Seq<char>, i: int)
    requires
        0 <= i < s.len(),
    ensures
        ({
            let t = s.skip(i);
            let k = first_index_of(t, '\n');
            spec_lines(t) == if k < 0 {
                seq![t]
            } else {
                seq![
                    if k > 0 && t[k - 1] == '\r' {
                        t.take(k - 1)
                    } else {
                        t.take(k)
                    },
                ] + spec_lines(t.skip(k + 1))
            }
        }),
{
    lemma_first_index_of(s.skip(i), '\n');
}

/// The character sequences held by a list of character vectors.
pub open spec fn seqs_of(v: Seq<Vec<char>>) -> Seq<Seq<char>> {
    v.map_values(|l: Vec<char>| l@)
}

fn lines_of(v: &[char]) -> (r: Vec<Vec<char>>)
    ensures
        seqs_of(r@) == spec_lines(v@),
{
    let mut out: Vec<Vec<char>> = Vec::new();
    let mut i: usize = 0;
    proof {
        assert(v@.skip(0) =~= v@);
        assert(seqs_of(out@) =~= Seq::<Seq<char>>::empty());
    }
    while i < v.len()
        invariant
            i <= v.len(),
            seqs_of(out@) + spec_lines(v@.skip(i as int)) == spec_lines(v@),
        decreases v.len() - i,
    {
        let ghost t = v@.skip(i as int);
        proof {
            lemma_lines_step(v@, i as int);
            lemma_first_index_of(t, '\n');
        }
        let ghost before = seqs_of(out@);
        match first_index(v, i, '\n') {
            None => {
                let line = sub_chars(v, i, v.len());
                out.push(line);
                proof {
                    assert(line@ =~= t);
                    assert(seqs_of(out@) =~= before.push(t));
                    assert(v@.skip(v.len() as int) =~= Seq::<char>::empty());
                    assert(seqs_of(out@) + Seq::<Seq<char>>::empty() =~= before + seq![t]);
                }
                i = v.len();
            },
            Some(k) => {
                let end = if k > i && v[k - 1] == '\r' {
                    k - 1
                } else {
                    k
                };
                let line = sub_chars(v, i, end);
                out.push(line);
                proof {
                    let f = k - i;
                    if f > 0 {
                        assert(t[f - 1] == v@[k - 1]);
                    }
                    assert(line@ =~= if f > 0 && t[f - 1] == '\r' {
                        t.take(f - 1)
                    } else {
                        t.take(f)
                    });
                    assert(t.skip(f + 1) =~= v@.skip(k + 1));
                    assert(seqs_of(out@) =~= before.push(line@));
                    assert(seqs_of(out@) + spec_lines(v@.skip(k + 1)) =~= before + (seq![line@]
                        + spec_lines(t.skip(f + 1))));
                }
                i = k + 1;
            },
        }
    }
    proof {
        assert(v@.skip(v.len() as int) =~= Seq::<char>::empty());
        assert(seqs_of(out@) + Seq::<Seq<char>>::empty() =~= seqs_of(out@));
    }
    out
}

/// `c` is an ASCII punctuation character, as `char::is_ascii_punctuation` tests.
pub open spec fn is_ascii_punct(c: char) -> bool {
    ('!' <= c && c <= '/') || (':' <= c && c <= '@') || ('[' <= c && c <= '`') || ('{' <= c
        && c <= '~')
}

/// Parameters and raw value of the vCard property `prop` on `line`: the line starts
/// with `prop` (ignoring ASCII case), the parameters run up to the first `:` and start
/// with punctuation other than `_`; a leading `;` and then a leading `PREF=1` are
/// dropped from them.
pub open spec fn spec_property_raw(line: Seq<char>, prop: Seq<char>) -> Option<
    (Seq<char>, Seq<char>),
> {
    match strip_prefix_ic(line, prop) {
        None => None,
        Some(rem) => {
            let k = first_index_of(rem, ':');
            if k < 0 {
                None
            } else {
                let params = rem.take(k);
                let value = rem.skip(k + 1);
                if params.len() > 0 && (!is_ascii_punct(params[0]) || params[0] == '_') {
                    None
                } else {
                    let p1 = match strip_prefix_ic(params, seq![';']) {
                        Some(p) => p,
                        None => params,
                    };
                    let p2 = match strip_prefix_ic(p1, "PREF=1"@) {
                        Some(p) => p,
                        None => p1,
                    };
                    Some((p2, value))
                }
            }
        },
    }
}

/// The unescaped value of the vCard property `prop` on `line`.
pub open spec fn spec_property(line: Seq<char>, prop: Seq<char>) -> Option<Seq<char>> {
    match spec_property_raw(line, prop) {
        Some((_params, value)) => Some(spec_unescape(value)),
        None => None,
    }
}

/// The Base64 key on a `KEY` line.
pub open spec fn spec_base64_key(line: Seq<char>) -> Option<Seq<char>> {
    match spec_property_raw(line, "key"@) {
        None => None,
        Some((params, value)) => {
            if eq_ic(params, "PGP;ENCODING=BASE64"@) || eq_ic(params, "TYPE=PGP;ENCODING=b"@) {
                Some(value)
            } else {
                match strip_prefix_ic(value, "data:application/pgp-keys;base64\\,"@) {
                    Some(v) => Some(v),
                    None => strip_prefix_ic(value, "data:application/pgp-keys;base64,"@),
                }
            }
        },
    }
}

/// The Base64 image on a `PHOTO` line.
pub open spec fn spec_base64_photo(line: Seq<char>) -> Option<Seq<char>> {
    match spec_property_raw(line, "photo"@) {
        None => None,
        Some((params, value)) => {
            if eq_ic(params, "JPEG;ENCODING=BASE64"@) || eq_ic(params, "ENCODING=BASE64;JPEG"@)
                || eq_ic(params, "TYPE=JPEG;ENCODING=b"@) || eq_ic(params, "ENCODING=b;TYPE=JPEG"@)
                || eq_ic(params, "ENCODING=BASE64;TYPE=JPEG"@) || eq_ic(
                params,
                "TYPE=JPEG;ENCODING=BASE64"@,
            ) {
                Some(value)
            } else {
                match strip_prefix_ic(value, "data:image/jpeg;base64\\,"@) {
                    Some(v) => Some(v),
                    None => strip_prefix_ic(value, "data:image/jpeg;base64,"@),
                }
            }
        },
    }
}

fn is_ascii_punct_char(c: char) -> (r: bool)
    ensures
        r == is_ascii_punct(c),
{
    ('!' <= c && c <= '/') || (':' <= c && c <= '@') || ('[' <= c && c <= '`') || ('{' <= c
        && c <= '~')
}

fn strip_or_keep(v: Vec<char>, p: &[char]) -> (r: Vec<char>)
    ensures
        r@ == match strip_prefix_ic(v@, p@) {
            Some(q) => q,
            None => v@,
        },
{
    match strip_prefix_ic_chars(&v, p) {
        Some(q) => q,
        None => v,
    }
}

fn property_raw(line: &[char], prop: &[char]) -> (r: Option<(Vec<char>, Vec<char>)>)
    ensures
        match r {
            Some((params, value)) => spec_property_raw(line@, prop@) == Some::<
                (Seq<char>, Seq<char>),
            >((params@, value@)),
            None => spec_property_raw(line@, prop@) is None,
        },
{
    let rem = match strip_prefix_ic_chars(line, prop) {
        Some(rem) => rem,
        None => return None,
    };
    let k = match first_index(&rem, 0, ':') {
        Some(k) => k,
        None => {
            proof {
                assert(rem@.skip(0) =~= rem@);
            }
            return None;
        },
    };
    proof {
        assert(rem@.skip(0) =~= rem@);
    }
    let params = sub_chars(&rem, 0, k);
    let value = sub_chars(&rem, k + 1, rem.len());
    proof {
        assert(params@ =~= rem@.take(k as int));
        assert(value@ =~= rem@.skip(k + 1));
    }
    if params.len() > 0 && (!is_ascii_punct_char(params[0]) || params[0] == '_') {
        return None;
    }
    let semicolon = lit(";");
    proof {
        reveal_strlit(";");
        assert(semicolon@ =~= seq![';']);
    }
    let p1 = strip_or_keep(params, &semicolon);
    let pref = lit("PREF=1");
    let p2 = strip_or_keep(p1, &pref);
    Some((p2, value))
}

fn property(line: &[char], prop: &str) -> (r: Option<Vec<char>>)
    ensures
        opt_seq(r) == spec_property(line@, prop@),
{
    let p = lit(prop);
    match property_raw(line, &p) {
        Some((_params, value)) => Some(unescape_chars(&value)),
        None => None,
    }
}

fn strip_either(value: &[char], a: &str, b: &str) -> (r: Option<Vec<char>>)
    ensures
        opt_seq(r) == match strip_prefix_ic(value@, a@) {
            Some(v) => Some(v),
            None => strip_prefix_ic(value@, b@),
        },
{
    let pa = lit(a);
    match strip_prefix_ic_chars(value, &pa) {
        Some(v) => Some(v),
        None => {
            let pb = lit(b);
            strip_prefix_ic_chars(value, &pb)
        },
    }
}

fn params_are(params: &[char], p: &str) -> (r: bool)
    ensures
        r == eq_ic(params@, p@),
{
    let v = lit(p);
    eq_ic_chars(params, &v)
}

fn base64_key(line: &[char]) -> (r: Option<Vec<char>>)
    ensures
        opt_seq(r) == spec_base64_key(line@),
{
    let key = lit("key");
    match property_raw(line, &key) {
        None => None,
        Some((params, value)) => {
            if params_are(&params, "PGP;ENCODING=BASE64") || params_are(
                &params,
                "TYPE=PGP;ENCODING=b",
            ) {
                Some(value)
            } else {
                strip_either(
                    &value,
                    "data:application/pgp-keys;base64\\,",
                    "data:application/pgp-keys;base64,",
                )
            }
        },
    }
}

fn base64_photo(line: &[char]) -> (r: Option<Vec<char>>)
    ensures
        opt_seq(r) == spec_base64_photo(line@),
{
    let photo = lit("photo");
    match property_raw(line, &photo) {
        None => None,
        Some((params, value)) => {
            if params_are(&params, "JPEG;ENCODING=BASE64") || params_are(
                &params,
                "ENCODING=BASE64;JPEG",
            ) || params_are(&params, "TYPE=JPEG;ENCODING=b") || params_are(
                &params,
                "ENCODING=b;TYPE=JPEG",
            ) || params_are(&params, "ENCODING=BASE64;TYPE=JPEG") || params_are(
                &params,
                "TYPE=JPEG;ENCODING=BASE64",
            ) {
                Some(value)
            } else {
                strip_either(&value, "data:image/jpeg;base64\\,", "data:image/jpeg;base64,")
            }
        },
    }
}

/// The properties collected from one vCard, before names and timestamps are
/// interpreted. Only the first occurrence of each property counts.
pub struct VcardEntry {
    /// Value of the first `FN` property, unescaped.
    pub display_name: Option<String>,
    /// Value of the first `EMAIL` property, unescaped.
    pub addr: Option<String>,
    /// The first Base64 key.
    pub key: Option<String>,
    /// The first Base64 JPEG photo.
    pub photo: Option<String>,
    /// Value of the first `NOTE` property, unescaped.
    pub biography: Option<String>,
    /// Value of the first `REV` property, unescaped.
    pub rev: Option<String>,
}

/// The contents of a [`VcardEntry`].
pub struct VcardEntryView {
    pub display_name: Option<Seq<char>>,
    pub addr: Option<Seq<char>>,
    pub key: Option<Seq<char>>,
    pub photo: Option<Seq<char>>,
    pub biography: Option<Seq<char>>,
    pub rev: Option<Seq<char>>,
}

impl View for VcardEntry {
    type V = VcardEntryView;

    open spec fn view(&self) -> VcardEntryView {
        VcardEntryView {
            display_name: self.display_name.deep_view(),
            addr: self.addr.deep_view(),
            key: self.key.deep_view(),
            photo: self.photo.deep_view(),
            biography: self.biography.deep_view(),
            rev: self.rev.deep_view(),
        }
    }
}

/// An entry with no property yet.
pub open spec fn empty_entry() -> VcardEntryView {
    VcardEntryView {
        display_name: None,
        addr: None,
        key: None,
        photo: None,
        biography: None,
        rev: None,
    }
}

/// `old` if it is set, otherwise `new`.
pub open spec fn keep_first(old: Option<Seq<char>>, new: Seq<char>) -> Option<Seq<char>> {
    match old {
        Some(o) => Some(o),
        None => Some(new),
    }
}

/// One line inside a vCard: records the first property of each kind, and tells whether
/// the line ends the vCard.
pub open spec fn vcard_entry_step(e: VcardEntryView, line: Seq<char>) -> (VcardEntryView, bool) {
    let l = match strip_prefix_ic(line, "item1."@) {
        Some(r) => r,
        None => line,
    };
    match spec_property(l, "email"@) {
        Some(v) => (VcardEntryView { addr: keep_first(e.addr, v), ..e }, false),
        None => match spec_property(l, "fn"@) {
            Some(v) => (VcardEntryView { display_name: keep_first(e.display_name, v), ..e }, false),
            None => match spec_base64_key(l) {
                Some(v) => (VcardEntryView { key: keep_first(e.key, v), ..e }, false),
                None => match spec_base64_photo(l) {
                    Some(v) => (VcardEntryView { photo: keep_first(e.photo, v), ..e }, false),
                    None => match spec_property(l, "note"@) {
                        Some(v) => (
                            VcardEntryView { biography: keep_first(e.biography, v), ..e },
                            false,
                        ),
                        None => match spec_property(l, "rev"@) {
                            Some(v) => (VcardEntryView { rev: keep_first(e.rev, v), ..e }, false),
                            None => (e, eq_ic(l, "END:VCARD"@)),
                        },
                    },
                },
            },
        },
    }
}

/// Runs the vCard reader over `lines`: whether it is inside a vCard, the entry being
/// read, and the entries finished so far. Lines outside a vCard are skipped up to a
/// `BEGIN:VCARD` line; an `END:VCARD` line finishes the entry.
pub open spec fn vcard_run(lines: Seq<Seq<char>>) -> (bool, VcardEntryView, Seq<VcardEntryView>)
    decreases lines.len(),
{
    if lines.len() == 0 {
        (false, empty_entry(), Seq::empty())
    } else {
        let (inside, e, out) = vcard_run(lines.drop_last());
        let line = lines.last();
        if !inside {
            if eq_ic(line, "BEGIN:VCARD"@) {
                (true, empty_entry(), out)
            } else {
                (false, e, out)
            }
        } else {
            let (e2, ended) = vcard_entry_step(e, line);
            if ended {
                (false, empty_entry(), out.push(e2))
            } else {
                (true, e2, out)
            }
        }
    }
}

/// The entries of all complete vCards in `s`.
pub open spec fn spec_parse_entries(s: Seq<char>) -> Seq<VcardEntryView> {
    vcard_run(spec_lines(s)).2
}

/// The contents of a list of entries.
pub open spec fn entries_view(v: Seq<VcardEntry>) -> Seq<VcardEntryView> {
    v.map_values(|e: VcardEntry| e@)
}

fn new_entry() -> (r: VcardEntry)
    ensures
        r@ == empty_entry(),
{
    VcardEntry {
        display_name: None,
        addr: None,
        key: None,
        photo: None,
        biography: None,
        rev: None,
    }
}

fn keep_first_exec(old: Option<String>, new: Vec<char>) -> (r: Option<String>)
    ensures
        r.deep_view() == keep_first(old.deep_view(), new@),
{
    match old {
        Some(o) => Some(o),
        None => Some(string_of(&new)),
    }
}

fn entry_step(e: VcardEntry, line: &[char]) -> (r: (VcardEntry, bool))
    ensures
        (r.0@, r.1) == vcard_entry_step(e@, line@),
{
    let item = lit("item1.");
    let l = match strip_prefix_ic_chars(line, &item) {
        Some(rest) => rest,
        None => sub_chars(line, 0, line.len()),
    };
    proof {
        assert(line@.subrange(0, line@.len() as int) =~= line@);
    }
    let mut e = e;
    if let Some(v) = property(&l, "email") {
        e.addr = keep_first_exec(e.addr, v);
        return (e, false);
    }
    if let Some(v) = property(&l, "fn") {
        e.display_name = keep_first_exec(e.display_name, v);
        return (e, false);
    }
    if let Some(v) = base64_key(&l) {
        e.key = keep_first_exec(e.key, v);
        return (e, false);
    }
    if let Some(v) = base64_photo(&l) {
        e.photo = keep_first_exec(e.photo, v);
        return (e, false);
    }
    if let Some(v) = property(&l, "note") {
        e.biography = keep_first_exec(e.biography, v);
        return (e, false);
    }
    if let Some(v) = property(&l, "rev") {
        e.rev = keep_first_exec(e.rev, v);
        return (e, false);
    }
    let end = lit("END:VCARD");
    let ended = eq_ic_chars(&l, &end);
    (e, ended)
}

proof fn lemma_vcard_run_step(lines: Seq<Seq<char>>, i: int)
    requires
        0 <= i < lines.len(),
    ensures
        vcard_run(lines.take(i + 1)) == ({
            let (inside, e, out) = vcard_run(lines.take(i));
            let line = lines[i];
            if !inside {
                if eq_ic(line, "BEGIN:VCARD"@) {
                    (true, empty_entry(), out)
                } else {
                    (false, e, out)
                }
            } else {
                let (e2, ended) = vcard_entry_step(e, line);
                if ended {
                    (false, empty_entry(), out.push(e2))
                } else {
                    (true, e2, out)
                }
            }
        }),
{
    assert(lines.take(i + 1).drop_last() =~= lines.take(i));
}

/// Reads the entries of all complete vCards in `unfolded`, a text whose folded lines
/// have already been joined.
pub fn parse_vcard_entries(unfolded: &str) -> (r: Vec<VcardEntry>)
    ensures
        entries_view(r@) == spec_parse_entries(unfolded@),
{
    let text = chars_of(unfolded);
    let lines = lines_of(&text);
    let ghost ls = seqs_of(lines@);
    let begin = lit("BEGIN:VCARD");
    let mut out: Vec<VcardEntry> = Vec::new();
    let mut inside = false;
    let mut cur = new_entry();
    let mut i: usize = 0;
    proof {
        assert(ls.take(0) =~= Seq::<Seq<char>>::empty());
        assert(entries_view(out@) =~= Seq::<VcardEntryView>::empty());
    }
    while i < lines.len()
        invariant
            i <= lines.len(),
            ls == seqs_of(lines@),
            ls.len() == lines.len(),
            begin@ == "BEGIN:VCARD"@,
            vcard_run(ls.take(i as int)) == (inside, cur@, entries_view(out@)),
        decreases lines.len() - i,
    {
        proof {
            lemma_vcard_run_step(ls, i as int);
            assert(ls[i as int] == lines@[i as int]@);
        }
        let line = &lines[i];
        if !inside {
            if eq_ic_chars(line, &begin) {
                inside = true;
                cur = new_entry();
            }
        } else {
            let (e2, ended) = entry_step(cur, line);
            if ended {
                let ghost before = entries_view(out@);
                out.push(e2);
                proof {
                    assert(entries_view(out@) =~= before.push(e2@));
                }
                inside = false;
                cur = new_entry();
            } else {
                cur = e2;
            }
        }
        i += 1;
    }
    proof {
        assert(ls.take(lines.len() as int) =~= ls);
    }
    out
}

/// Why a vCard contact has no timestamp.
#[derive(Debug, Clone, Copy, PartialEq, Eq, Structural)]
pub enum TimestampError {
    /// The vCard has no `REV` property.
    Missing,
    /// The `REV` value is not a date and time that chrono parses.
    Invalid,
    /// The `REV` value has no time zone and the local time zone gives it no single instant.
    AmbiguousLocalTime,
}

/// A contact, as represented in a vCard.
#[derive(Debug)]
pub struct VcardContact {
    /// The email address, vCard property `EMAIL`.
    pub addr: String,
    /// The name authorized by the contact itself, vCard property `FN`. May be empty.
    pub authname: String,
    /// The contact's public PGP key in Base64, vCard property `KEY`.
    pub key: Option<String>,
    /// The contact's profile image in Base64, vCard property `PHOTO`.
    pub profile_image: Option<String>,
    /// The biography, vCard property `NOTE`.
    pub biography: Option<String>,
    /// The time when the vCard was created or last updated, vCard property `REV`.
    pub timestamp: Result<i64, TimestampError>,
}

/// The display name of a contact with the given authorized name and address.
pub open spec fn spec_display_name(authname: Seq<char>, addr: Seq<char>) -> Seq<char> {
    if authname.len() == 0 {
        addr
    } else {
        authname
    }
}

impl VcardContact {
    /// Returns the contact's display name: the authorized name, or the address if it
    /// is empty.
    pub fn display_name(&self) -> (r: &str)
        ensures
            r@ == spec_display_name(self.authname@, self.addr@),
    {
        if self.authname.as_str().is_empty() {
            self.addr.as_str()
        } else {
            self.authname.as_str()
        }
    }
}

/// The format of the `REV` timestamp that `make_vcard` writes.
pub open spec fn rev_utc_format() -> Seq<char> {
    "%Y%m%dT%H%M%SZ"@
}

/// The first UNIX timestamp of the year 10000: `REV` texts of earlier timestamps (from
/// 1970 on) have four year digits.
pub open spec fn rev_year_limit() -> i64 {
    253402300800
}

/// The format with time zone that `REV` values are parsed with first.
pub open spec fn rev_zoned_format() -> Seq<char> {
    "%Y%m%dT%H%M%S%#z"@
}

/// The format without time zone that `REV` values are parsed with second.
pub open spec fn rev_local_format() -> Seq<char> {
    "%Y%m%dT%H%M%S"@
}

/// The text that chrono's `DateTime::from_timestamp(secs, 0)` formats with `fmt`;
/// `None` if the timestamp is out of chrono's range or the format is invalid.
pub uninterp spec fn utc_timestamp_text(secs: i64, fmt: Seq<char>) -> Option<Seq<char>>;

/// Every character of `s` is an ASCII digit, `T`, `Z`, `+` or `-`.
pub open spec fn plain_timestamp_text(s: Seq<char>) -> bool {
    forall|i: int|
        0 <= i < s.len() ==> ('0' <= #[trigger] s[i] && s[i] <= '9') || s[i] == 'T' || s[i] == 'Z'
            || s[i] == '+' || s[i] == '-'
}

/// Calls chrono's `DateTime::from_timestamp` and formats the UTC date and time with
/// `DelayedFormat`. The contract names the result; UTC makes it depend on the
/// arguments alone. One fact is stated besides, as chrono documents its specifiers:
/// with `%Y%m%dT%H%M%SZ` the text holds only digits (the year with a sign where it
/// has more than four), `T` and `Z`. And one fact on reading it back, as chrono's
/// source shows it: for a timestamp from 1970 up to the end of the year 9999 the text
/// is made, its year has four digits, and `DateTime::parse_from_str` with
/// `%Y%m%dT%H%M%S%#z` (which reads four year digits where no sign stands, and `Z` as
/// the offset zero) gives the same timestamp back.
#[verifier::external_body]
fn format_utc_timestamp(secs: i64, fmt: &str) -> (r: Option<String>)
    ensures
        r.deep_view() == utc_timestamp_text(secs, fmt@),
        fmt@ == rev_utc_format() && r is Some ==> plain_timestamp_text(r->Some_0@),
        fmt@ == rev_utc_format() && 0 <= secs < rev_year_limit() ==> (r is Some
            && fixed_offset_timestamp(r->Some_0@, rev_zoned_format()) == Some(secs)),
{
    let dt = chrono::DateTime::from_timestamp(secs, 0)?;
    let mut out = String::new();
    write!(out, "{}", dt.format(fmt)).ok()?;
    Some(out)
}

/// The UNIX timestamp that chrono's `DateTime::parse_from_str(s, fmt)` gives, or
/// `None` if it rejects `s`.
pub uninterp spec fn fixed_offset_timestamp(s: Seq<char>, fmt: Seq<char>) -> Option<i64>;

/// Calls chrono's `DateTime::parse_from_str` and takes the timestamp. The time zone
/// comes from the text, so the contract names the result.
#[verifier::external_body]
fn parse_fixed_offset_timestamp(s: &str, fmt: &str) -> (r: Option<i64>)
    ensures
        r == fixed_offset_timestamp(s@, fmt@),
{
    chrono::DateTime::parse_from_str(s, fmt).ok().map(|dt| dt.timestamp())
}

/// Calls chrono's `NaiveDateTime::parse_from_str` and places the result in the local
/// time zone: `None` if the text does not parse, `Some(None)` if the local time zone
/// gives no single instant. Nothing is stated: the result depends on the machine's
/// time zone.
#[verifier::external_body]
fn parse_local_timestamp(s: &str, fmt: &str) -> (r: Option<Option<i64>>) {
    chrono::NaiveDateTime::parse_from_str(s, fmt).ok().map(
        |dt| dt.and_local_timezone(chrono::offset::Local).single().map(|d| d.timestamp()),
    )
}

/// The `BEGIN`, `VERSION`, `EMAIL` and `FN` lines of a vCard.
pub open spec fn vcard_head(c: VcardContact) -> Seq<char> {
    "BEGIN:VCARD\r\nVERSION:4.0\r\nEMAIL:"@ + spec_escape(c.addr@) + "\r\nFN:"@ + spec_escape(
        spec_display_name(c.authname@, c.addr@),
    ) + "\r\n"@
}

/// The `KEY` line of a vCard, if any.
pub open spec fn vcard_key_line(c: VcardContact) -> Seq<char> {
    match c.key {
        Some(k) => "KEY:data:application/pgp-keys;base64\\,"@ + k@ + "\r\n"@,
        None => Seq::empty(),
    }
}

/// The `PHOTO` line of a vCard, if any.
pub open spec fn vcard_photo_line(c: VcardContact) -> Seq<char> {
    match c.profile_image {
        Some(p) => "PHOTO:data:image/jpeg;base64\\,"@ + p@ + "\r\n"@,
        None => Seq::empty(),
    }
}

/// The `NOTE` line of a vCard, if any.
pub open spec fn vcard_note_line(c: VcardContact) -> Seq<char> {
    match c.biography {
        Some(b) => "NOTE:"@ + spec_escape(b@) + "\r\n"@,
        None => Seq::empty(),
    }
}

/// The `REV` line of a vCard, if the timestamp is known and chrono formats it.
pub open spec fn vcard_rev_line(c: VcardContact) -> Seq<char> {
    match c.timestamp {
        Ok(t) => match utc_timestamp_text(t, rev_utc_format()) {
            Some(x) => "REV:"@ + x + "\r\n"@,
            None => Seq::empty(),
        },
        Err(_) => Seq::empty(),
    }
}

/// The lines of one vCard.
pub open spec fn vcard_text(c: VcardContact) -> Seq<char> {
    vcard_head(c) + vcard_key_line(c) + vcard_photo_line(c) + vcard_note_line(c)
        + vcard_rev_line(c) + "END:VCARD\r\n"@
}

/// The vCards of all given contacts, one after the other.
pub open spec fn vcards_text(cs: Seq<VcardContact>) -> Seq<char>
    decreases cs.len(),
{
    if cs.len() == 0 {
        Seq::empty()
    } else {
        vcards_text(cs.drop_last()) + vcard_text(cs.last())
    }
}

fn push_str_chars(out: &mut String, s: &str)
    ensures
        final(out)@ == old(out)@ + s@,
{
    let v = lit(s);
    push_all(out, &v);
}

fn push_escaped(out: &mut String, s: &str)
    ensures
        final(out)@ == old(out)@ + spec_escape(s@),
{
    let v = chars_of(s);
    let e = escape_chars(&v);
    push_all(out, &e);
}

fn write_head(out: &mut String, c: &VcardContact)
    ensures
        final(out)@ == old(out)@ + vcard_head(*c),
{
    let ghost start = out@;
    push_str_chars(out, "BEGIN:VCARD\r\nVERSION:4.0\r\nEMAIL:");
    push_escaped(out, c.addr.as_str());
    push_str_chars(out, "\r\nFN:");
    push_escaped(out, c.display_name());
    push_str_chars(out, "\r\n");
    proof {
        assert(out@ =~= start + vcard_head(*c));
    }
}

fn write_optional_lines(out: &mut String, c: &VcardContact)
    ensures
        final(out)@ == old(out)@ + vcard_key_line(*c) + vcard_photo_line(*c) + vcard_note_line(*c),
{
    let ghost start = out@;
    if let Some(key) = &c.key {
        push_str_chars(out, "KEY:data:application/pgp-keys;base64\\,");
        push_str_chars(out, key.as_str());
        push_str_chars(out, "\r\n");
    }
    proof {
        assert(out@ =~= start + vcard_key_line(*c));
    }
    let ghost after_key = out@;
    if let Some(profile_image) = &c.profile_image {
        push_str_chars(out, "PHOTO:data:image/jpeg;base64\\,");
        push_str_chars(out, profile_image.as_str());
        push_str_chars(out, "\r\n");
    }
    proof {
        assert(out@ =~= after_key + vcard_photo_line(*c));
    }
    let ghost after_photo = out@;
    if let Some(biography) = &c.biography {
        push_str_chars(out, "NOTE:");
        push_escaped(out, biography.as_str());
        push_str_chars(out, "\r\n");
    }
    proof {
        assert(out@ =~= after_photo + vcard_note_line(*c));
        assert(out@ =~= start + vcard_key_line(*c) + vcard_photo_line(*c) + vcard_note_line(*c));
    }
}

/// The `REV` text written for `c`, where its timestamp lies from 1970 up to the end of
/// the year 9999, is written and reads back as that timestamp.
pub open spec fn rev_text_reads_back(c: VcardContact) -> bool {
    match c.timestamp {
        Ok(t) => 0 <= t < rev_year_limit() ==> match utc_timestamp_text(t, rev_utc_format()) {
            Some(x) => fixed_offset_timestamp(x, rev_zoned_format()) == Some(t),
            None => false,
        },
        Err(_) => true,
    }
}

/// The `REV` text written for `c`, if any, is plain.
pub open spec fn rev_text_plain(c: VcardContact) -> bool {
    match c.timestamp {
        Ok(t) => match utc_timestamp_text(t, rev_utc_format()) {
            Some(x) => plain_timestamp_text(x),
            None => true,
        },
        Err(_) => true,
    }
}

fn write_rev_line(out: &mut String, c: &VcardContact)
    ensures
        final(out)@ == old(out)@ + vcard_rev_line(*c),
        rev_text_plain(*c),
        rev_text_reads_back(*c),
{
    let ghost start = out@;
    if let Ok(t) = &c.timestamp {
        let fmt = "%Y%m%dT%H%M%SZ";
        proof {
            reveal_strlit("%Y%m%dT%H%M%SZ");
            assert(fmt@ == rev_utc_format());
        }
        if let Some(ts) = format_utc_timestamp(*t, fmt) {
            push_str_chars(out, "REV:");
            push_str_chars(out, ts.as_str());
            push_str_chars(out, "\r\n");
        }
    }
    proof {
        assert(out@ =~= start + vcard_rev_line(*c));
    }
}

fn write_vcard(out: &mut String, c: &VcardContact)
    ensures
        final(out)@ == old(out)@ + vcard_text(*c),
        rev_text_plain(*c),
        rev_text_reads_back(*c),
{
    let ghost start = out@;
    write_head(out, c);
    write_optional_lines(out, c);
    write_rev_line(out, c);
    push_str_chars(out, "END:VCARD\r\n");
    proof {
        assert(out@ =~= start + vcard_text(*c));
    }
}

/// What `make_vcard` gives for `cs`: their vCards, one after the other; and the `REV`
/// texts in them are plain and read back as the timestamps written.
pub open spec fn made_vcard(cs: Seq<VcardContact>, text: Seq<char>) -> bool {
    &&& text == vcards_text(cs)
    &&& forall|k: int| 0 <= k < cs.len() ==> rev_text_plain(#[trigger] cs[k])
    &&& forall|k: int| 0 <= k < cs.len() ==> rev_text_reads_back(#[trigger] cs[k])
}

/// Returns a vCard containing the given contacts. `parse_vcard` reads it back.
pub fn make_vcard(contacts: &[VcardContact]) -> (r: String)
    ensures
        made_vcard(contacts@, r@),
{
    let mut res = String::new();
    let mut i: usize = 0;
    proof {
        assert(contacts@.take(0) =~= Seq::<VcardContact>::empty());
    }
    while i < contacts.len()
        invariant
            i <= contacts.len(),
            res@ == vcards_text(contacts@.take(i as int)),
            forall|k: int| 0 <= k < i ==> rev_text_plain(#[trigger] contacts@[k]),
            forall|k: int| 0 <= k < i ==> rev_text_reads_back(#[trigger] contacts@[k]),
        decreases contacts.len() - i,
    {
        write_vcard(&mut res, &contacts[i]);
        proof {
            assert(contacts@.take(i + 1).drop_last() =~= contacts@.take(i as int));
        }
        i += 1;
    }
    proof {
        assert(contacts@.take(contacts.len() as int) =~= contacts@);
    }
    res
}

/// The pattern of a folded line break (RFC 6350, section 3.2).
pub open spec fn unfold_pattern() -> Seq<char> {
    "\r?\n[\t ]"@
}

/// What `Regex::new(pattern)` and `Regex::replace_all(text, rep)` give; `None` if the
/// pattern is invalid.
pub uninterp spec fn regex_replace_all_result(
    pattern: Seq<char>,
    text: Seq<char>,
    rep: Seq<char>,
) -> Option<Seq<char>>;

/// A line break in `s` is never followed by a space or a tab, so `s` holds no folded
/// line.
pub open spec fn no_folded_line(s: Seq<char>) -> bool {
    forall|i: int| 0 <= i < s.len() - 1 && #[trigger] s[i] == '\n' ==> s[i + 1] != ' ' && s[i + 1] != '\t'
}

/// Compiles `pattern` with `regex::Regex::new` and calls `Regex::replace_all`. The
/// contract names the result; it depends on the three strings alone. One fact is
/// stated besides: `\r?\n[\t ]` matches only a line break followed by a space or a
/// tab, and where there is no match, `replace_all` gives the text back unchanged.
#[verifier::external_body]
fn regex_replace_all(pattern: &str, text: &str, rep: &str) -> (r: Option<String>)
    ensures
        r.deep_view() == regex_replace_all_result(pattern@, text@, rep@),
        pattern@ == unfold_pattern() && no_folded_line(text@) ==> r.deep_view() == Some(text@),
{
    match regex::Regex::new(pattern) {
        Ok(re) => Some(re.replace_all(text, rep).into_owned()),
        Err(_) => None,
    }
}

/// `s` with folded lines joined, as `parse_vcard` reads it. Were the pattern rejected,
/// the text would be read as it is.
pub open spec fn unfolded_text(s: Seq<char>) -> Seq<char> {
    match regex_replace_all_result(unfold_pattern(), s, Seq::empty()) {
        Some(u) => u,
        None => s,
    }
}

/// The value of an optional string, or the empty string.
pub open spec fn or_empty(o: Option<Seq<char>>) -> Seq<char> {
    match o {
        Some(s) => s,
        None => Seq::empty(),
    }
}

/// What holds of a contact's timestamp read from the `REV` value `rev`.
pub open spec fn timestamp_from_rev(rev: Option<Seq<char>>, ts: Result<i64, TimestampError>) -> bool {
    match rev {
        None => ts == Err::<i64, TimestampError>(TimestampError::Missing),
        Some(r) => match fixed_offset_timestamp(r, rev_zoned_format()) {
            Some(t) => ts == Ok::<i64, TimestampError>(t),
            None => ts != Err::<i64, TimestampError>(TimestampError::Missing),
        },
    }
}

/// The contact made from the vCard entry `e`.
pub open spec fn contact_from_entry(e: VcardEntryView, c: VcardContact) -> bool {
    &&& (c.authname@, c.addr@) == spec_sanitize_name_and_addr(
        or_empty(e.display_name),
        or_empty(e.addr),
        regex_captures_result(name_addr_pattern(), or_empty(e.addr)),
    )
    &&& !or_empty(e.addr).contains('<') ==> (c.authname@, c.addr@) == spec_sanitize_name_and_addr(
        or_empty(e.display_name),
        or_empty(e.addr),
        None,
    )
    &&& c.key.deep_view() == e.key
    &&& c.profile_image.deep_view() == e.photo
    &&& c.biography.deep_view() == e.biography
    &&& timestamp_from_rev(e.rev, c.timestamp)
}

fn parse_datetime(datetime: &str) -> (r: Result<i64, TimestampError>)
    ensures
        timestamp_from_rev(Some(datetime@), r),
{
    let zoned = "%Y%m%dT%H%M%S%#z";
    let local = "%Y%m%dT%H%M%S";
    match parse_fixed_offset_timestamp(datetime, zoned) {
        Some(t) => Ok(t),
        None => match parse_local_timestamp(datetime, local) {
            Some(Some(t)) => Ok(t),
            Some(None) => Err(TimestampError::AmbiguousLocalTime),
            None => Err(TimestampError::Invalid),
        },
    }
}

fn str_or_empty(o: &Option<String>) -> (r: &str)
    ensures
        r@ == or_empty(o.deep_view()),
{
    proof {
        reveal_strlit("");
        assert(""@ =~= Seq::<char>::empty());
    }
    match o {
        Some(s) => s.as_str(),
        None => "",
    }
}

/// Makes a contact from a vCard entry: sanitizes name and address with
/// `sanitize_name_and_addr` and reads the timestamp from the `REV` value.
pub fn contact_of_entry(e: VcardEntry) -> (r: VcardContact)
    ensures
        contact_from_entry(e@, r),
{
    proof {
        reveal_strlit("");
    }
    let (authname, addr) = sanitize_name_and_addr(
        str_or_empty(&e.display_name),
        str_or_empty(&e.addr),
    );
    let timestamp = match &e.rev {
        Some(rev) => parse_datetime(rev.as_str()),
        None => Err(TimestampError::Missing),
    };
    VcardContact {
        authname,
        addr,
        key: e.key,
        profile_image: e.photo,
        biography: e.biography,
        timestamp,
    }
}

/// What `parse_vcard` gives for `text`: a contact for each complete vCard in the
/// unfolded text; and a text without folded lines is read as it is.
pub open spec fn parsed_vcard(text: Seq<char>, r: Seq<VcardContact>) -> bool {
    &&& r.len() == spec_parse_entries(unfolded_text(text)).len()
    &&& forall|i: int|
        0 <= i < r.len() ==> contact_from_entry(#[trigger] spec_parse_entries(unfolded_text(text))[i], r[i])
    &&& no_folded_line(text) ==> unfolded_text(text) == text
}

/// Parses the contacts of all complete vCards in `vcard`.
pub fn parse_vcard(vcard: &str) -> (r: Vec<VcardContact>)
    ensures
        parsed_vcard(vcard@, r@),
{
    proof {
        reveal_strlit("");
    }
    let pattern = "\r?\n[\t ]";
    let unfolded = regex_replace_all(pattern, vcard, "");
    let entries = match &unfolded {
        Some(u) => parse_vcard_entries(u.as_str()),
        None => parse_vcard_entries(vcard),
    };
    proof {
        assert(""@ =~= Seq::<char>::empty());
    }
    let ghost ev = entries_view(entries@);
    proof {
        assert(ev == spec_parse_entries(unfolded_text(vcard@)));
    }
    let mut contacts: Vec<VcardContact> = Vec::new();
    let mut entries = entries;
    let n = entries.len();
    let mut i: usize = 0;
    while entries.len() > 0
        invariant
            entries.len() + i == n,
            ev.len() == n,
            forall|k: int| 0 <= k < entries.len() ==> #[trigger] entries@[k]@ == ev[i + k],
            contacts.len() == i,
            forall|k: int| 0 <= k < i ==> contact_from_entry(ev[k], #[trigger] contacts@[k]),
        decreases entries.len(),
    {
        let e = entries.remove(0);
        proof {
            assert(e@ == ev[i as int]);
        }
        contacts.push(contact_of_entry(e));
        i += 1;
    }
    contacts
}

} // verus!
