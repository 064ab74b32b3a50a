//! Contact-related tools: sanitizing names and addresses, parsing e-mail addresses.

use vstd::prelude::*;

use crate::text::{
    all_ascii, ascii_lower, chars_eq, chars_of, has_prefix, is_whitespace, is_ws, lit, lowercase, push_all,
    starts_with, string_of, sub_chars, to_lowercase, trim, trim_chars, trim_end, trim_start, trim_str,
};

verus! {

/// `c` is a line break character.
pub open spec fn is_newline(c: char) -> bool {
    c == '\n' || c == '\r'
}

/// `s` with every line break character replaced by a space.
pub open spec fn newlines_to_spaces(s: Seq<char>) -> Seq<char> {
    s.map_values(|c: char| if is_newline(c) { ' ' } else { c })
}

/// Explicit directional embedding and override characters (U+202A..U+202E).
pub open spec fn is_rtlo(c: char) -> bool {
    '\u{202A}' <= c && c <= '\u{202E}'
}

/// Directional isolate characters (U+2066..U+2068).
pub open spec fn is_isolate(c: char) -> bool {
    '\u{2066}' <= c && c <= '\u{2068}'
}

/// The pop directional isolate character (U+2069).
pub open spec fn is_pop_isolate(c: char) -> bool {
    c == '\u{2069}'
}

/// Isolate or pop isolate character.
pub open spec fn is_isolate_or_pop(c: char) -> bool {
    is_isolate(c) || is_pop_isolate(c)
}

/// `s` without the characters that `f` selects.
pub open spec fn remove_chars(s: Seq<char>, f: spec_fn(char) -> bool) -> Seq<char>
    decreases s.len(),
{
    if s.len() == 0 {
        s
    } else if f(s.last()) {
        remove_chars(s.drop_last(), f)
    } else {
        remove_chars(s.drop_last(), f).push(s.last())
    }
}

/// Change of the isolate nesting level caused by `c`.
pub open spec fn isolate_delta(c: char) -> int {
    if is_isolate(c) {
        1
    } else if is_pop_isolate(c) {
        -1
    } else {
        0
    }
}

/// Scans `s` for isolate nesting: whether the level stayed within `0..=125` at every
/// character, and the level reached (at the first violation, if any).
pub open spec fn isolate_scan(s: Seq<char>) -> (bool, int)
    decreases s.len(),
{
    if s.len() == 0 {
        (true, 0)
    } else {
        let (ok, level) = isolate_scan(s.drop_last());
        if !ok {
            (false, level)
        } else {
            let next = level + isolate_delta(s.last());
            if next < 0 || next > 125 {
                (false, next)
            } else {
                (true, next)
            }
        }
    }
}

/// Every isolate in `s` is closed, none is closed before it opens, and nesting stays
/// at most 125 deep.
pub open spec fn isolates_balanced(s: Seq<char>) -> bool {
    isolate_scan(s).0 && isolate_scan(s).1 == 0
}

/// What `sanitize_bidi_characters` returns.
pub open spec fn spec_sanitize_bidi(s: Seq<char>) -> Seq<char> {
    let t = remove_chars(s, |c: char| is_rtlo(c));
    if isolates_balanced(t) {
        t
    } else {
        remove_chars(t, |c: char| is_isolate_or_pop(c))
    }
}

/// What `sanitize_single_line` returns.
pub open spec fn spec_sanitize_single_line(s: Seq<char>) -> Seq<char> {
    spec_sanitize_bidi(trim(newlines_to_spaces(s)))
}

/// `a` and `b` are a pair of quotes that a name may be wrapped in.
pub open spec fn is_quote_pair(a: char, b: char) -> bool {
    (a == '\'' && b == '\'') || (a == '"' && b == '"') || (a == '<' && b == '>')
}

/// What `sanitize_name` returns.
pub open spec fn spec_sanitize_name(s: Seq<char>) -> Seq<char> {
    let n = spec_sanitize_single_line(s);
    if n.len() >= 2 && is_quote_pair(n[0], n.last()) {
        trim(n.subrange(1, n.len() - 1))
    } else {
        n
    }
}

/// A name wrapped in double quotes, single quotes or angle brackets (once made a single
/// trimmed line) loses them: what is left is the trimmed text between them.
pub proof fn sanitize_name_removes_quotes(s: Seq<char>)
    ensures
        ({
            let n = spec_sanitize_single_line(s);
            n.len() >= 2 && ((n[0] == '"' && n[n.len() - 1] == '"') || (n[0] == '\'' && n[n.len()
                - 1] == '\'') || (n[0] == '<' && n[n.len() - 1] == '>')) ==> spec_sanitize_name(s)
                == trim(n.subrange(1, n.len() - 1))
        }),
{
}

proof fn lemma_remove_chars_step(s: Seq<char>, f: spec_fn(char) -> bool, i: int)
    requires
        0 <= i < s.len(),
    ensures
        remove_chars(s.take(i + 1), f) == if f(s[i]) {
            remove_chars(s.take(i), f)
        } else {
            remove_chars(s.take(i), f).push(s[i])
        },
{
    assert(s.take(i + 1).drop_last() =~= s.take(i));
}

proof fn lemma_isolate_scan_step(s: Seq<char>, i: int)
    requires
        0 <= i < s.len(),
    ensures
        isolate_scan(s.take(i + 1)) == ({
            let (ok, level) = isolate_scan(s.take(i));
            if !ok {
                (false, level)
            } else {
                let next = level + isolate_delta(s[i]);
                if next < 0 || next > 125 {
                    (false, next)
                } else {
                    (true, next)
                }
            }
        }),
{
    assert(s.take(i + 1).drop_last() =~= s.take(i));
}

proof fn lemma_isolate_scan_fails_on(s: Seq<char>, i: int)
    requires
        0 <= i <= s.len(),
        !isolate_scan(s.take(i)).0,
    ensures
        !isolate_scan(s).0,
    decreases s.len() - i,
{
    if i < s.len() {
        lemma_isolate_scan_step(s, i);
        lemma_isolate_scan_fails_on(s, i + 1);
    } else {
        assert(s.take(i) =~= s);
    }
}

fn is_rtlo_char(c: char) -> (r: bool)
    ensures
        r == is_rtlo(c),
{
    '\u{202A}' <= c && c <= '\u{202E}'
}

fn is_isolate_or_pop_char(c: char) -> (r: bool)
    ensures
        r == is_isolate_or_pop(c),
{
    '\u{2066}' <= c && c <= '\u{2069}'
}

fn remove_rtlo(v: &[char]) -> (r: Vec<char>)
    ensures
        r@ == remove_chars(v@, |c: char| is_rtlo(c)),
{
    let ghost f = |c: char| is_rtlo(c);
    let mut r: Vec<char> = Vec::new();
    let mut i: usize = 0;
    proof {
        assert(v@.take(0) =~= Seq::<char>::empty());
    }
    while i < v.len()
        invariant
            i <= v.len(),
            r@ == remove_chars(v@.take(i as int), f),
            f == (|c: char| is_rtlo(c)),
        decreases v.len() - i,
    {
        proof {
            lemma_remove_chars_step(v@, f, i as int);
            assert(f(v@[i as int]) == is_rtlo(v@[i as int]));
        }
        if !is_rtlo_char(v[i]) {
            r.push(v[i]);
        }
        i += 1;
    }
    proof {
        assert(v@.take(v.len() as int) =~= v@);
    }
    r
}

fn remove_isolates(v: &[char]) -> (r: Vec<char>)
    ensures
        r@ == remove_chars(v@, |c: char| is_isolate_or_pop(c)),
{
    let ghost f = |c: char| is_isolate_or_pop(c);
    let mut r: Vec<char> = Vec::new();
    let mut i: usize = 0;
    proof {
        assert(v@.take(0) =~= Seq::<char>::empty());
    }
    while i < v.len()
        invariant
            i <= v.len(),
            r@ == remove_chars(v@.take(i as int), f),
            f == (|c: char| is_isolate_or_pop(c)),
        decreases v.len() - i,
    {
        proof {
            lemma_remove_chars_step(v@, f, i as int);
            assert(f(v@[i as int]) == is_isolate_or_pop(v@[i as int]));
        }
        if !is_isolate_or_pop_char(v[i]) {
            r.push(v[i]);
        }
        i += 1;
    }
    proof {
        assert(v@.take(v.len() as int) =~= v@);
    }
    r
}

fn isolate_characters_are_valid(v: &[char]) -> (r: bool)
    ensures
        r == isolates_balanced(v@),
{
    let mut nesting: i32 = 0;
    let mut i: usize = 0;
    proof {
        assert(v@.take(0) =~= Seq::<char>::empty());
    }
    while i < v.len()
        invariant
            i <= v.len(),
            0 <= nesting <= 125,
            isolate_scan(v@.take(i as int)) == (true, nesting as int),
        decreases v.len() - i,
    {
        proof {
            lemma_isolate_scan_step(v@, i as int);
        }
        let c = v[i];
        if '\u{2066}' <= c && c <= '\u{2068}' {
            nesting += 1;
        } else if c == '\u{2069}' {
            nesting -= 1;
        }
        i += 1;
        if nesting < 0 || nesting > 125 {
            proof {
                lemma_isolate_scan_fails_on(v@, i as int);
            }
            return false;
        }
    }
    proof {
        assert(v@.take(v.len() as int) =~= v@);
    }
    nesting == 0
}

fn sanitize_bidi_chars(v: &[char]) -> (r: Vec<char>)
    ensures
        r@ == spec_sanitize_bidi(v@),
{
    let t = remove_rtlo(v);
    if isolate_characters_are_valid(&t) {
        t
    } else {
        remove_isolates(&t)
    }
}

/// Removes characters that could change the direction of adjacent text.
///
/// All explicit embedding and override characters are removed. Directional
/// isolates are kept only when they are balanced; otherwise all of them are removed.
pub fn sanitize_bidi_characters(input_str: &str) -> (r: String)
    ensures
        r@ == spec_sanitize_bidi(input_str@),
{
    let v = chars_of(input_str);
    let r = sanitize_bidi_chars(&v);
    string_of(&r)
}

fn newlines_to_spaces_chars(v: &[char]) -> (r: Vec<char>)
    ensures
        r@ == newlines_to_spaces(v@),
{
    let mut r: Vec<char> = Vec::new();
    let mut i: usize = 0;
    while i < v.len()
        invariant
            i <= v.len(),
            r@.len() == i,
            forall|k: int| 0 <= k < i ==> r@[k] == if is_newline(v@[k]) { ' ' } else { v@[k] },
        decreases v.len() - i,
    {
        let c = v[i];
        if c == '\n' || c == '\r' {
            r.push(' ');
        } else {
            r.push(c);
        }
        i += 1;
    }
    proof {
        assert(r@ =~= newlines_to_spaces(v@));
    }
    r
}

fn sanitize_single_line_chars(v: &[char]) -> (r: Vec<char>)
    ensures
        r@ == spec_sanitize_single_line(v@),
{
    let s = newlines_to_spaces_chars(v);
    let t = trim_chars(&s);
    sanitize_bidi_chars(&t)
}

/// Sanitizes user input: turns line breaks into spaces, trims the result and
/// removes potentially malicious bidi characters.
pub fn sanitize_single_line(input: &str) -> (r: String)
    ensures
        r@ == spec_sanitize_single_line(input@),
{
    let v = chars_of(input);
    let r = sanitize_single_line_chars(&v);
    string_of(&r)
}

fn sanitize_name_chars(v: &[char]) -> (r: Vec<char>)
    ensures
        r@ == spec_sanitize_name(v@),
{
    let n = sanitize_single_line_chars(v);
    let len = n.len();
    if len >= 2 {
        let a = n[0];
        let b = n[len - 1];
        if (a == '\'' && b == '\'') || (a == '"' && b == '"') || (a == '<' && b == '>') {
            let inner = sub_chars(&n, 1, len - 1);
            return trim_chars(&inner);
        }
    }
    n
}

/// Sanitizes a name: what `sanitize_single_line` does, then removes one pair of
/// surrounding quotes (`'…'`, `"…"` or `<…>`) and trims again.
pub fn sanitize_name(name: &str) -> (r: String)
    ensures
        r@ == spec_sanitize_name(name@),
{
    let v = chars_of(name);
    let r = sanitize_name_chars(&v);
    string_of(&r)
}

/// No character of `s` is selected by `f`.
pub open spec fn none_of(s: Seq<char>, f: spec_fn(char) -> bool) -> bool {
    forall|i: int| 0 <= i < s.len() ==> !f(#[trigger] s[i])
}

proof fn lemma_remove_chars_keeps_none_of(s: Seq<char>, f: spec_fn(char) -> bool, g: spec_fn(char) -> bool)
    requires
        none_of(s, g),
    ensures
        none_of(remove_chars(s, f), g),
        none_of(remove_chars(s, f), f),
    decreases s.len(),
{
    if s.len() > 0 {
        assert(none_of(s.drop_last(), g)) by {
            assert forall|i: int| 0 <= i < s.drop_last().len() implies !g(#[trigger] s.drop_last()[i]) by {
                assert(s.drop_last()[i] == s[i]);
            }
        }
        lemma_remove_chars_keeps_none_of(s.drop_last(), f, g);
    }
}

proof fn lemma_remove_chars_removes(s: Seq<char>, f: spec_fn(char) -> bool)
    ensures
        none_of(remove_chars(s, f), f),
    decreases s.len(),
{
    if s.len() > 0 {
        lemma_remove_chars_removes(s.drop_last(), f);
    }
}

proof fn lemma_remove_chars_identity(s: Seq<char>, f: spec_fn(char) -> bool)
    requires
        none_of(s, f),
    ensures
        remove_chars(s, f) == s,
    decreases s.len(),
{
    if s.len() > 0 {
        assert(none_of(s.drop_last(), f)) by {
            assert forall|i: int| 0 <= i < s.drop_last().len() implies !f(#[trigger] s.drop_last()[i]) by {
                assert(s.drop_last()[i] == s[i]);
            }
        }
        lemma_remove_chars_identity(s.drop_last(), f);
        assert(!f(s[s.len() - 1]));
        assert(s.drop_last().push(s.last()) =~= s);
    }
}

proof fn lemma_scan_without_isolates(s: Seq<char>)
    requires
        none_of(s, |c: char| is_isolate_or_pop(c)),
    ensures
        isolate_scan(s) == (true, 0int),
    decreases s.len(),
{
    if s.len() > 0 {
        let f = |c: char| is_isolate_or_pop(c);
        assert(none_of(s.drop_last(), f)) by {
            assert forall|i: int| 0 <= i < s.drop_last().len() implies !f(#[trigger] s.drop_last()[i]) by {
                assert(s.drop_last()[i] == s[i]);
            }
        }
        lemma_scan_without_isolates(s.drop_last());
        assert(!f(s[s.len() - 1]));
    }
}

/// The result of `sanitize_bidi_characters` holds no embedding or override character,
/// its isolates are balanced, and sanitizing it again changes nothing.
pub proof fn sanitize_bidi_is_safe_and_idempotent(s: Seq<char>)
    ensures
        none_of(spec_sanitize_bidi(s), |c: char| is_rtlo(c)),
        isolates_balanced(spec_sanitize_bidi(s)),
        spec_sanitize_bidi(spec_sanitize_bidi(s)) == spec_sanitize_bidi(s),
{
    let rtlo = |c: char| is_rtlo(c);
    let iso = |c: char| is_isolate_or_pop(c);
    let t = remove_chars(s, rtlo);
    lemma_remove_chars_removes(s, rtlo);
    if !isolates_balanced(t) {
        lemma_remove_chars_keeps_none_of(t, iso, rtlo);
        lemma_scan_without_isolates(remove_chars(t, iso));
    }
    let out = spec_sanitize_bidi(s);
    lemma_remove_chars_identity(out, rtlo);
}

/// The result of `sanitize_single_line` holds no line break.
pub proof fn sanitize_single_line_has_no_newline(s: Seq<char>)
    ensures
        none_of(spec_sanitize_single_line(s), |c: char| is_newline(c)),
{
    let nl = |c: char| is_newline(c);
    let m = newlines_to_spaces(s);
    assert(none_of(m, nl));
    lemma_trim_keeps_none_of(m, nl);
    let t = trim(m);
    let rtlo = |c: char| is_rtlo(c);
    let iso = |c: char| is_isolate_or_pop(c);
    lemma_remove_chars_keeps_none_of(t, rtlo, nl);
    lemma_remove_chars_keeps_none_of(remove_chars(t, rtlo), iso, nl);
}

proof fn lemma_trim_keeps_none_of(s: Seq<char>, f: spec_fn(char) -> bool)
    requires
        none_of(s, f),
    ensures
        none_of(trim(s), f),
{
    lemma_trim_start_keeps(s, f);
    lemma_trim_end_keeps(trim_start(s), f);
}

proof fn lemma_trim_start_keeps(s: Seq<char>, f: spec_fn(char) -> bool)
    requires
        none_of(s, f),
    ensures
        none_of(trim_start(s), f),
    decreases s.len(),
{
    if s.len() > 0 && is_ws(s[0]) {
        assert(none_of(s.drop_first(), f)) by {
            assert forall|i: int| 0 <= i < s.drop_first().len() implies !f(#[trigger] s.drop_first()[i]) by {
                assert(s.drop_first()[i] == s[i + 1]);
            }
        }
        lemma_trim_start_keeps(s.drop_first(), f);
    }
}

proof fn lemma_trim_end_keeps(s: Seq<char>, f: spec_fn(char) -> bool)
    requires
        none_of(s, f),
    ensures
        none_of(trim_end(s), f),
    decreases s.len(),
{
    if s.len() > 0 && is_ws(s.last()) {
        assert(none_of(s.drop_last(), f)) by {
            assert forall|i: int| 0 <= i < s.drop_last().len() implies !f(#[trigger] s.drop_last()[i]) by {
                assert(s.drop_last()[i] == s[i]);
            }
        }
        lemma_trim_end_keeps(s.drop_last(), f);
    }
}

/// Why a string is not an e-mail address.
#[derive(Debug, Clone, Copy, PartialEq, Eq, Structural)]
pub enum AddressError {
    /// The string is empty.
    Empty,
    /// The string holds whitespace, `<` or `>`.
    ForbiddenChar,
    /// The string holds no `@`.
    MissingAt,
    /// Nothing stands before the last `@`.
    EmptyLocal,
    /// Nothing stands after the last `@`.
    EmptyDomain,
    /// The domain ends with a dot.
    DomainEndsWithDot,
}

/// Characters that an e-mail address must not contain.
pub open spec fn is_forbidden_in_address(c: char) -> bool {
    is_ws(c) || c == '<' || c == '>'
}

/// Position of the last `c` in `s`, or -1.
pub open spec fn last_index_of(s: Seq<char>, c: char) -> int
    decreases s.len(),
{
    if s.len() == 0 {
        -1
    } else if s.last() == c {
        s.len() - 1
    } else {
        last_index_of(s.drop_last(), c)
    }
}

/// How `EmailAddress::new` splits `s` into local part and domain, or why it fails.
pub open spec fn spec_parse_email(s: Seq<char>) -> Result<(Seq<char>, Seq<char>), AddressError> {
    if s.len() == 0 {
        Err(AddressError::Empty)
    } else if exists|i: int| 0 <= i < s.len() && #[trigger] is_forbidden_in_address(s[i]) {
        Err(AddressError::ForbiddenChar)
    } else {
        let k = last_index_of(s, '@');
        if k < 0 {
            Err(AddressError::MissingAt)
        } else if k == 0 {
            Err(AddressError::EmptyLocal)
        } else if k == s.len() - 1 {
            Err(AddressError::EmptyDomain)
        } else if s.last() == '.' {
            Err(AddressError::DomainEndsWithDot)
        } else {
            Ok((s.take(k), s.skip(k + 1)))
        }
    }
}

/// An e-mail address, split at its last `@`.
#[derive(Debug, PartialEq, Eq, Clone)]
pub struct EmailAddress {
    /// Local part of the email address.
    pub local: String,
    /// Email address domain.
    pub domain: String,
}

proof fn lemma_last_index_of_range(s: Seq<char>, c: char)
    ensures
        -1 <= last_index_of(s, c) < s.len(),
        last_index_of(s, c) >= 0 ==> s[last_index_of(s, c)] == c,
        forall|j: int| last_index_of(s, c) < j < s.len() ==> s[j] != c,
    decreases s.len(),
{
    if s.len() > 0 && s.last() != c {
        lemma_last_index_of_range(s.drop_last(), c);
        assert forall|j: int| last_index_of(s, c) < j < s.len() implies s[j] != c by {
            if j < s.len() - 1 {
                assert(s[j] == s.drop_last()[j]);
            }
        }
    }
}

proof fn lemma_last_index_of_take(s: Seq<char>, c: char, j: int)
    requires
        0 < j <= s.len(),
        s[j - 1] != c,
    ensures
        last_index_of(s.take(j), c) == last_index_of(s.take(j - 1), c),
{
    assert(s.take(j).drop_last() =~= s.take(j - 1));
}

fn find_last(v: &[char], c: char) -> (r: Option<usize>)
    ensures
        match r {
            Some(k) => k as int == last_index_of(v@, c),
            None => last_index_of(v@, c) == -1,
        },
{
    let mut j: usize = v.len();
    proof {
        assert(v@.take(v.len() as int) =~= v@);
    }
    while j > 0
        invariant
            j <= v.len(),
            last_index_of(v@, c) == last_index_of(v@.take(j as int), c),
        decreases j,
    {
        if v[j - 1] == c {
            proof {
                assert(v@.take(j as int).last() == c);
            }
            return Some(j - 1);
        }
        proof {
            lemma_last_index_of_take(v@, c, j as int);
        }
        j -= 1;
    }
    None
}

fn parse_email_chars(v: &[char]) -> (r: Result<(Vec<char>, Vec<char>), AddressError>)
    ensures
        match r {
            Ok((l, d)) => spec_parse_email(v@) == Ok::<(Seq<char>, Seq<char>), AddressError>(
                (l@, d@),
            ),
            Err(e) => spec_parse_email(v@) == Err::<(Seq<char>, Seq<char>), AddressError>(e),
        },
{
    if v.len() == 0 {
        return Err(AddressError::Empty);
    }
    let mut i: usize = 0;
    while i < v.len()
        invariant
            i <= v.len(),
            forall|k: int| 0 <= k < i ==> !#[trigger] is_forbidden_in_address(v@[k]),
        decreases v.len() - i,
    {
        let c = v[i];
        if is_whitespace(c) || c == '<' || c == '>' {
            proof {
                assert(is_forbidden_in_address(v@[i as int]));
            }
            return Err(AddressError::ForbiddenChar);
        }
        i += 1;
    }
    proof {
        lemma_last_index_of_range(v@, '@');
    }
    match find_last(v, '@') {
        None => Err(AddressError::MissingAt),
        Some(k) => {
            if k == 0 {
                Err(AddressError::EmptyLocal)
            } else if k == v.len() - 1 {
                Err(AddressError::EmptyDomain)
            } else if v[v.len() - 1] == '.' {
                Err(AddressError::DomainEndsWithDot)
            } else {
                let l = sub_chars(v, 0, k);
                let d = sub_chars(v, k + 1, v.len());
                proof {
                    assert(l@ =~= v@.take(k as int));
                    assert(d@ =~= v@.skip(k + 1));
                }
                Ok((l, d))
            }
        }
    }
}

impl EmailAddress {
    /// Splits `input` at its last `@` into local part and domain.
    ///
    /// Fails on the empty string, on whitespace, `<` or `>` anywhere, on a missing `@`,
    /// on an empty local part or domain, and on a domain that ends with a dot.
    pub fn new(input: &str) -> (r: Result<EmailAddress, AddressError>)
        ensures
            match r {
                Ok(a) => spec_parse_email(input@) == Ok::<(Seq<char>, Seq<char>), AddressError>(
                    (a.local@, a.domain@),
                ),
                Err(e) => spec_parse_email(input@) == Err::<(Seq<char>, Seq<char>), AddressError>(
                    e,
                ),
            },
    {
        let v = chars_of(input);
        match parse_email_chars(&v) {
            Ok((l, d)) => Ok(EmailAddress { local: string_of(&l), domain: string_of(&d) }),
            Err(e) => Err(e),
        }
    }

    /// The address as `local@domain`.
    pub fn to_string(&self) -> (r: String)
        ensures
            r@ == self.local@ + seq!['@'] + self.domain@,
    {
        let mut s = String::new();
        let l = chars_of(self.local.as_str());
        push_all(&mut s, &l);
        s.push('@');
        let d = chars_of(self.domain.as_str());
        push_all(&mut s, &d);
        proof {
            assert(s@ =~= self.local@ + seq!['@'] + self.domain@);
        }
        s
    }
}

/// Parsing an address and writing it back gives the input: `EmailAddress::new`
/// only splits at the last `@`.
pub proof fn email_address_round_trip(s: Seq<char>)
    requires
        spec_parse_email(s) is Ok,
    ensures
        ({
            let (local, domain) = spec_parse_email(s)->Ok_0;
            local + seq!['@'] + domain == s
        }),
{
    let k = last_index_of(s, '@');
    lemma_last_index_of_range(s, '@');
    assert(s.take(k) + seq!['@'] + s.skip(k + 1) =~= s);
}

/// Whether `addr` is accepted by `EmailAddress::new`.
pub fn may_be_valid_addr(addr: &str) -> (r: bool)
    ensures
        r == spec_parse_email(addr@) is Ok,
{
    let res = EmailAddress::new(addr);
    res.is_ok()
}

/// The `mailto:` prefix.
pub open spec fn mailto_prefix() -> Seq<char> {
    seq!['m', 'a', 'i', 'l', 't', 'o', ':']
}

/// What `addr_normalize` returns.
pub open spec fn spec_addr_normalize(addr: Seq<char>) -> Seq<char> {
    let norm = lowercase(trim(addr));
    if starts_with(norm, mailto_prefix()) {
        norm.skip(7)
    } else {
        norm
    }
}

/// What `addr_normalize` returns for an address that is ASCII once trimmed: its ASCII
/// letters in lowercase.
pub open spec fn spec_ascii_addr_normalize(addr: Seq<char>) -> Seq<char> {
    let norm = ascii_lower(trim(addr));
    if starts_with(norm, mailto_prefix()) {
        norm.skip(7)
    } else {
        norm
    }
}

fn addr_normalize_chars(addr: &str) -> (r: Vec<char>)
    ensures
        r@ == spec_addr_normalize(addr@),
        all_ascii(trim(addr@)) ==> r@ == spec_ascii_addr_normalize(addr@),
{
    let t = trim_str(addr);
    let ts = string_of(&t);
    let low = to_lowercase(ts.as_str());
    let norm = chars_of(low.as_str());
    let prefix = lit("mailto:");
    proof {
        reveal_strlit("mailto:");
        assert(prefix@ =~= mailto_prefix());
    }
    if has_prefix(&norm, &prefix) {
        sub_chars(&norm, 7, norm.len())
    } else {
        norm
    }
}

/// Returns the address lowercased, with whitespace trimmed and a `mailto:` prefix removed.
pub fn addr_normalize(addr: &str) -> (r: String)
    ensures
        r@ == spec_addr_normalize(addr@),
        all_ascii(trim(addr@)) ==> r@ == spec_ascii_addr_normalize(addr@),
{
    let v = addr_normalize_chars(addr);
    string_of(&v)
}

/// Compares two e-mail addresses after normalizing both.
pub fn addr_cmp(addr1: &str, addr2: &str) -> (r: bool)
    ensures
        r == (spec_addr_normalize(addr1@) == spec_addr_normalize(addr2@)),
        all_ascii(trim(addr1@)) && all_ascii(trim(addr2@)) ==> r == (spec_ascii_addr_normalize(addr1@)
            == spec_ascii_addr_normalize(addr2@)),
{
    let norm1 = addr_normalize_chars(addr1);
    let norm2 = addr_normalize_chars(addr2);
    chars_eq(&norm1, &norm2)
}

/// ASCII addresses that differ only in the case of their letters normalize alike, so
/// `addr_cmp` finds them equal.
pub proof fn addr_cmp_ignores_ascii_case(a: Seq<char>, b: Seq<char>)
    requires
        ascii_lower(trim(a)) == ascii_lower(trim(b)),
    ensures
        spec_ascii_addr_normalize(a) == spec_ascii_addr_normalize(b),
{
}

/// Comparing addresses with `addr_cmp` is an equivalence relation.
pub proof fn addr_cmp_is_equivalence(a: Seq<char>, b: Seq<char>, c: Seq<char>)
    ensures
        spec_addr_normalize(a) == spec_addr_normalize(a),
        spec_addr_normalize(a) == spec_addr_normalize(b) ==> spec_addr_normalize(b)
            == spec_addr_normalize(a),
        spec_addr_normalize(a) == spec_addr_normalize(b) && spec_addr_normalize(b)
            == spec_addr_normalize(c) ==> spec_addr_normalize(a) == spec_addr_normalize(c),
{
}

/// A normalized address that `EmailAddress::new` accepts.
#[derive(Debug, Clone, PartialEq, Eq)]
pub struct ContactAddress(String);

impl ContactAddress {
    /// The address.
    pub closed spec fn addr(self) -> Seq<char> {
        self.0@
    }

    /// Normalizes `s` with `addr_normalize` and accepts the result if it is a valid
    /// e-mail address.
    pub fn new(s: &str) -> (r: Result<ContactAddress, AddressError>)
        ensures
            match r {
                Ok(a) => a.addr() == spec_addr_normalize(s@) && spec_parse_email(
                    spec_addr_normalize(s@),
                ) is Ok,
                Err(e) => spec_parse_email(spec_addr_normalize(s@)) == Err::<
                    (Seq<char>, Seq<char>),
                    AddressError,
                >(e),
            },
    {
        let addr = addr_normalize_chars(s);
        match parse_email_chars(&addr) {
            Ok(_) => Ok(ContactAddress(string_of(&addr))),
            Err(e) => Err(e),
        }
    }

    /// The address as a string slice.
    pub fn as_ref(&self) -> (r: &str)
        ensures
            r@ == self.addr(),
    {
        self.0.as_str()
    }

    /// The address as an owned string.
    pub fn to_string(&self) -> (r: String)
        ensures
            r@ == self.addr(),
    {
        self.0.clone()
    }
}

/// What `Regex::new(pattern)` and then `Regex::captures(text)` give: one entry per
/// group, group 0 being the whole match, and an empty string for a group that did not
/// take part; `None` if the pattern is invalid or does not match.
pub uninterp spec fn regex_captures_result(pattern: Seq<char>, text: Seq<char>) -> Option<
    Seq<Seq<char>>,
>;

/// Compiles `pattern` with `regex::Regex::new` and calls `Regex::captures` on `text`.
/// The contract names the result; it depends on the two strings alone. One fact is
/// stated besides: `(.*)<(.*)>` holds a literal `<`, so it finds no match, and
/// `captures` gives `None`, in a text without `<`.
#[verifier::external_body]
fn regex_captures(pattern: &str, text: &str) -> (r: Option<Vec<String>>)
    ensures
        r.deep_view() == regex_captures_result(pattern@, text@),
        pattern@ == name_addr_pattern() && !text@.contains('<') ==> r is None,
{
    match regex::Regex::new(pattern) {
        Ok(re) => re.captures(text).map(
            |c| c.iter().map(|m| m.map_or(String::new(), |m| m.as_str().to_string())).collect(),
        ),
        Err(_) => None,
    }
}

/// Group `i` of `groups`, or the empty string.
pub open spec fn group(groups: Seq<Seq<char>>, i: int) -> Seq<char> {
    if 0 <= i < groups.len() {
        groups[i]
    } else {
        Seq::empty()
    }
}

/// What `sanitize_name_and_addr_from` returns for the captures of `(.*)<(.*)>` in `addr`.
pub open spec fn spec_sanitize_name_and_addr(
    name: Seq<char>,
    addr: Seq<char>,
    captures: Option<Seq<Seq<char>>>,
) -> (Seq<char>, Seq<char>) {
    let (n, a) = match captures {
        Some(g) => (if name.len() == 0 { group(g, 1) } else { name }, group(g, 2)),
        None => (name, addr),
    };
    let sn = spec_sanitize_name(n);
    (if sn == a { Seq::empty() } else { sn }, a)
}

/// The pattern that finds a name and an address in `Name <addr>`.
pub open spec fn name_addr_pattern() -> Seq<char> {
    seq!['(', '.', '*', ')', '<', '(', '.', '*', ')', '>']
}

fn group_chars(groups: &Vec<String>, i: usize) -> (r: Vec<char>)
    ensures
        r@ == group(groups.deep_view(), i as int),
{
    if i < groups.len() {
        chars_of(groups[i].as_str())
    } else {
        Vec::new()
    }
}

/// Takes a name and the captures of `(.*)<(.*)>` in `addr`, and sanitizes both:
/// - with captures, the address is group 2, and group 1 is the name if `name` is empty;
/// - the name is sanitized by `sanitize_name`;
/// - a name equal to the address is dropped.
pub fn sanitize_name_and_addr_from(
    name: &str,
    addr: &str,
    captures: &Option<Vec<String>>,
) -> (r: (String, String))
    ensures
        (r.0@, r.1@) == spec_sanitize_name_and_addr(name@, addr@, captures.deep_view()),
{
    let name_chars = chars_of(name);
    let (n, a) = match captures {
        Some(g) => {
            let n = if name_chars.len() == 0 {
                group_chars(g, 1)
            } else {
                name_chars
            };
            (n, group_chars(g, 2))
        },
        None => (name_chars, chars_of(addr)),
    };
    let sn = sanitize_name_chars(&n);
    let out_name = if chars_eq(&sn, &a) {
        String::new()
    } else {
        string_of(&sn)
    };
    (out_name, string_of(&a))
}

/// Takes a name and an address and sanitizes them: a name in `Name <addr>` is taken
/// when `name` is empty, the name is sanitized, and a name equal to the address is
/// dropped.
pub fn sanitize_name_and_addr(name: &str, addr: &str) -> (r: (String, String))
    ensures
        (r.0@, r.1@) == spec_sanitize_name_and_addr(
            name@,
            addr@,
            regex_captures_result(name_addr_pattern(), addr@),
        ),
        !addr@.contains('<') ==> (r.0@, r.1@) == spec_sanitize_name_and_addr(name@, addr@, None),
{
    let pattern = "(.*)<(.*)>";
    proof {
        reveal_strlit("(.*)<(.*)>");
        assert(pattern@ =~= name_addr_pattern());
    }
    let captures = regex_captures(pattern, addr);
    sanitize_name_and_addr_from(name, addr, &captures)
}

} // verus!
