//! Reading back what `make_vcard` writes: the lines of the written vCards, how the
//! reader goes through them, and the contacts that `parse_vcard` gives back.

use vstd::prelude::*;

use crate::contact_tools::{spec_sanitize_name, spec_sanitize_name_and_addr};
use crate::vcard::{
    ascii_fold, contact_from_entry, empty_entry, eq_ic, first_index_of, lemma_first_index_of, made_vcard,
    no_folded_line, or_empty, parsed_vcard, plain_timestamp_text, rev_utc_format, rev_year_limit, spec_display_name,
    spec_escape, spec_base64_key, spec_base64_photo, spec_lines, spec_parse_entries, spec_property,
    spec_property_raw, spec_unescape, strip_prefix_ic, unfolded_text, timestamp_from_rev,
    unescape_escape_round_trip, utc_timestamp_text, vcard_entry_step, vcard_head, vcard_key_line,
    vcard_note_line, vcard_photo_line, vcard_rev_line, vcard_run, vcard_text, vcards_text, TimestampError,
    VcardContact, VcardEntryView,
};

verus! {

/// A line followed by a carriage return and a line feed.
pub open spec fn crlf(l: Seq<char>) -> Seq<char> {
    l + seq!['\r', '\n']
}

/// The lines `ls`, each followed by a carriage return and a line feed.
pub open spec fn joined_crlf(ls: Seq<Seq<char>>) -> Seq<char>
    decreases ls.len(),
{
    if ls.len() == 0 {
        Seq::empty()
    } else {
        joined_crlf(ls.drop_last()) + crlf(ls.last())
    }
}

/// The `KEY` line of a vCard, if any, without its line break.
pub open spec fn key_lines(c: VcardContact) -> Seq<Seq<char>> {
    match c.key {
        Some(k) => seq!["KEY:data:application/pgp-keys;base64\\,"@ + k@],
        None => Seq::empty(),
    }
}

/// The `PHOTO` line of a vCard, if any, without its line break.
pub open spec fn photo_lines(c: VcardContact) -> Seq<Seq<char>> {
    match c.profile_image {
        Some(p) => seq!["PHOTO:data:image/jpeg;base64\\,"@ + p@],
        None => Seq::empty(),
    }
}

/// The `NOTE` line of a vCard, if any, without its line break.
pub open spec fn note_lines(c: VcardContact) -> Seq<Seq<char>> {
    match c.biography {
        Some(b) => seq!["NOTE:"@ + spec_escape(b@)],
        None => Seq::empty(),
    }
}

/// The `REV` text of a vCard, if one is written.
pub open spec fn rev_text(c: VcardContact) -> Option<Seq<char>> {
    match c.timestamp {
        Ok(t) => utc_timestamp_text(t, rev_utc_format()),
        Err(_) => None,
    }
}

/// The `REV` line of a vCard, if any, without its line break.
pub open spec fn rev_lines(c: VcardContact) -> Seq<Seq<char>> {
    match rev_text(c) {
        Some(x) => seq!["REV:"@ + x],
        None => Seq::empty(),
    }
}

/// The `EMAIL` line of a vCard.
pub open spec fn email_line(c: VcardContact) -> Seq<char> {
    "EMAIL:"@ + spec_escape(c.addr@)
}

/// The `FN` line of a vCard.
pub open spec fn fn_line(c: VcardContact) -> Seq<char> {
    "FN:"@ + spec_escape(spec_display_name(c.authname@, c.addr@))
}

/// The first four lines of a vCard.
pub open spec fn head_lines(c: VcardContact) -> Seq<Seq<char>> {
    seq!["BEGIN:VCARD"@, "VERSION:4.0"@, email_line(c), fn_line(c)]
}

/// The lines of the vCard that `make_vcard` writes for `c`.
pub open spec fn card_lines(c: VcardContact) -> Seq<Seq<char>> {
    head_lines(c) + key_lines(c) + photo_lines(c) + note_lines(c) + rev_lines(c) + seq![
        "END:VCARD"@,
    ]
}

/// The lines of the vCards written for `cs`.
pub open spec fn all_lines(cs: Seq<VcardContact>) -> Seq<Seq<char>>
    decreases cs.len(),
{
    if cs.len() == 0 {
        Seq::empty()
    } else {
        all_lines(cs.drop_last()) + card_lines(cs.last())
    }
}

proof fn lemma_joined_append(a: Seq<Seq<char>>, b: Seq<Seq<char>>)
    ensures
        joined_crlf(a + b) == joined_crlf(a) + joined_crlf(b),
    decreases b.len(),
{
    if b.len() == 0 {
        assert(a + b == a);
        assert(joined_crlf(b) == Seq::<char>::empty());
    } else {
        lemma_joined_append(a, b.drop_last());
        assert((a + b).drop_last() == a + b.drop_last());
        assert((a + b).last() == b.last());
    }
}

proof fn lemma_joined_one(l: Seq<char>)
    ensures
        joined_crlf(seq![l]) == crlf(l),
{
    assert(seq![l].drop_last() == Seq::<Seq<char>>::empty());
    assert(joined_crlf(Seq::<Seq<char>>::empty()) == Seq::<char>::empty());
}

proof fn lemma_card_text(c: VcardContact)
    ensures
        vcard_text(c) == joined_crlf(card_lines(c)),
{
    reveal_strlit("BEGIN:VCARD\r\nVERSION:4.0\r\nEMAIL:");
    reveal_strlit("\r\nFN:");
    reveal_strlit("\r\n");
    reveal_strlit("BEGIN:VCARD");
    reveal_strlit("VERSION:4.0");
    reveal_strlit("EMAIL:");
    reveal_strlit("FN:");
    reveal_strlit("END:VCARD\r\n");
    reveal_strlit("END:VCARD");
    let h = head_lines(c);
    let h1 = seq!["BEGIN:VCARD"@];
    let h2 = h1.push("VERSION:4.0"@);
    let h3 = h2.push(email_line(c));
    assert(h == h3.push(fn_line(c)));
    lemma_joined_one("BEGIN:VCARD"@);
    assert(h2.drop_last() == h1);
    assert(h3.drop_last() == h2);
    assert(h3.push(fn_line(c)).drop_last() == h3);
    assert(joined_crlf(h2) == joined_crlf(h1) + crlf("VERSION:4.0"@));
    assert(joined_crlf(h3) == joined_crlf(h2) + crlf(email_line(c)));
    assert(joined_crlf(h) == joined_crlf(h3) + crlf(fn_line(c)));
    assert(joined_crlf(h) =~= vcard_head(c));
    assert(joined_crlf(h) == vcard_head(c));
    let k = key_lines(c);
    let p = photo_lines(c);
    let n = note_lines(c);
    let r = rev_lines(c);
    let e = seq!["END:VCARD"@];
    match c.key {
        Some(key) => lemma_joined_one("KEY:data:application/pgp-keys;base64\\,"@ + key@),
        None => {},
    }
    assert(joined_crlf(k) == vcard_key_line(c)) by {
        reveal_strlit("KEY:data:application/pgp-keys;base64\\,");
        assert(joined_crlf(Seq::<Seq<char>>::empty()) == Seq::<char>::empty());
    }
    match c.profile_image {
        Some(ph) => lemma_joined_one("PHOTO:data:image/jpeg;base64\\,"@ + ph@),
        None => {},
    }
    assert(joined_crlf(p) == vcard_photo_line(c)) by {
        reveal_strlit("PHOTO:data:image/jpeg;base64\\,");
        assert(joined_crlf(Seq::<Seq<char>>::empty()) == Seq::<char>::empty());
    }
    match c.biography {
        Some(b) => lemma_joined_one("NOTE:"@ + spec_escape(b@)),
        None => {},
    }
    assert(joined_crlf(n) == vcard_note_line(c)) by {
        reveal_strlit("NOTE:");
        assert(joined_crlf(Seq::<Seq<char>>::empty()) == Seq::<char>::empty());
    }
    match rev_text(c) {
        Some(x) => lemma_joined_one("REV:"@ + x),
        None => {},
    }
    assert(joined_crlf(r) == vcard_rev_line(c)) by {
        reveal_strlit("REV:");
        assert(joined_crlf(Seq::<Seq<char>>::empty()) == Seq::<char>::empty());
    }
    lemma_joined_one("END:VCARD"@);
    lemma_joined_append(h, k);
    lemma_joined_append(h + k, p);
    lemma_joined_append(h + k + p, n);
    lemma_joined_append(h + k + p + n, r);
    lemma_joined_append(h + k + p + n + r, e);
    assert(vcard_text(c) =~= joined_crlf(card_lines(c)));
}

proof fn lemma_all_text(cs: Seq<VcardContact>)
    ensures
        vcards_text(cs) == joined_crlf(all_lines(cs)),
    decreases cs.len(),
{
    if cs.len() > 0 {
        lemma_all_text(cs.drop_last());
        lemma_card_text(cs.last());
        lemma_joined_append(all_lines(cs.drop_last()), card_lines(cs.last()));
    } else {
        assert(joined_crlf(Seq::<Seq<char>>::empty()) == Seq::<char>::empty());
    }
}

proof fn lemma_first_index_prefix(a: Seq<char>, b: Seq<char>, c: char)
    requires
        first_index_of(a, c) >= 0,
    ensures
        first_index_of(a + b, c) == first_index_of(a, c),
    decreases a.len(),
{
    lemma_first_index_of(a, c);
    if a[0] != c {
        assert((a + b).skip(1) == a.skip(1) + b);
        lemma_first_index_prefix(a.skip(1), b, c);
    }
}

proof fn lemma_lines_append(a: Seq<char>, b: Seq<char>)
    requires
        a.len() == 0 || a.last() == '\n',
    ensures
        spec_lines(a + b) == spec_lines(a) + spec_lines(b),
    decreases a.len(),
{
    if a.len() == 0 {
        assert(a + b == b);
        assert(spec_lines(a) == Seq::<Seq<char>>::empty());
    } else {
        lemma_first_index_of(a, '\n');
        let k = first_index_of(a, '\n');
        assert(k >= 0) by {
            if k < 0 {
                assert(a[a.len() - 1] != '\n');
            }
        }
        lemma_first_index_prefix(a, b, '\n');
        let s = a + b;
        assert(s.skip(k + 1) == a.skip(k + 1) + b);
        assert(s.take(k) == a.take(k));
        assert(k > 0 ==> s.take(k - 1) == a.take(k - 1));
        assert(k > 0 ==> s[k - 1] == a[k - 1]);
        let rest = a.skip(k + 1);
        if rest.len() > 0 {
            assert(rest.last() == a.last());
        }
        lemma_lines_append(rest, b);
    }
}

proof fn lemma_lines_crlf(l: Seq<char>)
    requires
        !l.contains('\n'),
    ensures
        spec_lines(crlf(l)) == seq![l],
{
    let s = crlf(l);
    lemma_first_index_of(s, '\n');
    let k = first_index_of(s, '\n');
    assert(s[l.len() as int + 1] == '\n');
    assert(k == l.len() + 1) by {
        if k < 0 {
            assert(s[l.len() as int + 1] != '\n');
        } else if k < l.len() {
            assert(s[k] == l[k]);
        } else if k == l.len() {
            assert(s[k] == '\r');
        }
    }
    assert(s.take(k - 1) == l);
    assert(s.skip(k + 1) == Seq::<char>::empty());
    assert(spec_lines(Seq::<char>::empty()) == Seq::<Seq<char>>::empty());
    assert(seq![l] + Seq::<Seq<char>>::empty() == seq![l]);
}

/// A line that the reader takes as it is written: not empty, not starting with a space
/// or a tab, and without a line break.
pub open spec fn line_ok(l: Seq<char>) -> bool {
    l.len() > 0 && l[0] != ' ' && l[0] != '\t' && !l.contains('\n')
}

proof fn lemma_joined_ends(ls: Seq<Seq<char>>)
    ensures
        joined_crlf(ls).len() == 0 || joined_crlf(ls).last() == '\n',
{
    if ls.len() > 0 {
        let j = joined_crlf(ls);
        assert(j == joined_crlf(ls.drop_last()) + crlf(ls.last()));
        assert(j.last() == '\n');
    } else {
        assert(joined_crlf(ls) == Seq::<char>::empty());
    }
}

proof fn lemma_lines_joined(ls: Seq<Seq<char>>)
    requires
        forall|i: int| 0 <= i < ls.len() ==> line_ok(#[trigger] ls[i]),
    ensures
        spec_lines(joined_crlf(ls)) == ls,
        no_folded_line(joined_crlf(ls)),
    decreases ls.len(),
{
    if ls.len() == 0 {
        assert(joined_crlf(ls) == Seq::<char>::empty());
        assert(spec_lines(Seq::<char>::empty()) == Seq::<Seq<char>>::empty());
    } else {
        let init = ls.drop_last();
        let l = ls.last();
        assert(line_ok(ls[ls.len() - 1]));
        lemma_lines_joined(init);
        lemma_joined_ends(init);
        let a = joined_crlf(init);
        lemma_lines_append(a, crlf(l));
        lemma_lines_crlf(l);
        assert(init.push(l) == ls);
        let s = joined_crlf(ls);
        assert(s == a + crlf(l));
        assert forall|i: int| 0 <= i < s.len() - 1 && #[trigger] s[i] == '\n' implies s[i + 1] != ' '
            && s[i + 1] != '\t' by {
            if i < a.len() - 1 {
                assert(s[i] == a[i] && s[i + 1] == a[i + 1]);
            } else if i == a.len() - 1 {
                assert(s[i + 1] == l[0]);
            } else if i < a.len() + l.len() {
                assert(s[i] == l[i - a.len()]);
            } else if i == a.len() + l.len() {
                assert(s[i] == '\r');
            }
        }
    }
}

proof fn lemma_escape_no_newline(s: Seq<char>)
    ensures
        !spec_escape(s).contains('\n'),
    decreases s.len(),
{
    if s.len() > 0 {
        lemma_escape_no_newline(s.skip(1));
        let e = spec_escape(s);
        let h = crate::vcard::escape_char(s[0]);
        assert(e == h + spec_escape(s.skip(1)));
        assert forall|i: int| 0 <= i < e.len() implies e[i] != '\n' by {
            if i < h.len() {
                assert(e[i] == h[i]);
            } else {
                assert(e[i] == spec_escape(s.skip(1))[i - h.len()]);
            }
        }
    }
}

proof fn lemma_prefixed_ok(p: Seq<char>, v: Seq<char>)
    requires
        line_ok(p),
        !v.contains('\n'),
    ensures
        line_ok(p + v),
{
    let l = p + v;
    assert(l[0] == p[0]);
    assert forall|i: int| 0 <= i < l.len() implies l[i] != '\n' by {
        if i < p.len() {
            assert(l[i] == p[i]);
        } else {
            assert(l[i] == v[i - p.len()]);
        }
    }
}

/// All lines of `ls` are taken as they are written.
pub open spec fn lines_ok(ls: Seq<Seq<char>>) -> bool {
    forall|i: int| 0 <= i < ls.len() ==> line_ok(#[trigger] ls[i])
}

proof fn lemma_lines_ok_concat(a: Seq<Seq<char>>, b: Seq<Seq<char>>)
    requires
        lines_ok(a),
        lines_ok(b),
    ensures
        lines_ok(a + b),
{
    assert forall|i: int| 0 <= i < (a + b).len() implies line_ok(#[trigger] (a + b)[i]) by {
        if i < a.len() {
            assert((a + b)[i] == a[i]);
        } else {
            assert((a + b)[i] == b[i - a.len()]);
        }
    }
}

/// A contact whose key and profile image hold no line break, so that `make_vcard`
/// writes each of them on one line.
pub open spec fn vcard_writable(c: VcardContact) -> bool {
    &&& match c.key {
        Some(k) => !k@.contains('\n'),
        None => true,
    }
    &&& match c.profile_image {
        Some(p) => !p@.contains('\n'),
        None => true,
    }
}

proof fn lemma_plain_no_newline(x: Seq<char>)
    requires
        plain_timestamp_text(x),
    ensures
        !x.contains('\n'),
{
    assert forall|i: int| 0 <= i < x.len() implies x[i] != '\n' by {
        assert(plain_timestamp_text(x));
    }
}

proof fn lemma_card_lines_ok(c: VcardContact)
    requires
        vcard_writable(c),
        crate::vcard::rev_text_plain(c),
    ensures
        lines_ok(card_lines(c)),
{
    reveal_strlit("BEGIN:VCARD");
    reveal_strlit("VERSION:4.0");
    reveal_strlit("EMAIL:");
    reveal_strlit("FN:");
    reveal_strlit("END:VCARD");
    reveal_strlit("KEY:data:application/pgp-keys;base64\\,");
    reveal_strlit("PHOTO:data:image/jpeg;base64\\,");
    reveal_strlit("NOTE:");
    reveal_strlit("REV:");
    assert(line_ok("BEGIN:VCARD"@));
    assert(line_ok("VERSION:4.0"@));
    assert(line_ok("EMAIL:"@));
    assert(line_ok("FN:"@));
    assert(line_ok("END:VCARD"@));
    lemma_escape_no_newline(c.addr@);
    lemma_escape_no_newline(spec_display_name(c.authname@, c.addr@));
    lemma_prefixed_ok("EMAIL:"@, spec_escape(c.addr@));
    lemma_prefixed_ok("FN:"@, spec_escape(spec_display_name(c.authname@, c.addr@)));
    let h = head_lines(c);
    assert(lines_ok(h)) by {
        assert forall|i: int| 0 <= i < h.len() implies line_ok(#[trigger] h[i]) by {
            if i == 0 {
            } else if i == 1 {
            } else if i == 2 {
            } else {
            }
        }
    }
    match c.key {
        Some(k) => {
            assert(line_ok("KEY:data:application/pgp-keys;base64\\,"@));
            lemma_prefixed_ok("KEY:data:application/pgp-keys;base64\\,"@, k@);
        },
        None => {},
    }
    assert(lines_ok(key_lines(c)));
    match c.profile_image {
        Some(ph) => {
            assert(line_ok("PHOTO:data:image/jpeg;base64\\,"@));
            lemma_prefixed_ok("PHOTO:data:image/jpeg;base64\\,"@, ph@);
        },
        None => {},
    }
    assert(lines_ok(photo_lines(c)));
    match c.biography {
        Some(b) => {
            assert(line_ok("NOTE:"@));
            lemma_escape_no_newline(b@);
            lemma_prefixed_ok("NOTE:"@, spec_escape(b@));
        },
        None => {},
    }
    assert(lines_ok(note_lines(c)));
    match rev_text(c) {
        Some(x) => {
            assert(line_ok("REV:"@));
            lemma_plain_no_newline(x);
            lemma_prefixed_ok("REV:"@, x);
        },
        None => {},
    }
    assert(lines_ok(rev_lines(c)));
    assert(lines_ok(seq!["END:VCARD"@]));
    lemma_lines_ok_concat(h, key_lines(c));
    lemma_lines_ok_concat(h + key_lines(c), photo_lines(c));
    lemma_lines_ok_concat(h + key_lines(c) + photo_lines(c), note_lines(c));
    lemma_lines_ok_concat(h + key_lines(c) + photo_lines(c) + note_lines(c), rev_lines(c));
    lemma_lines_ok_concat(
        h + key_lines(c) + photo_lines(c) + note_lines(c) + rev_lines(c),
        seq!["END:VCARD"@],
    );
}

proof fn lemma_all_lines_ok(cs: Seq<VcardContact>)
    requires
        forall|k: int| 0 <= k < cs.len() ==> vcard_writable(#[trigger] cs[k]),
        forall|k: int| 0 <= k < cs.len() ==> crate::vcard::rev_text_plain(#[trigger] cs[k]),
    ensures
        lines_ok(all_lines(cs)),
    decreases cs.len(),
{
    if cs.len() > 0 {
        let init = cs.drop_last();
        assert forall|k: int| 0 <= k < init.len() implies vcard_writable(#[trigger] init[k]) by {
            assert(init[k] == cs[k]);
        }
        assert forall|k: int| 0 <= k < init.len() implies crate::vcard::rev_text_plain(#[trigger] init[k]) by {
            assert(init[k] == cs[k]);
        }
        lemma_all_lines_ok(init);
        assert(vcard_writable(cs[cs.len() - 1]));
        assert(crate::vcard::rev_text_plain(cs[cs.len() - 1]));
        lemma_card_lines_ok(cs.last());
        lemma_lines_ok_concat(all_lines(init), card_lines(cs.last()));
    } else {
        assert(all_lines(cs) == Seq::<Seq<char>>::empty());
    }
}

/// The state of the vCard reader: whether it is inside a vCard, the entry being read,
/// and the entries finished so far.
pub type ReaderState = (bool, VcardEntryView, Seq<VcardEntryView>);

/// One line read by the vCard reader.
pub open spec fn run_step(st: ReaderState, line: Seq<char>) -> ReaderState {
    let (inside, e, out) = st;
    if !inside {
        if eq_ic(line, "BEGIN:VCARD"@) {
            (true, empty_entry(), out)
        } else {
            (false, e, out)
        }
    } else {
        let (e2, ended) = vcard_entry_step(e, line);
        if ended {
            (false, empty_entry(), out.push(e2))
        } else {
            (true, e2, out)
        }
    }
}

/// The vCard reader going through `ls` from state `st`.
pub open spec fn run_from(st: ReaderState, ls: Seq<Seq<char>>) -> ReaderState
    decreases ls.len(),
{
    if ls.len() == 0 {
        st
    } else {
        run_step(run_from(st, ls.drop_last()), ls.last())
    }
}

proof fn lemma_run_append(a: Seq<Seq<char>>, b: Seq<Seq<char>>)
    ensures
        vcard_run(a + b) == run_from(vcard_run(a), b),
    decreases b.len(),
{
    if b.len() == 0 {
        assert(a + b == a);
    } else {
        lemma_run_append(a, b.drop_last());
        assert((a + b).drop_last() == a + b.drop_last());
        assert((a + b).last() == b.last());
    }
}

proof fn lemma_run_from_append(st: ReaderState, a: Seq<Seq<char>>, b: Seq<Seq<char>>)
    ensures
        run_from(st, a + b) == run_from(run_from(st, a), b),
    decreases b.len(),
{
    if b.len() == 0 {
        assert(a + b == a);
    } else {
        lemma_run_from_append(st, a, b.drop_last());
        assert((a + b).drop_last() == a + b.drop_last());
        assert((a + b).last() == b.last());
    }
}

proof fn lemma_run_from_one(st: ReaderState, l: Seq<char>)
    ensures
        run_from(st, seq![l]) == run_step(st, l),
{
    assert(seq![l].drop_last() == Seq::<Seq<char>>::empty());
    assert(run_from(st, Seq::<Seq<char>>::empty()) == st);
}

proof fn lemma_no_prefix(s: Seq<char>, p: Seq<char>, i: int)
    requires
        0 <= i < p.len(),
        i < s.len(),
        ascii_fold(s[i]) != ascii_fold(p[i]),
    ensures
        strip_prefix_ic(s, p) is None,
{
}

proof fn lemma_no_prefix_short(s: Seq<char>, p: Seq<char>)
    requires
        s.len() < p.len(),
    ensures
        strip_prefix_ic(s, p) is None,
{
}

proof fn lemma_prefix_same(p: Seq<char>, v: Seq<char>)
    ensures
        strip_prefix_ic(p + v, p) == Some(v),
{
    assert forall|i: int| 0 <= i < p.len() implies #[trigger] ascii_fold((p + v)[i]) == ascii_fold(p[i]) by {
        assert((p + v)[i] == p[i]);
    }
    assert((p + v).skip(p.len() as int) == v);
}

/// `name` is `prop` in upper case, letter by letter.
pub open spec fn names_prop(name: Seq<char>, prop: Seq<char>) -> bool {
    name.len() == prop.len() && forall|i: int| 0 <= i < name.len() ==> #[trigger] ascii_fold(name[i])
        == ascii_fold(prop[i])
}

proof fn lemma_property_line(name: Seq<char>, prop: Seq<char>, v: Seq<char>)
    requires
        names_prop(name, prop),
    ensures
        spec_property_raw(name + seq![':'] + v, prop) == Some((Seq::<char>::empty(), v)),
        spec_property(name + seq![':'] + v, prop) == Some(spec_unescape(v)),
{
    let l = name + seq![':'] + v;
    assert forall|i: int| 0 <= i < prop.len() implies #[trigger] ascii_fold(l[i]) == ascii_fold(prop[i]) by {
        assert(l[i] == name[i]);
    }
    let rem = l.skip(prop.len() as int);
    assert(rem == seq![':'] + v);
    assert(strip_prefix_ic(l, prop) == Some(rem));
    assert(first_index_of(rem, ':') == 0);
    assert(rem.take(0) == Seq::<char>::empty());
    assert(rem.skip(1) == v);
    lemma_no_prefix_short(Seq::<char>::empty(), seq![';']);
    reveal_strlit("PREF=1");
    lemma_no_prefix_short(Seq::<char>::empty(), "PREF=1"@);
}

proof fn reveal_reader_literals()
    ensures
        "item1."@ == seq!['i', 't', 'e', 'm', '1', '.'],
        "email"@ == seq!['e', 'm', 'a', 'i', 'l'],
        "fn"@ == seq!['f', 'n'],
        "key"@ == seq!['k', 'e', 'y'],
        "photo"@ == seq!['p', 'h', 'o', 't', 'o'],
        "note"@ == seq!['n', 'o', 't', 'e'],
        "rev"@ == seq!['r', 'e', 'v'],
        "END:VCARD"@ == seq!['E', 'N', 'D', ':', 'V', 'C', 'A', 'R', 'D'],
        "PGP;ENCODING=BASE64"@.len() > 0,
        "TYPE=PGP;ENCODING=b"@.len() > 0,
        "JPEG;ENCODING=BASE64"@.len() > 0,
        "ENCODING=BASE64;JPEG"@.len() > 0,
        "TYPE=JPEG;ENCODING=b"@.len() > 0,
        "ENCODING=b;TYPE=JPEG"@.len() > 0,
        "ENCODING=BASE64;TYPE=JPEG"@.len() > 0,
        "TYPE=JPEG;ENCODING=BASE64"@.len() > 0,
{
    reveal_strlit("item1.");
    reveal_strlit("email");
    reveal_strlit("fn");
    reveal_strlit("key");
    reveal_strlit("photo");
    reveal_strlit("note");
    reveal_strlit("rev");
    reveal_strlit("END:VCARD");
    reveal_strlit("PGP;ENCODING=BASE64");
    reveal_strlit("TYPE=PGP;ENCODING=b");
    reveal_strlit("JPEG;ENCODING=BASE64");
    reveal_strlit("ENCODING=BASE64;JPEG");
    reveal_strlit("TYPE=JPEG;ENCODING=b");
    reveal_strlit("ENCODING=b;TYPE=JPEG");
    reveal_strlit("ENCODING=BASE64;TYPE=JPEG");
    reveal_strlit("TYPE=JPEG;ENCODING=BASE64");
}

/// A line starting with `c` is no property among `email`, `fn`, `key`, `photo`, `note`
/// and `rev` whose name does not start with `c` ignoring case, and carries no `item1.`
/// prefix unless `c` is an `i`.
proof fn lemma_first_char_rules_out(l: Seq<char>, prop: Seq<char>)
    requires
        l.len() > 0,
        prop.len() > 0,
        ascii_fold(l[0]) != ascii_fold(prop[0]),
    ensures
        strip_prefix_ic(l, prop) is None,
        spec_property_raw(l, prop) is None,
        spec_property(l, prop) is None,
{
    lemma_no_prefix(l, prop, 0);
}

proof fn lemma_step_version(e: VcardEntryView)
    ensures
        vcard_entry_step(e, "VERSION:4.0"@) == (e, false),
{
    reveal_reader_literals();
    reveal_strlit("VERSION:4.0");
    let l = "VERSION:4.0"@;
    lemma_first_char_rules_out(l, "item1."@);
    lemma_first_char_rules_out(l, "email"@);
    lemma_first_char_rules_out(l, "fn"@);
    lemma_first_char_rules_out(l, "key"@);
    lemma_first_char_rules_out(l, "photo"@);
    lemma_first_char_rules_out(l, "note"@);
    lemma_first_char_rules_out(l, "rev"@);
    assert(!eq_ic(l, "END:VCARD"@));
}

proof fn lemma_step_email(e: VcardEntryView, v: Seq<char>)
    ensures
        vcard_entry_step(e, "EMAIL:"@ + v) == (
            VcardEntryView { addr: crate::vcard::keep_first(e.addr, spec_unescape(v)), ..e },
            false,
        ),
{
    reveal_reader_literals();
    reveal_strlit("EMAIL:");
    let l = "EMAIL:"@ + v;
    assert(l == seq!['E', 'M', 'A', 'I', 'L'] + seq![':'] + v);
    lemma_first_char_rules_out(l, "item1."@);
    lemma_property_line(seq!['E', 'M', 'A', 'I', 'L'], "email"@, v);
}

proof fn lemma_step_fn(e: VcardEntryView, v: Seq<char>)
    ensures
        vcard_entry_step(e, "FN:"@ + v) == (
            VcardEntryView { display_name: crate::vcard::keep_first(e.display_name, spec_unescape(v)), ..e },
            false,
        ),
{
    reveal_reader_literals();
    reveal_strlit("FN:");
    let l = "FN:"@ + v;
    assert(l == seq!['F', 'N'] + seq![':'] + v);
    lemma_first_char_rules_out(l, "item1."@);
    lemma_first_char_rules_out(l, "email"@);
    lemma_property_line(seq!['F', 'N'], "fn"@, v);
}

proof fn lemma_step_key(e: VcardEntryView, k: Seq<char>)
    ensures
        vcard_entry_step(e, "KEY:data:application/pgp-keys;base64\\,"@ + k) == (
            VcardEntryView { key: crate::vcard::keep_first(e.key, k), ..e },
            false,
        ),
{
    reveal_reader_literals();
    reveal_strlit("KEY:data:application/pgp-keys;base64\\,");
    reveal_strlit("data:application/pgp-keys;base64\\,");
    let d = "data:application/pgp-keys;base64\\,"@;
    let l = "KEY:data:application/pgp-keys;base64\\,"@ + k;
    assert(l == seq!['K', 'E', 'Y'] + seq![':'] + (d + k));
    lemma_first_char_rules_out(l, "item1."@);
    lemma_first_char_rules_out(l, "email"@);
    lemma_first_char_rules_out(l, "fn"@);
    lemma_property_line(seq!['K', 'E', 'Y'], "key"@, d + k);
    lemma_prefix_same(d, k);
    assert(spec_base64_key(l) == Some(k));
}

proof fn lemma_step_photo(e: VcardEntryView, p: Seq<char>)
    ensures
        vcard_entry_step(e, "PHOTO:data:image/jpeg;base64\\,"@ + p) == (
            VcardEntryView { photo: crate::vcard::keep_first(e.photo, p), ..e },
            false,
        ),
{
    reveal_reader_literals();
    reveal_strlit("PHOTO:data:image/jpeg;base64\\,");
    reveal_strlit("data:image/jpeg;base64\\,");
    let d = "data:image/jpeg;base64\\,"@;
    let l = "PHOTO:data:image/jpeg;base64\\,"@ + p;
    assert(l == seq!['P', 'H', 'O', 'T', 'O'] + seq![':'] + (d + p));
    lemma_first_char_rules_out(l, "item1."@);
    lemma_first_char_rules_out(l, "email"@);
    lemma_first_char_rules_out(l, "fn"@);
    lemma_first_char_rules_out(l, "key"@);
    assert(spec_base64_key(l) is None);
    lemma_property_line(seq!['P', 'H', 'O', 'T', 'O'], "photo"@, d + p);
    lemma_prefix_same(d, p);
    assert(spec_base64_photo(l) == Some(p));
}

proof fn lemma_step_note(e: VcardEntryView, v: Seq<char>)
    ensures
        vcard_entry_step(e, "NOTE:"@ + v) == (
            VcardEntryView { biography: crate::vcard::keep_first(e.biography, spec_unescape(v)), ..e },
            false,
        ),
{
    reveal_reader_literals();
    reveal_strlit("NOTE:");
    let l = "NOTE:"@ + v;
    assert(l == seq!['N', 'O', 'T', 'E'] + seq![':'] + v);
    lemma_first_char_rules_out(l, "item1."@);
    lemma_first_char_rules_out(l, "email"@);
    lemma_first_char_rules_out(l, "fn"@);
    lemma_first_char_rules_out(l, "key"@);
    lemma_first_char_rules_out(l, "photo"@);
    assert(spec_base64_key(l) is None);
    assert(spec_base64_photo(l) is None);
    lemma_property_line(seq!['N', 'O', 'T', 'E'], "note"@, v);
}

proof fn lemma_step_rev(e: VcardEntryView, v: Seq<char>)
    ensures
        vcard_entry_step(e, "REV:"@ + v) == (
            VcardEntryView { rev: crate::vcard::keep_first(e.rev, spec_unescape(v)), ..e },
            false,
        ),
{
    reveal_reader_literals();
    reveal_strlit("REV:");
    let l = "REV:"@ + v;
    assert(l == seq!['R', 'E', 'V'] + seq![':'] + v);
    lemma_first_char_rules_out(l, "item1."@);
    lemma_first_char_rules_out(l, "email"@);
    lemma_first_char_rules_out(l, "fn"@);
    lemma_first_char_rules_out(l, "key"@);
    lemma_first_char_rules_out(l, "photo"@);
    lemma_first_char_rules_out(l, "note"@);
    assert(spec_base64_key(l) is None);
    assert(spec_base64_photo(l) is None);
    lemma_property_line(seq!['R', 'E', 'V'], "rev"@, v);
}

proof fn lemma_step_end(e: VcardEntryView)
    ensures
        vcard_entry_step(e, "END:VCARD"@) == (e, true),
{
    reveal_reader_literals();
    let l = "END:VCARD"@;
    lemma_first_char_rules_out(l, "item1."@);
    lemma_no_prefix(l, "email"@, 1);
    lemma_first_char_rules_out(l, "fn"@);
    lemma_first_char_rules_out(l, "key"@);
    lemma_first_char_rules_out(l, "photo"@);
    lemma_first_char_rules_out(l, "note"@);
    lemma_first_char_rules_out(l, "rev"@);
    assert(spec_base64_key(l) is None);
    assert(spec_base64_photo(l) is None);
    lemma_prefix_same(l, Seq::<char>::empty());
    assert(l + Seq::<char>::empty() == l);
    assert(eq_ic(l, "END:VCARD"@));
}

/// The view of an optional string.
pub open spec fn opt_view(o: Option<String>) -> Option<Seq<char>> {
    match o {
        Some(s) => Some(s@),
        None => None,
    }
}

/// The entry that the reader makes of the vCard written for `c`.
pub open spec fn expected_entry(c: VcardContact) -> VcardEntryView {
    VcardEntryView {
        display_name: Some(spec_display_name(c.authname@, c.addr@)),
        addr: Some(c.addr@),
        key: opt_view(c.key),
        photo: opt_view(c.profile_image),
        biography: opt_view(c.biography),
        rev: match rev_text(c) {
            Some(x) => Some(spec_unescape(x)),
            None => None,
        },
    }
}

proof fn lemma_run_push(st: ReaderState, a: Seq<Seq<char>>, l: Seq<char>)
    ensures
        run_from(st, a.push(l)) == run_step(run_from(st, a), l),
{
    assert(a.push(l).drop_last() == a);
}

proof fn lemma_run_none(st: ReaderState)
    ensures
        run_from(st, Seq::<Seq<char>>::empty()) == st,
{
}

proof fn lemma_card_run(c: VcardContact, out: Seq<VcardEntryView>)
    ensures
        run_from((false, empty_entry(), out), card_lines(c)) == (
            false,
            empty_entry(),
            out.push(expected_entry(c)),
        ),
{
    let e0 = empty_entry();
    let st0: ReaderState = (false, e0, out);
    reveal_strlit("BEGIN:VCARD");
    let b = "BEGIN:VCARD"@;
    lemma_prefix_same(b, Seq::<char>::empty());
    assert(b + Seq::<char>::empty() == b);
    assert(eq_ic(b, "BEGIN:VCARD"@));
    let h1 = seq![b];
    let h2 = h1.push("VERSION:4.0"@);
    let h3 = h2.push(email_line(c));
    let h = h3.push(fn_line(c));
    assert(h == head_lines(c));
    lemma_run_from_one(st0, b);
    assert(run_from(st0, h1) == (true, e0, out));
    lemma_run_push(st0, h1, "VERSION:4.0"@);
    lemma_step_version(e0);
    assert(run_from(st0, h2) == (true, e0, out));
    lemma_run_push(st0, h2, email_line(c));
    lemma_step_email(e0, spec_escape(c.addr@));
    unescape_escape_round_trip(c.addr@);
    let e1 = VcardEntryView { addr: Some(c.addr@), ..e0 };
    assert(run_from(st0, h3) == (true, e1, out));
    lemma_run_push(st0, h3, fn_line(c));
    let dn = spec_display_name(c.authname@, c.addr@);
    lemma_step_fn(e1, spec_escape(dn));
    unescape_escape_round_trip(dn);
    let e2 = VcardEntryView { display_name: Some(dn), ..e1 };
    assert(run_from(st0, h) == (true, e2, out));
    let kl = key_lines(c);
    let e3 = VcardEntryView { key: opt_view(c.key), ..e2 };
    match c.key {
        Some(k) => {
            lemma_run_from_one((true, e2, out), "KEY:data:application/pgp-keys;base64\\,"@ + k@);
            lemma_step_key(e2, k@);
        },
        None => {
            lemma_run_none((true, e2, out));
        },
    }
    assert(run_from((true, e2, out), kl) == (true, e3, out));
    let pl = photo_lines(c);
    let e4 = VcardEntryView { photo: opt_view(c.profile_image), ..e3 };
    match c.profile_image {
        Some(p) => {
            lemma_run_from_one((true, e3, out), "PHOTO:data:image/jpeg;base64\\,"@ + p@);
            lemma_step_photo(e3, p@);
        },
        None => {
            lemma_run_none((true, e3, out));
        },
    }
    assert(run_from((true, e3, out), pl) == (true, e4, out));
    let nl = note_lines(c);
    let e5 = VcardEntryView { biography: opt_view(c.biography), ..e4 };
    match c.biography {
        Some(bio) => {
            lemma_run_from_one((true, e4, out), "NOTE:"@ + spec_escape(bio@));
            lemma_step_note(e4, spec_escape(bio@));
            unescape_escape_round_trip(bio@);
        },
        None => {
            lemma_run_none((true, e4, out));
        },
    }
    assert(run_from((true, e4, out), nl) == (true, e5, out));
    let rl = rev_lines(c);
    let e6 = expected_entry(c);
    match rev_text(c) {
        Some(x) => {
            lemma_run_from_one((true, e5, out), "REV:"@ + x);
            lemma_step_rev(e5, x);
        },
        None => {
            lemma_run_none((true, e5, out));
        },
    }
    assert(run_from((true, e5, out), rl) == (true, e6, out));
    reveal_strlit("END:VCARD");
    lemma_run_from_one((true, e6, out), "END:VCARD"@);
    lemma_step_end(e6);
    assert(run_from((true, e6, out), seq!["END:VCARD"@]) == (false, e0, out.push(e6)));
    lemma_run_from_append(st0, h, kl);
    lemma_run_from_append(st0, h + kl, pl);
    lemma_run_from_append(st0, h + kl + pl, nl);
    lemma_run_from_append(st0, h + kl + pl + nl, rl);
    lemma_run_from_append(st0, h + kl + pl + nl + rl, seq!["END:VCARD"@]);
}

/// The entries that the reader makes of the vCards written for `cs`.
pub open spec fn expected_entries(cs: Seq<VcardContact>) -> Seq<VcardEntryView> {
    cs.map_values(|c: VcardContact| expected_entry(c))
}

proof fn lemma_all_run(cs: Seq<VcardContact>)
    ensures
        vcard_run(all_lines(cs)) == (false, empty_entry(), expected_entries(cs)),
    decreases cs.len(),
{
    if cs.len() == 0 {
        assert(all_lines(cs) == Seq::<Seq<char>>::empty());
        assert(expected_entries(cs) == Seq::<VcardEntryView>::empty());
    } else {
        let init = cs.drop_last();
        lemma_all_run(init);
        lemma_run_append(all_lines(init), card_lines(cs.last()));
        lemma_card_run(cs.last(), expected_entries(init));
        assert(expected_entries(init).push(expected_entry(cs.last())) == expected_entries(cs));
    }
}

proof fn lemma_unescape_plain(s: Seq<char>)
    requires
        !s.contains('\\'),
    ensures
        spec_unescape(s) == s,
    decreases s.len(),
{
    if s.len() > 0 {
        assert(s[0] != '\\');
        assert(!s.skip(1).contains('\\')) by {
            assert forall|i: int| 0 <= i < s.skip(1).len() implies s.skip(1)[i] != '\\' by {
                assert(s.skip(1)[i] == s[i + 1]);
            }
        }
        lemma_unescape_plain(s.skip(1));
        assert(seq![s[0]] + s.skip(1) == s);
    }
}

/// A contact that comes back whole from its vCard: its key and profile image hold no
/// line break, its address holds no `<`, and its name is as `sanitize_name` leaves it
/// and differs from the address; without a name, the address is as `sanitize_name`
/// leaves it.
pub open spec fn vcard_round_trips(c: VcardContact) -> bool {
    &&& vcard_writable(c)
    &&& !c.addr@.contains('<')
    &&& c.authname@.len() > 0 ==> spec_sanitize_name(c.authname@) == c.authname@ && c.authname@
        != c.addr@
    &&& c.authname@.len() == 0 ==> spec_sanitize_name(c.addr@) == c.addr@
}

/// `p` is the contact `c` read back from its vCard: address, name, key, profile image
/// and biography are the same, and the timestamp is what chrono reads from the `REV`
/// text written for it (missing where none was written).
pub open spec fn read_back(c: VcardContact, p: VcardContact) -> bool {
    &&& p.addr@ == c.addr@
    &&& p.authname@ == c.authname@
    &&& opt_view(p.key) == opt_view(c.key)
    &&& opt_view(p.profile_image) == opt_view(c.profile_image)
    &&& opt_view(p.biography) == opt_view(c.biography)
    &&& match rev_text(c) {
        Some(x) => timestamp_from_rev(Some(x), p.timestamp),
        None => p.timestamp == Err::<i64, TimestampError>(TimestampError::Missing),
    }
}

/// What `parse_vcard` reads from what `make_vcard` writes gives back the contacts
/// written, in order, each with the same address, name, key, profile image and
/// biography, and with the timestamp that chrono reads from the written `REV` text:
/// the timestamp written, where it lies from 1970 up to the end of the year 9999, and
/// none where none was written; wherever each contact is one that `vcard_round_trips`
/// admits.
pub proof fn make_then_parse_vcard(cs: Seq<VcardContact>, text: Seq<char>, parsed: Seq<VcardContact>)
    requires
        made_vcard(cs, text),
        parsed_vcard(text, parsed),
        forall|k: int| 0 <= k < cs.len() ==> vcard_round_trips(#[trigger] cs[k]),
    ensures
        parsed.len() == cs.len(),
        forall|k: int| 0 <= k < cs.len() ==> read_back(#[trigger] cs[k], parsed[k]),
        forall|k: int|
            0 <= k < cs.len() && #[trigger] cs[k].timestamp is Ok && 0 <= cs[k].timestamp->Ok_0
                < rev_year_limit() ==> parsed[k].timestamp == cs[k].timestamp,
        forall|k: int|
            0 <= k < cs.len() && #[trigger] cs[k].timestamp is Err ==> parsed[k].timestamp == Err::<
                i64,
                TimestampError,
            >(TimestampError::Missing),
{
    lemma_all_text(cs);
    assert forall|k: int| 0 <= k < cs.len() implies vcard_writable(#[trigger] cs[k]) by {
        assert(vcard_round_trips(cs[k]));
    }
    lemma_all_lines_ok(cs);
    lemma_lines_joined(all_lines(cs));
    assert(unfolded_text(text) == text);
    lemma_all_run(cs);
    assert(spec_parse_entries(text) == expected_entries(cs));
    assert forall|k: int| 0 <= k < cs.len() implies read_back(#[trigger] cs[k], parsed[k]) by {
        let c = cs[k];
        let p = parsed[k];
        let e = expected_entry(c);
        assert(spec_parse_entries(unfolded_text(text))[k] == e);
        assert(contact_from_entry(e, p));
        assert(vcard_round_trips(c));
        assert(crate::vcard::rev_text_plain(c));
        let dn = spec_display_name(c.authname@, c.addr@);
        assert(or_empty(e.display_name) == dn);
        assert(or_empty(e.addr) == c.addr@);
        assert((p.authname@, p.addr@) == spec_sanitize_name_and_addr(dn, c.addr@, None));
        if c.authname@.len() == 0 {
            assert(c.authname@ == Seq::<char>::empty());
        }
        match rev_text(c) {
            Some(x) => {
                assert(plain_timestamp_text(x));
                assert(!x.contains('\\')) by {
                    assert forall|i: int| 0 <= i < x.len() implies x[i] != '\\' by {
                        assert(plain_timestamp_text(x));
                    }
                }
                lemma_unescape_plain(x);
            },
            None => {},
        }
    }
}

} // verus!
