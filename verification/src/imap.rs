//! IMAP helpers: grouping message UIDs into the sequence sets that IMAP commands take.

use vstd::prelude::*;

use crate::text::{chars_of, decimal, lemma_decimal_digits, push_all, push_decimal};

verus! {

/// The largest number of characters after which a sequence set is closed.
pub const MAX_SEQUENCE_SET_LEN: usize = 990;

/// The runs of consecutive UIDs in `u`, in order, each as its first and last UID.
pub open spec fn runs(u: Seq<u32>) -> Seq<(u32, u32)>
    decreases u.len(),
{
    if u.len() == 0 {
        Seq::empty()
    } else {
        let r = runs(u.drop_last());
        let x = u.last();
        if r.len() > 0 && r.last().1 + 1 == x {
            r.update(r.len() - 1, (r.last().0, x))
        } else {
            r.push((x, x))
        }
    }
}

/// The UIDs from `a` to `b`, both included.
pub open spec fn range_uids(r: (u32, u32)) -> Seq<u32> {
    Seq::new((r.1 - r.0 + 1) as nat, |k: int| (r.0 + k) as u32)
}

/// The UIDs of the ranges `rs`, in order.
pub open spec fn flat(rs: Seq<(u32, u32)>) -> Seq<u32>
    decreases rs.len(),
{
    if rs.len() == 0 {
        Seq::empty()
    } else {
        flat(rs.drop_last()) + range_uids(rs.last())
    }
}

/// How a range is written in a sequence set: `a` alone, or `a:b`.
pub open spec fn range_text(r: (u32, u32)) -> Seq<char> {
    if r.0 == r.1 {
        decimal(r.0 as nat)
    } else {
        decimal(r.0 as nat) + ":"@ + decimal(r.1 as nat)
    }
}

/// The sequence set of the ranges `rs`: their texts, separated by commas.
pub open spec fn joined(rs: Seq<(u32, u32)>) -> Seq<char>
    decreases rs.len(),
{
    if rs.len() == 0 {
        Seq::empty()
    } else if rs.len() == 1 {
        range_text(rs[0])
    } else {
        joined(rs.drop_last()) + ","@ + range_text(rs.last())
    }
}

/// Groups the ranges `rs` in order: the sets closed so far, each closed once its text
/// exceeds the limit, and the set still open.
pub open spec fn chunk_state(rs: Seq<(u32, u32)>) -> (Seq<Seq<(u32, u32)>>, Seq<(u32, u32)>)
    decreases rs.len(),
{
    if rs.len() == 0 {
        (Seq::empty(), Seq::empty())
    } else {
        let (done, cur) = chunk_state(rs.drop_last());
        let c = cur.push(rs.last());
        if joined(c).len() > MAX_SEQUENCE_SET_LEN {
            (done.push(c), Seq::empty())
        } else {
            (done, c)
        }
    }
}

/// The ranges of each sequence set of `uids`, in order.
pub open spec fn sequence_sets(uids: Seq<u32>) -> Seq<Seq<(u32, u32)>> {
    let (done, cur) = chunk_state(runs(uids));
    if cur.len() > 0 {
        done.push(cur)
    } else {
        done
    }
}

/// The UIDs of the sets `sets`, in order.
pub open spec fn flat_all(sets: Seq<Seq<(u32, u32)>>) -> Seq<u32>
    decreases sets.len(),
{
    if sets.len() == 0 {
        Seq::empty()
    } else {
        flat_all(sets.drop_last()) + flat(sets.last())
    }
}

/// Every range starts no later than it ends.
pub open spec fn ranges_ok(rs: Seq<(u32, u32)>) -> bool {
    forall|i: int| 0 <= i < rs.len() ==> (#[trigger] rs[i]).0 <= rs[i].1
}

proof fn lemma_runs(u: Seq<u32>)
    ensures
        ranges_ok(runs(u)),
        runs(u).len() > 0 <==> u.len() > 0,
        u.len() > 0 ==> runs(u).last().1 == u.last(),
        flat(runs(u)) == u,
    decreases u.len(),
{
    if u.len() > 0 {
        let p = u.drop_last();
        lemma_runs(p);
        let r = runs(p);
        let x = u.last();
        if r.len() > 0 && r.last().1 + 1 == x {
            let n = runs(u);
            let last = r.last();
            assert(n.drop_last() == r.drop_last());
            assert(range_uids((last.0, x)) == range_uids(last).push(x));
            assert(flat(r) == flat(r.drop_last()) + range_uids(last));
            assert(u == p.push(x));
        } else {
            let n = runs(u);
            assert(n.drop_last() == r);
            assert(range_uids((x, x)) == seq![x]);
            assert(u == p.push(x));
        }
    } else {
        assert(u == Seq::<u32>::empty());
    }
}

proof fn lemma_chunks_flat(rs: Seq<(u32, u32)>)
    ensures
        flat_all(chunk_state(rs).0) + flat(chunk_state(rs).1) == flat(rs),
    decreases rs.len(),
{
    if rs.len() > 0 {
        lemma_chunks_flat(rs.drop_last());
        let (done, cur) = chunk_state(rs.drop_last());
        let c = cur.push(rs.last());
        assert(c.drop_last() == cur);
        assert(flat(c) == flat(cur) + range_uids(rs.last()));
        if joined(c).len() > MAX_SEQUENCE_SET_LEN {
            assert(done.push(c).drop_last() == done);
            assert(flat(Seq::<(u32, u32)>::empty()) == Seq::<u32>::empty());
        }
    } else {
        assert(flat_all(Seq::<Seq<(u32, u32)>>::empty()) == Seq::<u32>::empty());
    }
}

/// The UIDs of all sequence sets of `uids`, taken in order, are `uids` again: every UID
/// is in exactly one set, and the sets keep the order of the UIDs.
pub proof fn sequence_sets_cover_uids(uids: Seq<u32>)
    ensures
        flat_all(sequence_sets(uids)) == uids,
{
    lemma_runs(uids);
    lemma_chunks_flat(runs(uids));
    let (done, cur) = chunk_state(runs(uids));
    if cur.len() > 0 {
        assert(done.push(cur).drop_last() == done);
    } else {
        assert(cur == Seq::<(u32, u32)>::empty());
        assert(flat(cur) == Seq::<u32>::empty());
    }
}

/// The number `10` to the power `k`.
pub open spec fn pow10(k: nat) -> nat
    decreases k,
{
    if k == 0 {
        1
    } else {
        10 * pow10((k - 1) as nat)
    }
}

proof fn lemma_decimal_len(n: nat, k: nat)
    requires
        k >= 1,
        n < pow10(k),
    ensures
        decimal(n).len() <= k,
    decreases k,
{
    if n >= 10 {
        assert(k >= 2) by {
            if k == 1 {
                assert(pow10(1) == 10) by {
                    assert(pow10(0) == 1);
                }
            }
        }
        assert(n / 10 < pow10((k - 1) as nat));
        lemma_decimal_len(n / 10, (k - 1) as nat);
    }
}

proof fn lemma_u32_decimal_len(n: u32)
    ensures
        decimal(n as nat).len() <= 10,
{
    assert(pow10(10) == 10000000000) by {
        reveal_with_fuel(pow10, 11);
    }
    lemma_decimal_len(n as nat, 10);
}

fn push_range_text(out: &mut String, r: (u32, u32)) -> (n: usize)
    ensures
        final(out)@ == old(out)@ + range_text(r),
        n == range_text(r).len(),
        n <= 21,
{
    let mut t = String::new();
    push_decimal(&mut t, r.0 as u64);
    if r.0 != r.1 {
        t.push(':');
        push_decimal(&mut t, r.1 as u64);
    }
    proof {
        reveal_strlit(":");
        assert(t@ == range_text(r));
        lemma_u32_decimal_len(r.0);
        lemma_u32_decimal_len(r.1);
    }
    let v = chars_of(t.as_str());
    push_all(out, &v);
    v.len()
}

fn find_runs(uids: &[u32]) -> (r: Vec<(u32, u32)>)
    requires
        forall|i: int| 0 <= i < uids@.len() - 1 ==> uids@[i] < u32::MAX,
    ensures
        r@ == runs(uids@),
{
    let mut ranges: Vec<(u32, u32)> = Vec::new();
    let mut i: usize = 0;
    while i < uids.len()
        invariant
            i <= uids@.len(),
            forall|j: int| 0 <= j < uids@.len() - 1 ==> uids@[j] < u32::MAX,
            ranges@ == runs(uids@.take(i as int)),
        decreases uids@.len() - i,
    {
        let current = uids[i];
        proof {
            lemma_runs(uids@.take(i as int));
            assert(uids@.take(i + 1).drop_last() == uids@.take(i as int));
            assert(uids@.take(i + 1).last() == current);
            if i > 0 {
                assert(uids@.take(i as int).last() == uids@[i - 1]);
            }
        }
        let n = ranges.len();
        if n > 0 && ranges[n - 1].1 + 1 == current {
            let start = ranges[n - 1].0;
            ranges.set(n - 1, (start, current));
        } else {
            ranges.push((current, current));
        }
        i = i + 1;
    }
    proof {
        assert(uids@.take(uids@.len() as int) == uids@);
    }
    ranges
}

fn push_range_uids(out: &mut Vec<u32>, r: (u32, u32))
    requires
        r.0 <= r.1,
    ensures
        final(out)@ == old(out)@ + range_uids(r),
{
    let ghost base = out@;
    let mut u = r.0;
    loop
        invariant_except_break
            r.0 <= u <= r.1,
            out@ == base + Seq::new((u - r.0) as nat, |k: int| (r.0 + k) as u32),
        ensures
            out@ == base + range_uids(r),
        decreases r.1 - u,
    {
        out.push(u);
        proof {
            assert(Seq::new((u - r.0) as nat, |k: int| (r.0 + k) as u32).push(u) == Seq::new(
                (u + 1 - r.0) as nat,
                |k: int| (r.0 + k) as u32,
            ));
        }
        if u == r.1 {
            proof {
                assert(Seq::new((u + 1 - r.0) as nat, |k: int| (r.0 + k) as u32) == range_uids(r));
            }
            break;
        }
        u = u + 1;
    }
}

/// Groups UIDs into IMAP sequence sets: runs of consecutive UIDs are written `a:b`,
/// runs are separated by commas, and a set is closed once its text exceeds 990
/// characters. Each set comes with the UIDs it holds.
pub fn build_sequence_sets(uids: &[u32]) -> (r: Vec<(Vec<u32>, String)>)
    requires
        forall|i: int| 0 <= i < uids@.len() - 1 ==> uids@[i] < u32::MAX,
    ensures
        r@.len() == sequence_sets(uids@).len(),
        forall|k: int|
            0 <= k < r@.len() ==> (#[trigger] r@[k]).0@ == flat(sequence_sets(uids@)[k]) && r@[k].1@
                == joined(sequence_sets(uids@)[k]),
{
    let ranges = find_runs(uids);
    proof {
        lemma_runs(uids@);
    }
    let mut result: Vec<(Vec<u32>, String)> = Vec::new();
    let mut last_uids: Vec<u32> = Vec::new();
    let mut last_str = String::new();
    let mut last_len: usize = 0;
    let mut j: usize = 0;
    while j < ranges.len()
        invariant
            j <= ranges@.len(),
            ranges@ == runs(uids@),
            ranges_ok(ranges@),
            result@.len() == chunk_state(ranges@.take(j as int)).0.len(),
            forall|k: int|
                0 <= k < result@.len() ==> (#[trigger] result@[k]).0@ == flat(
                    chunk_state(ranges@.take(j as int)).0[k],
                ) && result@[k].1@ == joined(chunk_state(ranges@.take(j as int)).0[k]),
            last_uids@ == flat(chunk_state(ranges@.take(j as int)).1),
            last_str@ == joined(chunk_state(ranges@.take(j as int)).1),
            last_len == last_str@.len(),
            last_len <= MAX_SEQUENCE_SET_LEN,
            last_len == 0 <==> chunk_state(ranges@.take(j as int)).1.len() == 0,
        decreases ranges@.len() - j,
    {
        let r = ranges[j];
        let ghost prev = ranges@.take(j as int);
        let ghost cur = chunk_state(prev).1;
        let ghost c = cur.push(r);
        proof {
            assert(ranges@.take(j + 1).drop_last() == prev);
            assert(ranges@.take(j + 1).last() == r);
            assert(r.0 <= r.1);
            assert(c.drop_last() == cur);
            if cur.len() > 0 {
                lemma_joined_nonempty(cur);
            }
        }
        push_range_uids(&mut last_uids, r);
        if last_len > 0 {
            last_str.push(',');
            last_len = last_len + 1;
        }
        let n = push_range_text(&mut last_str, r);
        last_len = last_len + n;
        proof {
            reveal_strlit(",");
            if cur.len() == 0 {
                assert(c == seq![r]);
                assert(last_str@ == range_text(r));
            } else {
                assert(last_str@ == joined(cur) + ","@ + range_text(r));
            }
            assert(last_str@ == joined(c));
            assert(last_uids@ == flat(c));
            lemma_range_text_nonempty(r);
        }
        if last_len > MAX_SEQUENCE_SET_LEN {
            let mut u: Vec<u32> = Vec::new();
            let mut s = String::new();
            std::mem::swap(&mut u, &mut last_uids);
            std::mem::swap(&mut s, &mut last_str);
            result.push((u, s));
            last_len = 0;
            proof {
                assert(flat(Seq::<(u32, u32)>::empty()) == Seq::<u32>::empty());
                assert(last_uids@ == Seq::<u32>::empty());
                assert(last_str@ == Seq::<char>::empty());
            }
        }
        j = j + 1;
    }
    proof {
        assert(ranges@.take(ranges@.len() as int) == ranges@);
    }
    if last_len > 0 {
        result.push((last_uids, last_str));
    }
    result
}

proof fn lemma_range_text_nonempty(r: (u32, u32))
    ensures
        range_text(r).len() > 0,
{
    lemma_decimal_digits(r.0 as nat);
}

proof fn lemma_joined_nonempty(rs: Seq<(u32, u32)>)
    requires
        rs.len() > 0,
    ensures
        joined(rs).len() > 0,
{
    if rs.len() == 1 {
        lemma_range_text_nonempty(rs[0]);
    } else {
        lemma_range_text_nonempty(rs.last());
    }
}

proof fn lemma_range_text_len(r: (u32, u32))
    ensures
        range_text(r).len() <= 21,
{
    lemma_u32_decimal_len(r.0);
    lemma_u32_decimal_len(r.1);
    reveal_strlit(":");
}

proof fn lemma_chunks_short(rs: Seq<(u32, u32)>)
    ensures
        joined(chunk_state(rs).1).len() <= MAX_SEQUENCE_SET_LEN,
        forall|k: int|
            0 <= k < chunk_state(rs).0.len() ==> joined(#[trigger] chunk_state(rs).0[k]).len()
                <= MAX_SEQUENCE_SET_LEN + 22,
    decreases rs.len(),
{
    if rs.len() == 0 {
        assert(joined(Seq::<(u32, u32)>::empty()).len() == 0);
    } else {
        lemma_chunks_short(rs.drop_last());
        let (done, cur) = chunk_state(rs.drop_last());
        let r = rs.last();
        let c = cur.push(r);
        lemma_range_text_len(r);
        reveal_strlit(",");
        if cur.len() == 0 {
            assert(c == seq![r]);
            assert(joined(c) == range_text(r));
        } else {
            assert(c.drop_last() == cur);
            assert(joined(c) == joined(cur) + ","@ + range_text(r));
        }
        assert(joined(c).len() <= MAX_SEQUENCE_SET_LEN + 22);
        if joined(c).len() > MAX_SEQUENCE_SET_LEN {
            assert forall|k: int| 0 <= k < done.push(c).len() implies joined(
                #[trigger] done.push(c)[k],
            ).len() <= MAX_SEQUENCE_SET_LEN + 22 by {
                if k < done.len() {
                    assert(done.push(c)[k] == done[k]);
                }
            }
            assert(joined(Seq::<(u32, u32)>::empty()).len() == 0);
        }
    }
}

/// Each sequence set of `uids` is short: its text has at most 990 characters, or
/// exceeds them by less than one range (a comma and two 10-digit numbers with a
/// colon), so that every IMAP command that carries one stays near 1000 characters.
pub proof fn sequence_sets_are_short(uids: Seq<u32>)
    ensures
        forall|k: int|
            0 <= k < sequence_sets(uids).len() ==> joined(#[trigger] sequence_sets(uids)[k]).len()
                <= MAX_SEQUENCE_SET_LEN + 22,
{
    lemma_chunks_short(runs(uids));
    let (done, cur) = chunk_state(runs(uids));
    if cur.len() > 0 {
        assert forall|k: int| 0 <= k < done.push(cur).len() implies joined(
            #[trigger] done.push(cur)[k],
        ).len() <= MAX_SEQUENCE_SET_LEN + 22 by {
            if k < done.len() {
                assert(done.push(cur)[k] == done[k]);
            }
        }
    }
}

} // verus!
