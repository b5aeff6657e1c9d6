//! Lexicographic order on strings, and sorting of symbol lists by it.
//!
//! `str` compares by the bytes of its UTF-8 encoding, and UTF-8 keeps the
//! order of code points, so comparing character by character gives the
//! same order.

use vstd::prelude::*;
use vstd::relations::{sorted_by, total_ordering};
use vstd::seq_lib::{lemma_sorted_unique, to_multiset_build, to_multiset_insert};
use crate::text::chars_of;

verus! {

broadcast use vstd::string::group_string_axioms;

/// `a` sorts strictly before `b`.
pub open spec fn lex_lt(a: Seq<char>, b: Seq<char>) -> bool
    decreases a.len(),
{
    if a.len() == 0 {
        b.len() > 0
    } else if b.len() == 0 {
        false
    } else if a[0] != b[0] {
        a[0] < b[0]
    } else {
        lex_lt(a.drop_first(), b.drop_first())
    }
}

/// `a` sorts before `b` or equals it.
pub open spec fn lex_le(a: Seq<char>, b: Seq<char>) -> bool {
    a == b || lex_lt(a, b)
}

/// Every entry sorts before or equals every later one.
pub open spec fn ascending(s: Seq<Seq<char>>) -> bool {
    forall|i: int, j: int| 0 <= i < j < s.len() ==> lex_le(#[trigger] s[i], #[trigger] s[j])
}

/// Every entry sorts strictly before every later one.
pub open spec fn strictly_ascending(s: Seq<Seq<char>>) -> bool {
    forall|i: int, j: int| 0 <= i < j < s.len() ==> lex_lt(#[trigger] s[i], #[trigger] s[j])
}

pub proof fn lemma_lex_asymmetric(a: Seq<char>, b: Seq<char>)
    ensures
        lex_lt(a, b) ==> !lex_lt(b, a),
    decreases a.len(),
{
    if a.len() > 0 && b.len() > 0 && a[0] == b[0] {
        lemma_lex_asymmetric(a.drop_first(), b.drop_first());
    }
}

pub proof fn lemma_lex_connected(a: Seq<char>, b: Seq<char>)
    ensures
        a == b || lex_lt(a, b) || lex_lt(b, a),
    decreases a.len(),
{
    if a.len() == 0 && b.len() == 0 {
        assert(a =~= b);
    } else if a.len() > 0 && b.len() > 0 && a[0] == b[0] {
        lemma_lex_connected(a.drop_first(), b.drop_first());
        if a.drop_first() == b.drop_first() {
            assert(a =~= seq![a[0]] + a.drop_first());
            assert(b =~= seq![b[0]] + b.drop_first());
        }
    }
}

pub proof fn lemma_lex_transitive(a: Seq<char>, b: Seq<char>, c: Seq<char>)
    requires
        lex_lt(a, b),
        lex_lt(b, c),
    ensures
        lex_lt(a, c),
    decreases a.len(),
{
    if a.len() > 0 && a[0] == b[0] && b[0] == c[0] {
        lemma_lex_transitive(a.drop_first(), b.drop_first(), c.drop_first());
    }
}

/// `lex_le` is a total order.
pub proof fn lemma_lex_le_total_ordering()
    ensures
        total_ordering(|a: Seq<char>, b: Seq<char>| lex_le(a, b)),
{
    let leq = |a: Seq<char>, b: Seq<char>| lex_le(a, b);
    assert forall|a: Seq<char>, b: Seq<char>| #[trigger] leq(a, b) && #[trigger] leq(b, a) implies a
        == b by {
        lemma_lex_asymmetric(a, b);
    }
    assert forall|a: Seq<char>, b: Seq<char>, c: Seq<char>| #[trigger] leq(a, b) && #[trigger] leq(
        b,
        c,
    ) implies leq(a, c) by {
        if a != b && b != c {
            lemma_lex_transitive(a, b, c);
        }
    }
    assert forall|a: Seq<char>, b: Seq<char>| #[trigger] leq(a, b) || #[trigger] leq(b, a) by {
        lemma_lex_connected(a, b);
    }
}

/// Whether `a` sorts strictly before `b`.
pub fn lex_less(a: &Vec<char>, b: &Vec<char>) -> (r: bool)
    ensures
        r == lex_lt(a@, b@),
{
    let mut i: usize = 0;
    assert(a@.skip(0) =~= a@);
    assert(b@.skip(0) =~= b@);
    while i < a.len() && i < b.len()
        invariant
            i <= a.len(),
            i <= b.len(),
            lex_lt(a@, b@) == lex_lt(a@.skip(i as int), b@.skip(i as int)),
        decreases a.len() - i,
    {
        assert(a@.skip(i as int)[0] == a@[i as int]);
        assert(b@.skip(i as int)[0] == b@[i as int]);
        if a[i] != b[i] {
            return a[i] < b[i];
        }
        assert(a@.skip(i as int).drop_first() =~= a@.skip(i + 1));
        assert(b@.skip(i as int).drop_first() =~= b@.skip(i + 1));
        i += 1;
    }
    i < b.len()
}

/// Where `x` goes in an ascending list: after every entry it does not sort
/// before, and before the first one it does.
fn insertion_point(out: &Vec<String>, x: &Vec<char>) -> (p: usize)
    ensures
        p <= out.len(),
        forall|k: int| 0 <= k < p ==> !lex_lt(x@, #[trigger] out.deep_view()[k]),
        p < out.len() ==> lex_lt(x@, out.deep_view()[p as int]),
{
    let mut p: usize = 0;
    while p < out.len()
        invariant
            p <= out.len(),
            forall|k: int| 0 <= k < p ==> !lex_lt(x@, #[trigger] out.deep_view()[k]),
        decreases out.len() - p,
    {
        let entry = chars_of(out[p].as_str());
        assert(out.deep_view()[p as int] == out@[p as int]@);
        if lex_less(x, &entry) {
            return p;
        }
        p += 1;
    }
    p
}

proof fn lemma_insert_keeps_ascending(s: Seq<Seq<char>>, p: int, x: Seq<char>)
    requires
        ascending(s),
        0 <= p <= s.len(),
        forall|k: int| 0 <= k < p ==> !lex_lt(x, #[trigger] s[k]),
        p < s.len() ==> lex_lt(x, s[p]),
    ensures
        ascending(s.insert(p, x)),
{
    let t = s.insert(p, x);
    assert forall|i: int, j: int| 0 <= i < j < t.len() implies lex_le(#[trigger] t[i], #[trigger] t[j]) by {
        if j < p {
            assert(t[i] == s[i] && t[j] == s[j]);
        } else if j == p {
            assert(t[i] == s[i]);
            lemma_lex_connected(x, s[i]);
        } else if i == p {
            assert(t[j] == s[j - 1]);
            if s[p] != s[j - 1] {
                assert(lex_le(s[p], s[j - 1]));
                lemma_lex_transitive(x, s[p], s[j - 1]);
            }
        } else if i < p {
            assert(t[i] == s[i] && t[j] == s[j - 1]);
        } else {
            assert(t[i] == s[i - 1] && t[j] == s[j - 1]);
        }
    }
}

/// The entries of `s` in ascending order (there is one such list: see
/// `ascending_lists_agree`).
pub open spec fn sorted_seq(s: Seq<Seq<char>>) -> Seq<Seq<char>> {
    choose|t: Seq<Seq<char>>| ascending(t) && t.to_multiset() == s.to_multiset()
}

/// The strings of `v` in ascending order, as `sort` leaves them.
pub fn sort_strings(v: &Vec<String>) -> (r: Vec<String>)
    ensures
        r.deep_view() == sorted_seq(v.deep_view()),
        ascending(r.deep_view()),
        r.deep_view().to_multiset() == v.deep_view().to_multiset(),
{
    let mut out: Vec<String> = Vec::new();
    let mut i: usize = 0;
    assert(out.deep_view() =~= v.deep_view().take(0));
    while i < v.len()
        invariant
            i <= v.len(),
            ascending(out.deep_view()),
            out.deep_view().to_multiset() == v.deep_view().take(i as int).to_multiset(),
        decreases v.len() - i,
    {
        let s = v[i].clone();
        let chars = chars_of(s.as_str());
        let p = insertion_point(&out, &chars);
        let ghost before = out.deep_view();
        out.insert(p, s);
        proof {
            assert(out.deep_view() =~= before.insert(p as int, chars@));
            lemma_insert_keeps_ascending(before, p as int, chars@);
            to_multiset_insert(before, p as int, chars@);
            assert(v.deep_view()[i as int] == chars@);
            assert(v.deep_view().take(i + 1) =~= v.deep_view().take(i as int).push(chars@));
            to_multiset_build(v.deep_view().take(i as int), chars@);
        }
        i += 1;
    }
    assert(v.deep_view().take(v.len() as int) =~= v.deep_view());
    proof {
        let t = out.deep_view();
        assert(ascending(t) && t.to_multiset() == v.deep_view().to_multiset());
        let c = sorted_seq(v.deep_view());
        ascending_lists_agree(t, c);
    }
    out
}

/// Two ascending lists with the same entries, counted with repeats, are
/// the same list: sorting leaves nothing to choose.
pub proof fn ascending_lists_agree(x: Seq<Seq<char>>, y: Seq<Seq<char>>)
    requires
        ascending(x),
        ascending(y),
        x.to_multiset() == y.to_multiset(),
    ensures
        x == y,
{
    let leq = |a: Seq<char>, b: Seq<char>| lex_le(a, b);
    lemma_lex_le_total_ordering();
    assert(sorted_by(x, leq));
    assert(sorted_by(y, leq));
    lemma_sorted_unique(x, y, leq);
}

/// `v` with each run of equal neighbours reduced to one entry, as `dedup`
/// leaves it.
pub open spec fn deduped(s: Seq<Seq<char>>) -> Seq<Seq<char>>
    decreases s.len(),
{
    if s.len() == 0 {
        s
    } else {
        let kept = deduped(s.drop_last());
        if s.len() > 1 && s[s.len() - 2] == s.last() {
            kept
        } else {
            kept.push(s.last())
        }
    }
}

/// Drops every entry equal to the one before it.
pub fn dedup_strings(v: &Vec<String>) -> (r: Vec<String>)
    ensures
        r.deep_view() == deduped(v.deep_view()),
{
    let mut out: Vec<String> = Vec::new();
    let mut i: usize = 0;
    while i < v.len()
        invariant
            i <= v.len(),
            out.deep_view() == deduped(v.deep_view().take(i as int)),
        decreases v.len() - i,
    {
        let ghost prefix = v.deep_view().take(i + 1);
        assert(prefix.drop_last() =~= v.deep_view().take(i as int));
        assert(prefix.last() == v@[i as int]@);
        if i > 0 && v[i - 1] == v[i] {
            assert(prefix[prefix.len() - 2] == v@[i - 1]@);
        } else {
            if i > 0 {
                assert(prefix[prefix.len() - 2] == v@[i - 1]@);
            }
            let s = v[i].clone();
            out.push(s);
            assert(out.deep_view() =~= deduped(v.deep_view().take(i as int)).push(v@[i as int]@));
        }
        i += 1;
    }
    assert(v.deep_view().take(v.len() as int) =~= v.deep_view());
    out
}

proof fn lemma_deduped_from(s: Seq<Seq<char>>, k: int)
    requires
        0 <= k < deduped(s).len(),
    ensures
        s.contains(deduped(s)[k]),
    decreases s.len(),
{
    let rest = deduped(s.drop_last());
    if k < rest.len() {
        lemma_deduped_from(s.drop_last(), k);
        let m = choose|m: int| 0 <= m < s.drop_last().len() && s.drop_last()[m] == rest[k];
        assert(s[m] == rest[k]);
    } else {
        assert(s[s.len() - 1] == deduped(s)[k]);
    }
}

/// Reducing runs of an ascending list leaves a strictly ascending list
/// with the same entries: sorted-then-deduplicated symbols hold no repeats
/// and lose none.
pub proof fn dedup_of_ascending_is_strict(s: Seq<Seq<char>>)
    requires
        ascending(s),
    ensures
        strictly_ascending(deduped(s)),
        deduped(s).to_set() == s.to_set(),
    decreases s.len(),
{
    if s.len() > 0 {
        let init = s.drop_last();
        let last = s.last();
        assert(ascending(init));
        dedup_of_ascending_is_strict(init);
        let rest = deduped(init);
        if s.len() > 1 && s[s.len() - 2] == last {
            assert(init.contains(last));
            assert(s.to_set() =~= init.to_set()) by {
                assert forall|x: Seq<char>| s.to_set().contains(x) implies init.to_set().contains(x) by {
                    let m = choose|m: int| 0 <= m < s.len() && s[m] == x;
                    if m == s.len() - 1 {
                        assert(init[s.len() - 2] == x);
                    } else {
                        assert(init[m] == x);
                    }
                }
                assert forall|x: Seq<char>| init.to_set().contains(x) implies s.to_set().contains(x) by {
                    let m = choose|m: int| 0 <= m < init.len() && init[m] == x;
                    assert(s[m] == x);
                }
            }
        } else {
            let d = rest.push(last);
            assert forall|i: int, j: int| 0 <= i < j < d.len() implies lex_lt(#[trigger] d[i], #[trigger] d[j]) by {
                if j == d.len() - 1 {
                    lemma_deduped_from(init, i);
                    let m = choose|m: int| 0 <= m < init.len() && init[m] == rest[i];
                    let p = s.len() - 2;
                    assert(lex_le(s[m], s[p]) || m == p);
                    assert(lex_le(s[p], last));
                    assert(s[p] != last);
                    if s[m] != s[p] {
                        lemma_lex_transitive(s[m], s[p], last);
                    }
                } else {
                    assert(d[i] == rest[i] && d[j] == rest[j]);
                }
            }
            assert(s.to_set() =~= init.to_set().insert(last)) by {
                assert forall|x: Seq<char>| s.to_set().contains(x) implies init.to_set().insert(last).contains(x) by {
                    let m = choose|m: int| 0 <= m < s.len() && s[m] == x;
                    if m < s.len() - 1 {
                        assert(init[m] == x);
                    }
                }
                assert forall|x: Seq<char>| init.to_set().insert(last).contains(x) implies s.to_set().contains(x) by {
                    if x != last {
                        let m = choose|m: int| 0 <= m < init.len() && init[m] == x;
                        assert(s[m] == x);
                    } else {
                        assert(s[s.len() - 1] == x);
                    }
                }
            }
            assert(d.to_set() =~= rest.to_set().insert(last)) by {
                assert forall|x: Seq<char>| d.to_set().contains(x) implies rest.to_set().insert(last).contains(x) by {
                    let m = choose|m: int| 0 <= m < d.len() && d[m] == x;
                    if m < rest.len() {
                        assert(rest[m] == x);
                    }
                }
                assert forall|x: Seq<char>| rest.to_set().insert(last).contains(x) implies d.to_set().contains(x) by {
                    if x != last {
                        let m = choose|m: int| 0 <= m < rest.len() && rest[m] == x;
                        assert(d[m] == x);
                    } else {
                        assert(d[d.len() - 1] == x);
                    }
                }
            }
        }
    } else {
        assert(deduped(s) == s);
    }
}

} // verus!
