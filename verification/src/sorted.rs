//! The order of texts, and lists of texts kept in that order without
//! repeats.

use vstd::prelude::*;
use crate::text::{chars_of, texts};

verus! {

/// Whether `a` comes before `b`: at the first place where they differ the
/// character of `a` has the smaller code, or `a` ends there and `b` goes
/// on.
pub open spec fn text_lt(a: Seq<char>, b: Seq<char>) -> bool
    decreases a.len(),
{
    if b.len() == 0 {
        false
    } else if a.len() == 0 {
        true
    } else if a[0] != b[0] {
        a[0] < b[0]
    } else {
        text_lt(a.drop_first(), b.drop_first())
    }
}

/// Every text comes before the texts after it.
pub open spec fn strictly_sorted(v: Seq<Seq<char>>) -> bool {
    forall|i: int, j: int| 0 <= i < j < v.len() ==> text_lt(#[trigger] v[i], #[trigger] v[j])
}

/// No text comes before itself.
pub proof fn lemma_lt_irreflexive(a: Seq<char>)
    ensures
        !text_lt(a, a),
    decreases a.len(),
{
    if a.len() > 0 {
        lemma_lt_irreflexive(a.drop_first());
    }
}

/// Of two different texts one comes before the other.
pub proof fn lemma_lt_total(a: Seq<char>, b: Seq<char>)
    ensures
        a == b || text_lt(a, b) || text_lt(b, a),
    decreases a.len(),
{
    if a.len() > 0 && b.len() > 0 && a[0] == b[0] {
        lemma_lt_total(a.drop_first(), b.drop_first());
        if a.drop_first() == b.drop_first() {
            assert(a =~= seq![a[0]] + a.drop_first());
            assert(b =~= seq![b[0]] + b.drop_first());
        }
    } else if a.len() == 0 && b.len() == 0 {
        assert(a =~= b);
    }
}

/// The order is transitive.
pub proof fn lemma_lt_transitive(a: Seq<char>, b: Seq<char>, c: Seq<char>)
    requires
        text_lt(a, b),
        text_lt(b, c),
    ensures
        text_lt(a, c),
    decreases a.len(),
{
    if a.len() > 0 && a[0] == b[0] && b[0] == c[0] {
        lemma_lt_transitive(a.drop_first(), b.drop_first(), c.drop_first());
    }
}

/// No two texts come before each other.
pub proof fn lemma_lt_asymmetric(a: Seq<char>, b: Seq<char>)
    requires
        text_lt(a, b),
    ensures
        !text_lt(b, a),
{
    if text_lt(b, a) {
        lemma_lt_transitive(a, b, a);
        lemma_lt_irreflexive(a);
    }
}

/// Two sorted lists without repeats that hold the same texts are the same
/// list.
pub proof fn lemma_sorted_unique(a: Seq<Seq<char>>, b: Seq<Seq<char>>)
    requires
        strictly_sorted(a),
        strictly_sorted(b),
        a.to_set() == b.to_set(),
    ensures
        a == b,
    decreases a.len(),
{
    if a.len() == 0 {
        if b.len() > 0 {
            assert(b.to_set().contains(b[0]));
            assert(a.to_set().contains(b[0]));
        }
        assert(a =~= b);
    } else if b.len() == 0 {
        assert(a.to_set().contains(a[0]));
        assert(b.to_set().contains(a[0]));
    } else {
        assert(a.to_set().contains(a[0]));
        assert(b.to_set().contains(b[0]));
        let i = choose|i: int| 0 <= i < b.len() && b[i] == a[0];
        let j = choose|j: int| 0 <= j < a.len() && a[j] == b[0];
        if i > 0 && j > 0 {
            assert(text_lt(b[0], b[i]));
            assert(text_lt(a[0], a[j]));
            lemma_lt_asymmetric(a[0], b[0]);
        }
        if i > 0 && j == 0 {
            assert(text_lt(b[0], b[i]));
            lemma_lt_irreflexive(a[0]);
        }
        if i == 0 && j > 0 {
            assert(text_lt(a[0], a[j]));
            lemma_lt_irreflexive(b[0]);
        }
        assert(a[0] == b[0]);
        let ta = a.drop_first();
        let tb = b.drop_first();
        assert(strictly_sorted(ta)) by {
            assert forall|x: int, y: int| 0 <= x < y < ta.len() implies text_lt(
                #[trigger] ta[x],
                #[trigger] ta[y],
            ) by {
                assert(text_lt(a[x + 1], a[y + 1]));
            }
        }
        assert(strictly_sorted(tb)) by {
            assert forall|x: int, y: int| 0 <= x < y < tb.len() implies text_lt(
                #[trigger] tb[x],
                #[trigger] tb[y],
            ) by {
                assert(text_lt(b[x + 1], b[y + 1]));
            }
        }
        assert(ta.to_set() =~= tb.to_set()) by {
            assert forall|t: Seq<char>| ta.to_set().contains(t) implies tb.to_set().contains(
                t,
            ) by {
                let x = choose|x: int| 0 <= x < ta.len() && ta[x] == t;
                assert(a[x + 1] == t);
                assert(text_lt(a[0], a[x + 1]));
                assert(a.to_set().contains(t));
                assert(b.to_set().contains(t));
                let y = choose|y: int| 0 <= y < b.len() && b[y] == t;
                if y == 0 {
                    lemma_lt_irreflexive(t);
                }
                assert(tb[y - 1] == t);
            }
            assert forall|t: Seq<char>| tb.to_set().contains(t) implies ta.to_set().contains(
                t,
            ) by {
                let x = choose|x: int| 0 <= x < tb.len() && tb[x] == t;
                assert(b[x + 1] == t);
                assert(text_lt(b[0], b[x + 1]));
                assert(b.to_set().contains(t));
                assert(a.to_set().contains(t));
                let y = choose|y: int| 0 <= y < a.len() && a[y] == t;
                if y == 0 {
                    lemma_lt_irreflexive(t);
                }
                assert(ta[y - 1] == t);
            }
        }
        lemma_sorted_unique(ta, tb);
        assert(a =~= seq![a[0]] + ta);
        assert(b =~= seq![b[0]] + tb);
    }
}

/// Whether `a` comes before `b`.
pub fn precedes(a: &str, b: &str) -> (r: bool)
    ensures
        r == text_lt(a@, b@),
{
    let x = chars_of(a);
    let y = chars_of(b);
    let mut i: usize = 0;
    assert(a@.skip(0) =~= a@);
    assert(b@.skip(0) =~= b@);
    loop
        invariant
            x@ == a@,
            y@ == b@,
            i <= x@.len(),
            i <= y@.len(),
            text_lt(a@, b@) == text_lt(a@.skip(i as int), b@.skip(i as int)),
        decreases x@.len() - i,
    {
        if i >= y.len() {
            return false;
        }
        if i >= x.len() {
            return true;
        }
        let p = x[i];
        let q = y[i];
        proof {
            assert(a@.skip(i as int)[0] == p);
            assert(b@.skip(i as int)[0] == q);
            assert(a@.skip(i as int).drop_first() =~= a@.skip(i + 1));
            assert(b@.skip(i as int).drop_first() =~= b@.skip(i + 1));
        }
        if p != q {
            return p < q;
        }
        i += 1;
    }
}

/// Puts `item` in its place in the sorted list `v`, unless the list holds
/// it already.
pub fn insert_sorted(v: &mut Vec<String>, item: String)
    requires
        strictly_sorted(texts(old(v)@)),
    ensures
        strictly_sorted(texts(final(v)@)),
        texts(final(v)@).to_set() == texts(old(v)@).to_set().insert(item@),
{
    let ghost before = texts(v@);
    let mut i: usize = 0;
    while i < v.len() && precedes(v[i].as_str(), item.as_str())
        invariant
            i <= v@.len(),
            v@ == old(v)@,
            before == texts(v@),
            forall|k: int| 0 <= k < i ==> text_lt(#[trigger] before[k], item@),
        decreases v@.len() - i,
    {
        i += 1;
    }
    if i < v.len() && crate::text::str_eq(v[i].as_str(), item.as_str()) {
        assert(before.to_set() =~= before.to_set().insert(item@)) by {
            assert(before[i as int] == item@);
        }
    } else {
        proof {
            if i < v@.len() {
                lemma_lt_total(before[i as int], item@);
            }
        }
        v.insert(i, item);
        proof {
            let after = texts(v@);
            assert(after =~= before.insert(i as int, item@));
            assert forall|x: int, y: int| 0 <= x < y < after.len() implies text_lt(
                #[trigger] after[x],
                #[trigger] after[y],
            ) by {
                if y < i {
                    assert(text_lt(before[x], before[y]));
                } else if y == i {
                    assert(text_lt(before[x], item@));
                } else if x == i {
                    if y - 1 > i {
                        assert(text_lt(before[i as int], before[y - 1]));
                        lemma_lt_transitive(item@, before[i as int], before[y - 1]);
                    }
                } else if x < i {
                    assert(text_lt(before[x], before[y - 1]));
                } else {
                    assert(text_lt(before[x - 1], before[y - 1]));
                }
            }
            assert(after.to_set() =~= before.to_set().insert(item@)) by {
                assert forall|t: Seq<char>| after.to_set().contains(t) implies before.to_set().insert(
                    item@,
                ).contains(t) by {
                    let x = choose|x: int| 0 <= x < after.len() && after[x] == t;
                    if x < i {
                        assert(before[x] == t);
                    } else if x > i {
                        assert(before[x - 1] == t);
                    }
                }
                assert forall|t: Seq<char>| before.to_set().insert(item@).contains(
                    t,
                ) implies after.to_set().contains(t) by {
                    if t == item@ {
                        assert(after[i as int] == t);
                    } else {
                        let x = choose|x: int| 0 <= x < before.len() && before[x] == t;
                        if x < i {
                            assert(after[x] == t);
                        } else {
                            assert(after[x + 1] == t);
                        }
                    }
                }
            }
        }
    }
}

} // verus!
