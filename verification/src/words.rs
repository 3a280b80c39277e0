//! When two texts can change places: `u + v == v + u` holds exactly where
//! both are repetitions of one word.

use vstd::prelude::*;

verus! {

/// The word `w` written `n` times in a row.
pub open spec fn repeated(w: Seq<char>, n: nat) -> Seq<char>
    decreases n,
{
    if n == 0 {
        Seq::empty()
    } else {
        repeated(w, (n - 1) as nat) + w
    }
}

/// Both texts are repetitions of one word.
pub open spec fn share_a_period(u: Seq<char>, v: Seq<char>) -> bool {
    exists|w: Seq<char>, m: nat, n: nat| u == repeated(w, m) && v == repeated(w, n)
}

/// Writing a word `m` times and then `n` times writes it `m + n` times.
pub proof fn lemma_repeated_add(w: Seq<char>, m: nat, n: nat)
    ensures
        repeated(w, m) + repeated(w, n) == repeated(w, m + n),
    decreases n,
{
    if n == 0 {
        assert(repeated(w, m) + repeated(w, 0) =~= repeated(w, m));
    } else {
        lemma_repeated_add(w, m, (n - 1) as nat);
        assert(repeated(w, m) + (repeated(w, (n - 1) as nat) + w) =~= (repeated(w, m) + repeated(
            w,
            (n - 1) as nat,
        )) + w);
    }
}

/// Two texts that can change places are repetitions of one word. The
/// result names the word and the two counts.
pub proof fn lemma_commuting_texts(u: Seq<char>, v: Seq<char>) -> (r: (Seq<char>, nat, nat))
    requires
        u + v == v + u,
    ensures
        u == repeated(r.0, r.1),
        v == repeated(r.0, r.2),
    decreases u.len() + v.len(),
{
    if u.len() == 0 {
        assert(u =~= repeated(v, 0));
        assert(repeated(v, 1) =~= v) by {
            assert(repeated(v, 0) + v =~= v);
        }
        (v, 0, 1)
    } else if v.len() == 0 {
        assert(v =~= repeated(u, 0));
        assert(repeated(u, 1) =~= u) by {
            assert(repeated(u, 0) + u =~= u);
        }
        (u, 1, 0)
    } else if u.len() <= v.len() {
        let rest = v.skip(u.len() as int);
        assert(v =~= u + rest) by {
            assert forall|i: int| 0 <= i < u.len() implies v[i] == u[i] by {
                assert((u + v)[i] == u[i]);
                assert((v + u)[i] == v[i]);
            }
        }
        assert(u + rest =~= rest + u) by {
            assert(u + (u + rest) == (u + rest) + u);
            assert forall|i: int| 0 <= i < u.len() + rest.len() implies (u + rest)[i] == (rest
                + u)[i] by {
                assert((u + (u + rest))[i + u.len()] == (u + rest)[i]);
                assert(((u + rest) + u)[i + u.len()] == (rest + u)[i]);
            }
        }
        let (w, m, n) = lemma_commuting_texts(u, rest);
        lemma_repeated_add(w, m, n);
        (w, m, m + n)
    } else {
        let rest = u.skip(v.len() as int);
        assert(u =~= v + rest) by {
            assert forall|i: int| 0 <= i < v.len() implies u[i] == v[i] by {
                assert((u + v)[i] == u[i]);
                assert((v + u)[i] == v[i]);
            }
        }
        assert(rest + v =~= v + rest) by {
            assert((v + rest) + v == v + (v + rest));
            assert forall|i: int| 0 <= i < v.len() + rest.len() implies (rest + v)[i] == (v
                + rest)[i] by {
                assert(((v + rest) + v)[i + v.len()] == (rest + v)[i]);
                assert((v + (v + rest))[i + v.len()] == (v + rest)[i]);
            }
        }
        let (w, m, n) = lemma_commuting_texts(rest, v);
        lemma_repeated_add(w, n, m);
        (w, n + m, n)
    }
}

/// Two texts can change places exactly where both are repetitions of one
/// word.
pub proof fn lemma_commute_iff_share_a_period(u: Seq<char>, v: Seq<char>)
    ensures
        u + v == v + u <==> share_a_period(u, v),
{
    if u + v == v + u {
        let (w, m, n) = lemma_commuting_texts(u, v);
        assert(u == repeated(w, m) && v == repeated(w, n));
    }
    if share_a_period(u, v) {
        let (w, m, n) = choose|w: Seq<char>, m: nat, n: nat|
            u == repeated(w, m) && v == repeated(w, n);
        lemma_repeated_add(w, m, n);
        lemma_repeated_add(w, n, m);
    }
}

} // verus!
