//! A small map from text to text that remembers the order in which its keys
//! first arrived.

use vstd::prelude::*;
use crate::text::str_eq;

verus! {

/// The map that a list of key and value pairs stands for: a later pair
/// overrides an earlier one with the same key.
pub open spec fn map_of(pairs: Seq<(Seq<char>, Seq<char>)>) -> Map<Seq<char>, Seq<char>>
    decreases pairs.len(),
{
    if pairs.len() == 0 {
        Map::empty()
    } else {
        map_of(pairs.drop_last()).insert(pairs.last().0, pairs.last().1)
    }
}

/// No key occurs twice among `pairs`.
pub open spec fn distinct_keys(pairs: Seq<(Seq<char>, Seq<char>)>) -> bool {
    forall|i: int, j: int| 0 <= i < j < pairs.len() ==> pairs[i].0 != pairs[j].0
}

/// A key of the map is the key of one of the pairs, and conversely.
pub proof fn lemma_map_of_keys(pairs: Seq<(Seq<char>, Seq<char>)>, key: Seq<char>)
    ensures
        map_of(pairs).contains_key(key) <==> exists|i: int|
            0 <= i < pairs.len() && #[trigger] pairs[i].0 == key,
    decreases pairs.len(),
{
    if pairs.len() > 0 {
        let front = pairs.drop_last();
        lemma_map_of_keys(front, key);
        if map_of(pairs).contains_key(key) {
            if pairs.last().0 == key {
                assert(pairs[pairs.len() - 1].0 == key);
            } else {
                let i = choose|i: int| 0 <= i < front.len() && #[trigger] front[i].0 == key;
                assert(pairs[i].0 == key);
            }
        }
        if exists|i: int| 0 <= i < pairs.len() && #[trigger] pairs[i].0 == key {
            let i = choose|i: int| 0 <= i < pairs.len() && #[trigger] pairs[i].0 == key;
            if i < pairs.len() - 1 {
                assert(front[i].0 == key);
            }
        }
    }
}

/// Where no key occurs twice, each pair's key maps to that pair's value.
pub proof fn lemma_map_of_value(pairs: Seq<(Seq<char>, Seq<char>)>, i: int)
    requires
        distinct_keys(pairs),
        0 <= i < pairs.len(),
    ensures
        map_of(pairs).contains_key(pairs[i].0),
        map_of(pairs)[pairs[i].0] == pairs[i].1,
    decreases pairs.len(),
{
    let front = pairs.drop_last();
    if i < pairs.len() - 1 {
        assert(distinct_keys(front)) by {
            assert forall|a: int, b: int| 0 <= a < b < front.len() implies front[a].0
                != front[b].0 by {
                assert(pairs[a].0 != pairs[b].0);
            }
        }
        lemma_map_of_value(front, i);
        assert(front[i] == pairs[i]);
        assert(pairs[i].0 != pairs[pairs.len() - 1].0);
    }
}

/// Replacing the value of the pair at `i` is an insertion under that pair's
/// key.
pub proof fn lemma_map_of_update(pairs: Seq<(Seq<char>, Seq<char>)>, i: int, value: Seq<char>)
    requires
        distinct_keys(pairs),
        0 <= i < pairs.len(),
    ensures
        map_of(pairs.update(i, (pairs[i].0, value))) == map_of(pairs).insert(pairs[i].0, value),
        distinct_keys(pairs.update(i, (pairs[i].0, value))),
    decreases pairs.len(),
{
    let key = pairs[i].0;
    let after = pairs.update(i, (key, value));
    let front = pairs.drop_last();
    if i == pairs.len() - 1 {
        assert(after.drop_last() == front);
        assert(map_of(after) == map_of(pairs).insert(key, value));
    } else {
        assert(distinct_keys(front)) by {
            assert forall|a: int, b: int| 0 <= a < b < front.len() implies front[a].0
                != front[b].0 by {
                assert(pairs[a].0 != pairs[b].0);
            }
        }
        lemma_map_of_update(front, i, value);
        assert(front[i] == pairs[i]);
        assert(after.drop_last() == front.update(i, (key, value)));
        assert(after.last() == pairs.last());
        assert(pairs[i].0 != pairs[pairs.len() - 1].0);
        assert(map_of(after) == map_of(pairs).insert(key, value));
    }
    assert forall|a: int, b: int| 0 <= a < b < after.len() implies after[a].0 != after[b].0 by {
        assert(pairs[a].0 != pairs[b].0);
    }
}

/// The keys and values of stored entries, as texts.
pub open spec fn pairs_of(entries: Seq<(String, String)>) -> Seq<(Seq<char>, Seq<char>)> {
    entries.map_values(|e: (String, String)| (e.0@, e.1@))
}

/// A map from text to text. Its entries keep the order in which their keys
/// were first inserted.
#[derive(Debug, PartialEq, Eq)]
pub struct StringMap {
    entries: Vec<(String, String)>,
}

impl View for StringMap {
    type V = Map<Seq<char>, Seq<char>>;

    open spec fn view(&self) -> Map<Seq<char>, Seq<char>> {
        map_of(self.pairs())
    }
}

impl Clone for StringMap {
    fn clone(&self) -> (r: StringMap)
        ensures
            r.pairs() == self.pairs(),
            r@ == self@,
    {
        proof {
            use_type_invariant(self);
        }
        let mut entries: Vec<(String, String)> = Vec::new();
        let mut i: usize = 0;
        while i < self.entries.len()
            invariant
                i <= self.entries@.len(),
                pairs_of(entries@) == self.pairs().take(i as int),
            decreases self.entries@.len() - i,
        {
            let k = self.entries[i].0.clone();
            let v = self.entries[i].1.clone();
            entries.push((k, v));
            i += 1;
            assert(pairs_of(entries@) =~= self.pairs().take(i as int)) by {
                assert(pairs_of(entries@).drop_last() =~= self.pairs().take(i - 1));
            }
        }
        assert(self.pairs().take(self.entries@.len() as int) =~= self.pairs());
        StringMap { entries }
    }
}

impl StringMap {
    /// The entries in order, each as its key and its value.
    pub closed spec fn pairs(&self) -> Seq<(Seq<char>, Seq<char>)> {
        pairs_of(self.entries@)
    }

    /// No key occurs twice among the entries.
    #[verifier::type_invariant]
    pub open spec fn well_formed(&self) -> bool {
        distinct_keys(self.pairs())
    }

    /// The empty map.
    pub fn new() -> (m: Self)
        ensures
            m@ == Map::<Seq<char>, Seq<char>>::empty(),
            m.pairs() == Seq::<(Seq<char>, Seq<char>)>::empty(),
    {
        let m = StringMap { entries: Vec::new() };
        assert(m.pairs() =~= Seq::empty());
        m
    }

    /// The number of entries.
    pub fn len(&self) -> (n: usize)
        ensures
            n == self.pairs().len(),
    {
        self.entries.len()
    }

    /// The key of the entry at `i`.
    pub fn key_at(&self, i: usize) -> (k: &String)
        requires
            i < self.pairs().len(),
        ensures
            k@ == self.pairs()[i as int].0,
    {
        &self.entries[i].0
    }

    /// The value of the entry at `i`.
    pub fn value_at(&self, i: usize) -> (v: &String)
        requires
            i < self.pairs().len(),
        ensures
            v@ == self.pairs()[i as int].1,
    {
        &self.entries[i].1
    }

    /// The position of the entry with the given key.
    fn position(&self, key: &str) -> (r: Option<usize>)
        ensures
            match r {
                Some(i) => i < self.pairs().len() && self.pairs()[i as int].0 == key@,
                None => forall|j: int| 0 <= j < self.pairs().len() ==> self.pairs()[j].0 != key@,
            },
    {
        let mut i: usize = 0;
        while i < self.entries.len()
            invariant
                i <= self.entries@.len(),
                forall|j: int| 0 <= j < i ==> self.pairs()[j].0 != key@,
            decreases self.entries@.len() - i,
        {
            if str_eq(self.entries[i].0.as_str(), key) {
                return Some(i);
            }
            i += 1;
        }
        None
    }

    /// The value stored under `key`, if there is one.
    pub fn get(&self, key: &str) -> (r: Option<&String>)
        ensures
            match r {
                Some(v) => self@.contains_key(key@) && self@[key@] == v@,
                None => !self@.contains_key(key@),
            },
    {
        proof {
            use_type_invariant(self);
            lemma_map_of_keys(self.pairs(), key@);
        }
        match self.position(key) {
            Some(i) => {
                proof {
                    lemma_map_of_value(self.pairs(), i as int);
                }
                Some(&self.entries[i].1)
            },
            None => None,
        }
    }

    /// Stores `value` under `key`, replacing what was stored there.
    pub fn insert(&mut self, key: String, value: String)
        ensures
            final(self)@ == old(self)@.insert(key@, value@),
    {
        proof {
            use_type_invariant(&*self);
        }
        let ghost before = self.pairs();
        let found = self.position(key.as_str());
        let mut taken = StringMap::new();
        std::mem::swap(self, &mut taken);
        let mut entries = taken.entries;
        match found {
            Some(i) => {
                proof {
                    lemma_map_of_update(before, i as int, value@);
                }
                entries.set(i, (key, value));
            },
            None => {
                entries.push((key, value));
            },
        }
        let ghost after = pairs_of(entries@);
        proof {
            match found {
                Some(i) => {
                    assert(after =~= before.update(i as int, (before[i as int].0, value@)));
                },
                None => {
                    assert(after =~= before.push((key@, value@)));
                    assert(after.drop_last() =~= before);
                    assert forall|a: int, b: int| 0 <= a < b < after.len() implies after[a].0
                        != after[b].0 by {
                        if b < before.len() {
                            assert(before[a].0 != before[b].0);
                        }
                    }
                },
            }
        }
        *self = StringMap { entries };
    }

    /// Stores every entry of `other`, in its order; on a key that both hold,
    /// the value of `other` wins.
    pub fn extend(&mut self, other: &StringMap)
        ensures
            final(self)@ == old(self)@.union_prefer_right(other@),
    {
        let mut i: usize = 0;
        proof {
            use_type_invariant(other);
            assert(other.pairs().take(0) =~= Seq::empty());
            assert(self@ =~= self@.union_prefer_right(map_of(other.pairs().take(0))));
        }
        while i < other.len()
            invariant
                i <= other.pairs().len(),
                self@ == old(self)@.union_prefer_right(map_of(other.pairs().take(i as int))),
            decreases other.pairs().len() - i,
        {
            let k = other.key_at(i).clone();
            let v = other.value_at(i).clone();
            self.insert(k, v);
            proof {
                let taken = other.pairs().take(i + 1);
                assert(taken.drop_last() =~= other.pairs().take(i as int));
                assert(taken.last() == other.pairs()[i as int]);
                assert(self@ =~= old(self)@.union_prefer_right(map_of(taken)));
            }
            i += 1;
        }
        assert(other.pairs().take(other.pairs().len() as int) =~= other.pairs());
    }
}

} // verus!
