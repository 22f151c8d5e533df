//! A small string-keyed dictionary.
//!
//! The channel directory, the registry's two tables, stream metadata and
//! the monitor's aggregate all map names to values. This dictionary backs
//! them with a vector of pairs whose keys are pairwise distinct, and its
//! contracts speak of the corresponding mathematical `Map` from key
//! characters to values.

use vstd::prelude::*;
use vstd::pervasive::VecAdditionalExecFns;

verus! {

/// The keys of the pair sequence are pairwise distinct.
pub open spec fn keys_unique<V>(s: Seq<(String, V)>) -> bool {
    forall|i: int, j: int|
        0 <= i < j < s.len() ==> (#[trigger] s[i]).0@ != (#[trigger] s[j]).0@
}

/// The map a pair sequence stands for; with distinct keys the order of the
/// pairs does not matter.
pub open spec fn assoc_map<V>(s: Seq<(String, V)>) -> Map<Seq<char>, V>
    decreases s.len(),
{
    if s.len() == 0 {
        Map::empty()
    } else {
        assoc_map(s.drop_last()).insert(s.last().0@, s.last().1)
    }
}

/// Dropping the last pair keeps the keys distinct.
proof fn lemma_keys_unique_drop_last<V>(s: Seq<(String, V)>)
    requires
        keys_unique(s),
        s.len() > 0,
    ensures
        keys_unique(s.drop_last()),
{
    assert forall|i: int, j: int|
        0 <= i < j < s.drop_last().len() implies (#[trigger] s.drop_last()[i]).0@ != (
    #[trigger] s.drop_last()[j]).0@ by {
        assert(s.drop_last()[i] == s[i]);
        assert(s.drop_last()[j] == s[j]);
    }
}

/// A pair of the sequence is in the map, with its value.
pub proof fn lemma_assoc_map_index<V>(s: Seq<(String, V)>, i: int)
    requires
        keys_unique(s),
        0 <= i < s.len(),
    ensures
        assoc_map(s).contains_key(s[i].0@),
        assoc_map(s)[s[i].0@] == s[i].1,
    decreases s.len(),
{
    if i < s.len() - 1 {
        lemma_keys_unique_drop_last(s);
        lemma_assoc_map_index(s.drop_last(), i);
        assert(s.drop_last()[i] == s[i]);
        assert(s[i].0@ != s.last().0@);
    }
}

/// A key under none of the pairs is not in the map.
pub proof fn lemma_assoc_map_absent<V>(s: Seq<(String, V)>, k: Seq<char>)
    requires
        forall|i: int| 0 <= i < s.len() ==> (#[trigger] s[i]).0@ != k,
    ensures
        !assoc_map(s).contains_key(k),
    decreases s.len(),
{
    if s.len() > 0 {
        assert forall|i: int| 0 <= i < s.drop_last().len() implies (#[trigger] s.drop_last()[i]).0@
            != k by {
            assert(s.drop_last()[i] == s[i]);
        }
        lemma_assoc_map_absent(s.drop_last(), k);
        assert(s.last() == s[s.len() - 1]);
    }
}

/// Appending a pair inserts its key.
pub proof fn lemma_assoc_map_push<V>(s: Seq<(String, V)>, k: String, v: V)
    ensures
        assoc_map(s.push((k, v))) == assoc_map(s).insert(k@, v),
{
    assert(s.push((k, v)).drop_last() =~= s);
    assert(s.push((k, v)).last() == (k, v));
}

/// Replacing the value under a present key inserts over it.
pub proof fn lemma_assoc_map_update<V>(s: Seq<(String, V)>, i: int, k: String, v: V)
    requires
        keys_unique(s),
        0 <= i < s.len(),
        k@ == s[i].0@,
    ensures
        assoc_map(s.update(i, (k, v))) == assoc_map(s).insert(k@, v),
        keys_unique(s.update(i, (k, v))),
    decreases s.len(),
{
    let s2 = s.update(i, (k, v));
    assert forall|a: int, b: int| 0 <= a < b < s2.len() implies (#[trigger] s2[a]).0@ != (
    #[trigger] s2[b]).0@ by {
        assert(s[a].0@ != s[b].0@);
    }
    if i == s.len() - 1 {
        assert(s2.drop_last() =~= s.drop_last());
        assert(s2.last() == (k, v));
        assert(assoc_map(s) == assoc_map(s.drop_last()).insert(s[i].0@, s[i].1));
        assert(assoc_map(s.drop_last()).insert(k@, v) =~= assoc_map(s.drop_last()).insert(
            s[i].0@,
            s[i].1,
        ).insert(k@, v));
    } else {
        lemma_keys_unique_drop_last(s);
        assert(s2.drop_last() =~= s.drop_last().update(i, (k, v)));
        assert(s.drop_last()[i] == s[i]);
        lemma_assoc_map_update(s.drop_last(), i, k, v);
        assert(s2.last() == s.last());
        assert(k@ != s.last().0@);
        assert(assoc_map(s2) == assoc_map(s.drop_last()).insert(k@, v).insert(
            s.last().0@,
            s.last().1,
        ));
        assert(assoc_map(s.drop_last()).insert(k@, v).insert(s.last().0@, s.last().1)
            =~= assoc_map(s.drop_last()).insert(s.last().0@, s.last().1).insert(k@, v));
    }
}

/// Removing a pair removes its key.
pub proof fn lemma_assoc_map_remove<V>(s: Seq<(String, V)>, i: int)
    requires
        keys_unique(s),
        0 <= i < s.len(),
    ensures
        assoc_map(s.remove(i)) == assoc_map(s).remove(s[i].0@),
        keys_unique(s.remove(i)),
    decreases s.len(),
{
    let s2 = s.remove(i);
    assert forall|a: int, b: int| 0 <= a < b < s2.len() implies (#[trigger] s2[a]).0@ != (
    #[trigger] s2[b]).0@ by {
        let a0 = if a < i {
            a
        } else {
            a + 1
        };
        let b0 = if b < i {
            b
        } else {
            b + 1
        };
        assert(s2[a] == s[a0]);
        assert(s2[b] == s[b0]);
        assert(s[a0].0@ != s[b0].0@);
    }
    if i == s.len() - 1 {
        assert(s2 =~= s.drop_last());
        lemma_keys_unique_drop_last(s);
        assert forall|j: int| 0 <= j < s.drop_last().len() implies (#[trigger] s.drop_last()[j]).0@
            != s[i].0@ by {
            assert(s.drop_last()[j] == s[j]);
        }
        lemma_assoc_map_absent(s.drop_last(), s[i].0@);
        assert(assoc_map(s) == assoc_map(s.drop_last()).insert(s[i].0@, s[i].1));
        assert(assoc_map(s.drop_last()).insert(s[i].0@, s[i].1).remove(s[i].0@) =~= assoc_map(
            s.drop_last(),
        ));
    } else {
        lemma_keys_unique_drop_last(s);
        assert(s2.drop_last() =~= s.drop_last().remove(i));
        assert(s.drop_last()[i] == s[i]);
        lemma_assoc_map_remove(s.drop_last(), i);
        assert(s2.last() == s.last());
        assert(s[i].0@ != s.last().0@);
        assert(assoc_map(s2) == assoc_map(s.drop_last()).remove(s[i].0@).insert(
            s.last().0@,
            s.last().1,
        ));
        assert(assoc_map(s.drop_last()).remove(s[i].0@).insert(s.last().0@, s.last().1)
            =~= assoc_map(s.drop_last()).insert(s.last().0@, s.last().1).remove(s[i].0@));
    }
}

/// With distinct keys the map has one entry per pair.
pub proof fn lemma_assoc_map_len<V>(s: Seq<(String, V)>)
    requires
        keys_unique(s),
    ensures
        assoc_map(s).dom().finite(),
        assoc_map(s).len() == s.len(),
    decreases s.len(),
{
    if s.len() > 0 {
        lemma_keys_unique_drop_last(s);
        lemma_assoc_map_len(s.drop_last());
        assert forall|j: int| 0 <= j < s.drop_last().len() implies (#[trigger] s.drop_last()[j]).0@
            != s.last().0@ by {
            assert(s.drop_last()[j] == s[j]);
            assert(s.last() == s[s.len() - 1]);
        }
        lemma_assoc_map_absent(s.drop_last(), s.last().0@);
    }
}

/// A vector of key-value pairs with pairwise distinct keys, read as a map.
#[derive(Debug)]
pub struct Dict<V> {
    pairs: Vec<(String, V)>,
}

impl<V> Dict<V> {
    /// The map this dictionary holds.
    pub closed spec fn view(&self) -> Map<Seq<char>, V> {
        assoc_map(self.pairs@)
    }

    /// The keys are pairwise distinct. Construction and every operation
    /// keep this.
    pub closed spec fn wf(&self) -> bool {
        keys_unique(self.pairs@)
    }

    /// The pairs in insertion order, for walking the dictionary.
    pub closed spec fn pairs_view(&self) -> Seq<(String, V)> {
        self.pairs@
    }

    /// The empty dictionary.
    pub fn new() -> (r: Self)
        ensures
            r.wf(),
            r@ == Map::<Seq<char>, V>::empty(),
            r.pairs_view().len() == 0,
    {
        Dict { pairs: Vec::new() }
    }

    /// Index of the pair holding a key, if any.
    fn find(&self, k: &String) -> (r: Option<usize>)
        ensures
            match r {
                Some(i) => i < self.pairs@.len() && self.pairs@[i as int].0@ == k@,
                None => forall|i: int|
                    0 <= i < self.pairs@.len() ==> (#[trigger] self.pairs@[i]).0@ != k@,
            },
    {
        let mut i: usize = 0;
        while i < self.pairs.len()
            invariant
                i <= self.pairs@.len(),
                forall|j: int| 0 <= j < i ==> (#[trigger] self.pairs@[j]).0@ != k@,
            decreases self.pairs@.len() - i,
        {
            if self.pairs[i].0 == *k {
                return Some(i);
            }
            i = i + 1;
        }
        None
    }

    /// Whether a key is present.
    pub fn contains_key(&self, k: &String) -> (r: bool)
        requires
            self.wf(),
        ensures
            r == self@.contains_key(k@),
    {
        match self.find(k) {
            Some(i) => {
                proof {
                    lemma_assoc_map_index(self.pairs@, i as int);
                }
                true
            },
            None => {
                proof {
                    lemma_assoc_map_absent(self.pairs@, k@);
                }
                false
            },
        }
    }

    /// The value under a key, if the key is present.
    pub fn get(&self, k: &String) -> (r: Option<&V>)
        requires
            self.wf(),
        ensures
            match r {
                Some(v) => self@.contains_key(k@) && self@[k@] == *v,
                None => !self@.contains_key(k@),
            },
    {
        match self.find(k) {
            Some(i) => {
                proof {
                    lemma_assoc_map_index(self.pairs@, i as int);
                }
                Some(&self.pairs[i].1)
            },
            None => {
                proof {
                    lemma_assoc_map_absent(self.pairs@, k@);
                }
                None
            },
        }
    }

    /// Bind a key to a value, replacing any previous binding.
    pub fn insert(&mut self, k: String, v: V)
        requires
            old(self).wf(),
        ensures
            final(self).wf(),
            final(self)@ == old(self)@.insert(k@, v),
    {
        match self.find(&k) {
            Some(i) => {
                proof {
                    lemma_assoc_map_update(self.pairs@, i as int, k, v);
                }
                self.pairs.set(i, (k, v));
            },
            None => {
                proof {
                    lemma_assoc_map_push(self.pairs@, k, v);
                    let s2 = self.pairs@.push((k, v));
                    assert forall|a: int, b: int| 0 <= a < b < s2.len() implies (
                    #[trigger] s2[a]).0@ != (#[trigger] s2[b]).0@ by {
                        if b < s2.len() - 1 {
                            assert(s2[a] == self.pairs@[a]);
                            assert(s2[b] == self.pairs@[b]);
                        } else {
                            assert(s2[a] == self.pairs@[a]);
                            assert(s2[b] == (k, v));
                        }
                    }
                }
                self.pairs.push((k, v));
            },
        }
    }

    /// Drop the binding of a key; doing so again changes nothing.
    pub fn remove(&mut self, k: &String)
        requires
            old(self).wf(),
        ensures
            final(self).wf(),
            final(self)@ == old(self)@.remove(k@),
    {
        match self.find(k) {
            Some(i) => {
                proof {
                    lemma_assoc_map_remove(self.pairs@, i as int);
                }
                self.pairs.remove(i);
            },
            None => {
                proof {
                    lemma_assoc_map_absent(self.pairs@, k@);
                    assert(self@.remove(k@) =~= self@);
                }
            },
        }
    }

    /// How many keys are bound.
    pub fn len(&self) -> (n: usize)
        requires
            self.wf(),
        ensures
            n == self@.len(),
            n == self.pairs_view().len(),
    {
        proof {
            lemma_assoc_map_len(self.pairs@);
        }
        self.pairs.len()
    }

    /// The keys seen while walking the dictionary are pairwise distinct.
    pub proof fn lemma_pairs_distinct(&self)
        requires
            self.wf(),
        ensures
            forall|i: int, j: int|
                0 <= i < j < self.pairs_view().len() ==> (#[trigger] self.pairs_view()[i]).0@ != (
                #[trigger] self.pairs_view()[j]).0@,
    {
    }

    /// The pair at a position, for walking the dictionary in insertion
    /// order.
    pub fn index(&self, i: usize) -> (p: &(String, V))
        requires
            self.wf(),
            i < self.pairs_view().len(),
        ensures
            *p == self.pairs_view()[i as int],
            self@.contains_key(p.0@),
            self@[p.0@] == p.1,
    {
        proof {
            lemma_assoc_map_index(self.pairs@, i as int);
        }
        &self.pairs[i]
    }
}

} // verus!
