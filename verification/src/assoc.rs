//! The one collection this crate needs: an association list holding one
//! value per string key, specified as a finite `Map`.

use vstd::prelude::*;

verus! {

/// An association list from `String` keys to values, abstracted in
/// contracts as a `Map` from the key's characters to the value's view.
///
/// The internal invariant is that no two entries share a key, so the list
/// is exactly a finite map: inserting an existing key replaces its value
/// (last write wins, no merge) and removing an absent key is a no-op.
/// Every component of the provider keeps its state in one of these.
pub struct AssocMap<V> {
    pairs: Vec<(String, V)>,
}

/// No two entries of `pairs` share a key.
spec fn keys_unique<V>(pairs: Seq<(String, V)>) -> bool {
    forall|i: int, j: int| 0 <= i < j < pairs.len() ==> pairs[i].0@ != pairs[j].0@
}

/// The finite map an entry sequence stands for; later entries win, though
/// under `keys_unique` every entry is visible.
spec fn map_of<V: View>(pairs: Seq<(String, V)>) -> Map<Seq<char>, V::V>
    decreases pairs.len(),
{
    if pairs.len() == 0 {
        Map::empty()
    } else {
        map_of(pairs.drop_last()).insert(pairs.last().0@, pairs.last().1@)
    }
}

impl<V> AssocMap<V> {
    #[verifier::type_invariant]
    spec fn wf(self) -> bool {
        keys_unique(self.pairs@)
    }
}

impl<V: View> View for AssocMap<V> {
    type V = Map<Seq<char>, V::V>;

    closed spec fn view(&self) -> Map<Seq<char>, V::V> {
        map_of(self.pairs@)
    }
}

proof fn lemma_keys_unique_drop_last<V>(pairs: Seq<(String, V)>)
    requires
        keys_unique(pairs),
        pairs.len() > 0,
    ensures
        keys_unique(pairs.drop_last()),
{
    assert forall|i: int, j: int|
        0 <= i < j < pairs.drop_last().len() implies pairs.drop_last()[i].0@
        != pairs.drop_last()[j].0@ by {
        assert(pairs.drop_last()[i] == pairs[i]);
        assert(pairs.drop_last()[j] == pairs[j]);
    };
}

proof fn lemma_keys_unique_remove<V>(pairs: Seq<(String, V)>, i: int)
    requires
        keys_unique(pairs),
        0 <= i < pairs.len(),
    ensures
        keys_unique(pairs.remove(i)),
{
    let s1 = pairs.remove(i);
    assert forall|a: int, b: int| 0 <= a < b < s1.len() implies s1[a].0@ != s1[b].0@ by {
        let a0 = if a < i { a } else { a + 1 };
        let b0 = if b < i { b } else { b + 1 };
        assert(s1[a] == pairs[a0]);
        assert(s1[b] == pairs[b0]);
    };
}

/// A key is in the map exactly when some entry carries it.
proof fn lemma_map_of_contains<V: View>(pairs: Seq<(String, V)>, k: Seq<char>)
    ensures
        map_of(pairs).contains_key(k) <==> (exists|i: int|
            0 <= i < pairs.len() && pairs[i].0@ == k),
    decreases pairs.len(),
{
    if pairs.len() > 0 {
        let prefix = pairs.drop_last();
        lemma_map_of_contains::<V>(prefix, k);
        if pairs.last().0@ == k {
            assert(pairs[pairs.len() - 1].0@ == k);
        } else {
            if map_of(pairs).contains_key(k) {
                let i = choose|i: int| 0 <= i < prefix.len() && prefix[i].0@ == k;
                assert(pairs[i].0@ == k);
            }
            if exists|i: int| 0 <= i < pairs.len() && pairs[i].0@ == k {
                let i = choose|i: int| 0 <= i < pairs.len() && pairs[i].0@ == k;
                assert(prefix[i].0@ == k);
            }
        }
    }
}

/// With unique keys, the map sends each entry's key to that entry's value.
proof fn lemma_map_of_index<V: View>(pairs: Seq<(String, V)>, i: int)
    requires
        keys_unique(pairs),
        0 <= i < pairs.len(),
    ensures
        map_of(pairs).contains_key(pairs[i].0@),
        map_of(pairs)[pairs[i].0@] == pairs[i].1@,
    decreases pairs.len(),
{
    if i < pairs.len() - 1 {
        lemma_keys_unique_drop_last(pairs);
        lemma_map_of_index(pairs.drop_last(), i);
        assert(pairs.drop_last()[i] == pairs[i]);
        assert(pairs.last().0@ != pairs[i].0@);
    }
}

/// With unique keys, the map has exactly one element per entry.
proof fn lemma_map_of_len<V: View>(pairs: Seq<(String, V)>)
    requires
        keys_unique(pairs),
    ensures
        map_of(pairs).dom().finite(),
        map_of(pairs).len() == pairs.len(),
    decreases pairs.len(),
{
    if pairs.len() == 0 {
        assert(map_of(pairs).dom() =~= Set::<Seq<char>>::empty());
    } else {
        let prefix = pairs.drop_last();
        lemma_keys_unique_drop_last(pairs);
        lemma_map_of_len::<V>(prefix);
        lemma_map_of_contains::<V>(prefix, pairs.last().0@);
        assert forall|j: int| 0 <= j < prefix.len() implies prefix[j].0@ != pairs.last().0@ by {
            assert(prefix[j] == pairs[j]);
        };
        assert(!map_of(prefix).contains_key(pairs.last().0@));
    }
}

/// Removing entry `i` removes exactly its key from the map.
proof fn lemma_map_of_remove_index<V: View>(pairs: Seq<(String, V)>, i: int)
    requires
        keys_unique(pairs),
        0 <= i < pairs.len(),
    ensures
        map_of(pairs.remove(i)) == map_of(pairs).remove(pairs[i].0@),
    decreases pairs.len(),
{
    let k = pairs[i].0@;
    if i == pairs.len() - 1 {
        assert(pairs.remove(i) =~= pairs.drop_last());
        lemma_keys_unique_drop_last(pairs);
        lemma_map_of_contains::<V>(pairs.drop_last(), k);
        assert forall|j: int|
            0 <= j < pairs.drop_last().len() implies pairs.drop_last()[j].0@ != k by {
            assert(pairs.drop_last()[j] == pairs[j]);
        };
        assert(!map_of(pairs.drop_last()).contains_key(k));
        assert(map_of(pairs).remove(k) =~= map_of(pairs.drop_last()));
    } else {
        let prefix = pairs.drop_last();
        lemma_keys_unique_drop_last(pairs);
        lemma_map_of_remove_index(prefix, i);
        assert(prefix[i] == pairs[i]);
        let s1 = pairs.remove(i);
        assert(s1.drop_last() =~= prefix.remove(i));
        assert(s1.last() == pairs.last());
        assert(map_of(s1) == map_of(prefix.remove(i)).insert(pairs.last().0@, pairs.last().1@));
        assert(pairs.last().0@ != k);
        assert(map_of(prefix).remove(k).insert(pairs.last().0@, pairs.last().1@)
            =~= map_of(prefix).insert(pairs.last().0@, pairs.last().1@).remove(k));
    }
}

impl<V: View> AssocMap<V> {
    /// An empty map.
    pub fn new() -> (m: Self)
        ensures
            m@ == Map::<Seq<char>, V::V>::empty(),
    {
        AssocMap { pairs: Vec::new() }
    }

    /// The index of the entry carrying `key`, if one does.
    fn find(&self, key: &str) -> (r: Option<usize>)
        ensures
            (match r {
                Some(i) => 0 <= i < self.pairs@.len() && self.pairs@[i as int].0@ == key@,
                None => forall|j: int| 0 <= j < self.pairs@.len() ==> self.pairs@[j].0@ != key@,
            }),
    {
        let k: String = key.to_owned();
        let mut i: usize = 0;
        while i < self.pairs.len()
            invariant
                k@ == key@,
                i <= self.pairs@.len(),
                forall|j: int| 0 <= j < i ==> self.pairs@[j].0@ != key@,
            decreases self.pairs@.len() - i,
        {
            if self.pairs[i].0 == k {
                return Some(i);
            }
            i += 1;
        }
        None
    }

    /// Whether the map holds an entry for `key`.
    pub fn contains_key(&self, key: &str) -> (r: bool)
        ensures
            r == self@.contains_key(key@),
    {
        proof {
            lemma_map_of_contains::<V>(self.pairs@, key@);
        }
        match self.find(key) {
            Some(i) => {
                proof {
                    assert(self.pairs@[i as int].0@ == key@);
                }
                true
            }
            None => false,
        }
    }

    /// The value stored under `key`, if any.
    pub fn get(&self, key: &str) -> (r: Option<&V>)
        ensures
            (r is Some) <==> self@.contains_key(key@),
            r matches Some(v) ==> v@ == self@[key@],
    {
        proof {
            use_type_invariant(self);
            lemma_map_of_contains::<V>(self.pairs@, key@);
        }
        match self.find(key) {
            Some(i) => {
                proof {
                    lemma_map_of_index::<V>(self.pairs@, i as int);
                }
                Some(&self.pairs[i].1)
            }
            None => None,
        }
    }

    /// The number of keys held.
    pub fn len(&self) -> (n: usize)
        ensures
            n == self@.len(),
    {
        proof {
            use_type_invariant(self);
            lemma_map_of_len::<V>(self.pairs@);
        }
        self.pairs.len()
    }

    /// Inserts `value` under `key`, replacing the value of an existing key.
    pub fn insert(&mut self, key: String, value: V)
        ensures
            final(self)@ == old(self)@.insert(key@, value@),
    {
        proof {
            use_type_invariant(&*self);
        }
        let found = self.find(key.as_str());
        let ghost s: Seq<(String, V)> = self.pairs@;
        let mut pairs: Vec<(String, V)> = Vec::new();
        std::mem::swap(&mut pairs, &mut self.pairs);
        match found {
            Some(i) => {
                let _replaced = pairs.remove(i);
                proof {
                    lemma_map_of_remove_index(s, i as int);
                    lemma_keys_unique_remove(s, i as int);
                    assert forall|j: int| 0 <= j < pairs@.len() implies pairs@[j].0@ != key@ by {
                        let j0 = if j < i { j } else { j + 1 };
                        assert(pairs@[j] == s[j0]);
                    };
                }
                pairs.push((key, value));
                proof {
                    assert(pairs@.drop_last() =~= s.remove(i as int));
                    assert(keys_unique(pairs@));
                    assert(map_of(s).remove(s[i as int].0@).insert(pairs@.last().0@, pairs@.last().1@)
                        =~= map_of(s).insert(pairs@.last().0@, pairs@.last().1@));
                }
            }
            None => {
                pairs.push((key, value));
                proof {
                    assert(pairs@.drop_last() =~= s);
                    assert(keys_unique(pairs@));
                }
            }
        }
        self.pairs = pairs;
    }

    /// Removes the entry for `key`; an absent key leaves the map unchanged.
    pub fn remove(&mut self, key: &str)
        ensures
            final(self)@ == old(self)@.remove(key@),
    {
        proof {
            use_type_invariant(&*self);
        }
        let found = self.find(key);
        let ghost s: Seq<(String, V)> = self.pairs@;
        match found {
            Some(i) => {
                let mut pairs: Vec<(String, V)> = Vec::new();
                std::mem::swap(&mut pairs, &mut self.pairs);
                let _removed = pairs.remove(i);
                proof {
                    lemma_map_of_remove_index(s, i as int);
                    lemma_keys_unique_remove(s, i as int);
                }
                self.pairs = pairs;
            }
            None => {
                proof {
                    lemma_map_of_contains::<V>(s, key@);
                    assert(map_of(s).remove(key@) =~= map_of(s));
                }
            }
        }
    }

    /// Drops every entry.
    pub fn clear(&mut self)
        ensures
            final(self)@ == Map::<Seq<char>, V::V>::empty(),
    {
        self.pairs = Vec::new();
    }
}

impl AssocMap<String> {
    /// An independent copy: this map stays untouched by later writes to
    /// the copy, and the other way round.
    pub fn duplicate(&self) -> (r: Self)
        ensures
            r@ == self@,
    {
        proof {
            use_type_invariant(self);
        }
        let mut pairs: Vec<(String, String)> = Vec::new();
        let mut i: usize = 0;
        while i < self.pairs.len()
            invariant
                i <= self.pairs@.len(),
                pairs@.len() == i,
                forall|j: int| 0 <= j < i ==> pairs@[j] == self.pairs@[j],
                keys_unique(self.pairs@),
            decreases self.pairs@.len() - i,
        {
            let k = self.pairs[i].0.clone();
            let v = self.pairs[i].1.clone();
            pairs.push((k, v));
            i += 1;
        }
        proof {
            assert(pairs@ =~= self.pairs@);
        }
        AssocMap { pairs }
    }
}

} // verus!
