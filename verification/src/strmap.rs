//! A verified map from string keys to values, backed by an association list
//! with pairwise-distinct keys. It stands behind every per-device table of
//! the library (control states, work modes, running servers, caches), viewed
//! in contracts as a `Map` from character sequences to values.

use vstd::prelude::*;

verus! {

/// The map an association list denotes; a later pair overwrites an earlier
/// one with the same key.
pub open spec fn assoc_view<V>(items: Seq<(String, V)>) -> Map<Seq<char>, V>
    decreases items.len(),
{
    if items.len() == 0 {
        Map::empty()
    } else {
        assoc_view(items.drop_last()).insert(items.last().0@, items.last().1)
    }
}

/// The last index whose key reads `k`, or -1 where none does.
pub open spec fn key_index<V>(items: Seq<(String, V)>, k: Seq<char>) -> int
    decreases items.len(),
{
    if items.len() == 0 {
        -1
    } else if items.last().0@ == k {
        items.len() - 1
    } else {
        key_index(items.drop_last(), k)
    }
}

/// Pairwise-distinct keys.
pub open spec fn distinct_keys<V>(items: Seq<(String, V)>) -> bool {
    forall|i: int, j: int|
        0 <= i < j < items.len() ==> items[i].0@ != items[j].0@
}

/// `key_index` points at a pair with key `k` exactly when one exists.
pub proof fn lemma_key_index<V>(items: Seq<(String, V)>, k: Seq<char>)
    ensures
        -1 <= key_index(items, k) < items.len(),
        key_index(items, k) == -1 <==> (forall|j: int|
            0 <= j < items.len() ==> items[j].0@ != k),
        key_index(items, k) >= 0 ==> items[key_index(items, k)].0@ == k,
    decreases items.len(),
{
    if items.len() > 0 {
        lemma_key_index(items.drop_last(), k);
        if items.last().0@ != k {
            assert(forall|j: int|
                0 <= j < items.len() - 1 ==> items.drop_last()[j] == items[j]);
        }
    }
}

/// The denoted map contains `k` exactly when some pair has key `k`, and then
/// maps it to the value of the last such pair.
pub proof fn lemma_assoc_view<V>(items: Seq<(String, V)>, k: Seq<char>)
    ensures
        assoc_view(items).contains_key(k) <==> key_index(items, k) >= 0,
        key_index(items, k) >= 0 ==> assoc_view(items)[k] == items[key_index(items, k)].1,
    decreases items.len(),
{
    if items.len() > 0 {
        lemma_assoc_view(items.drop_last(), k);
        lemma_key_index(items.drop_last(), k);
        assert(forall|j: int| 0 <= j < items.len() - 1 ==> items.drop_last()[j] == items[j]);
    }
}

/// Replacing the value at an existing key updates the denoted map pointwise.
pub proof fn lemma_assoc_view_update<V>(items: Seq<(String, V)>, i: int, pair: (String, V))
    requires
        distinct_keys(items),
        0 <= i < items.len(),
        pair.0@ == items[i].0@,
    ensures
        assoc_view(items.update(i, pair)) == assoc_view(items).insert(pair.0@, pair.1),
    decreases items.len(),
{
    let updated = items.update(i, pair);
    if i == items.len() - 1 {
        assert(updated.drop_last() =~= items.drop_last());
        assert(assoc_view(updated) =~= assoc_view(items).insert(pair.0@, pair.1));
    } else {
        assert(updated.drop_last() =~= items.drop_last().update(i, pair));
        assert(items.drop_last()[i] == items[i]);
        lemma_assoc_view_update(items.drop_last(), i, pair);
        lemma_key_index(items.drop_last(), items.last().0@);
        assert(updated.last() == items.last());
        assert(items.last().0@ != pair.0@);
        assert(assoc_view(updated) =~= assoc_view(items).insert(pair.0@, pair.1));
    }
}

/// Appending a pair with a fresh key inserts it into the denoted map.
pub proof fn lemma_assoc_view_push<V>(items: Seq<(String, V)>, pair: (String, V))
    ensures
        assoc_view(items.push(pair)) == assoc_view(items).insert(pair.0@, pair.1),
{
    assert(items.push(pair).drop_last() =~= items);
}

/// Removing the pair at an existing key removes it from the denoted map.
pub proof fn lemma_assoc_view_remove<V>(items: Seq<(String, V)>, i: int)
    requires
        distinct_keys(items),
        0 <= i < items.len(),
    ensures
        assoc_view(items.remove(i)) == assoc_view(items).remove(items[i].0@),
    decreases items.len(),
{
    let removed = items.remove(i);
    if i == items.len() - 1 {
        assert(removed =~= items.drop_last());
        assert(forall|j: int| 0 <= j < items.len() - 1 ==> items.drop_last()[j] == items[j]);
        lemma_key_index(items.drop_last(), items.last().0@);
        lemma_assoc_view(items.drop_last(), items.last().0@);
        assert(assoc_view(items.remove(i)) =~= assoc_view(items).remove(items[i].0@));
    } else {
        assert(removed.drop_last() =~= items.drop_last().remove(i));
        assert(items.drop_last()[i] == items[i]);
        lemma_assoc_view_remove(items.drop_last(), i);
        assert(removed.last() == items.last());
        assert(items.last().0@ != items[i].0@);
        assert(assoc_view(items.remove(i)) =~= assoc_view(items).remove(items[i].0@));
    }
}

/// A map from string keys to values, with a `Map<Seq<char>, V>` view.
pub struct StrMap<V> {
    pub items: Vec<(String, V)>,
}

impl<V> View for StrMap<V> {
    type V = Map<Seq<char>, V>;

    open spec fn view(&self) -> Map<Seq<char>, V> {
        assoc_view(self.items@)
    }
}

impl<V> StrMap<V> {
    /// Keys are pairwise distinct.
    pub open spec fn wf(&self) -> bool {
        distinct_keys(self.items@)
    }

    /// The stored pairs, for iteration.
    pub open spec fn spec_items(&self) -> Seq<(String, V)> {
        self.items@
    }

    /// An empty map.
    pub fn new() -> (r: StrMap<V>)
        ensures
            r.wf(),
            r@ == Map::<Seq<char>, V>::empty(),
            r.spec_items() == Seq::<(String, V)>::empty(),
    {
        StrMap { items: Vec::new() }
    }

    /// How many keys are stored.
    pub fn len(&self) -> (r: usize)
        ensures
            r == self.spec_items().len(),
    {
        self.items.len()
    }

    /// The stored pairs, for iteration from outside.
    pub fn items(&self) -> (r: &Vec<(String, V)>)
        ensures
            r@ == self.spec_items(),
    {
        &self.items
    }

    /// The index of a key, where it is present.
    fn find(&self, key: &str) -> (r: Option<usize>)
        requires
            self.wf(),
        ensures
            match r {
                Some(i) => i < self.spec_items().len() && self.spec_items()[i as int].0@ == key@
                    && key_index(self.spec_items(), key@) == i as int,
                None => !self@.contains_key(key@),
            },
    {
        let ghost items = self.items@;
        let mut i: usize = 0;
        while i < self.items.len()
            invariant
                self.wf(),
                items == self.items@,
                i <= items.len(),
                forall|j: int| 0 <= j < i ==> items[j].0@ != key@,
            decreases items.len() - i,
        {
            if crate::text::str_eq(self.items[i].0.as_str(), key) {
                proof {
                    lemma_key_index(items, key@);
                }
                return Some(i);
            }
            i += 1;
        }
        proof {
            lemma_key_index(items, key@);
            lemma_assoc_view(items, key@);
        }
        None
    }

    /// Looks a key up.
    pub fn get(&self, key: &str) -> (r: Option<&V>)
        requires
            self.wf(),
        ensures
            match r {
                Some(v) => self@.contains_key(key@) && *v == self@[key@],
                None => !self@.contains_key(key@),
            },
    {
        match self.find(key) {
            Some(i) => {
                proof {
                    lemma_assoc_view(self.items@, key@);
                }
                Some(&self.items[i].1)
            },
            None => None,
        }
    }

    /// Whether a key is present.
    pub fn contains_key(&self, key: &str) -> (r: bool)
        requires
            self.wf(),
        ensures
            r == self@.contains_key(key@),
    {
        match self.find(key) {
            Some(_) => {
                proof {
                    lemma_assoc_view(self.items@, key@);
                }
                true
            },
            None => false,
        }
    }

    /// Binds a key to a value, replacing any earlier binding.
    pub fn set(&mut self, key: &str, value: V)
        requires
            old(self).wf(),
        ensures
            final(self).wf(),
            final(self)@ == old(self)@.insert(key@, value),
    {
        let k = String::from_str(key);
        match self.find(key) {
            Some(i) => {
                proof {
                    lemma_assoc_view_update(self.items@, i as int, (k, value));
                }
                self.items[i] = (k, value);
            },
            None => {
                proof {
                    lemma_assoc_view_push(self.items@, (k, value));
                    lemma_key_index(self.items@, key@);
                    lemma_assoc_view(self.items@, key@);
                }
                self.items.push((k, value));
            },
        }
    }

    /// Removes a key's binding, where one exists.
    pub fn remove(&mut self, key: &str)
        requires
            old(self).wf(),
        ensures
            final(self).wf(),
            final(self)@ == old(self)@.remove(key@),
    {
        match self.find(key) {
            Some(i) => {
                proof {
                    lemma_assoc_view_remove(self.items@, i as int);
                    assert forall|a: int, b: int|
                        0 <= a < b < self.items@.remove(i as int).len() implies self.items@.remove(
                        i as int,
                    )[a].0@ != self.items@.remove(i as int)[b].0@ by {
                        assert(self.items@.remove(i as int)[a] == if a < i {
                            self.items@[a]
                        } else {
                            self.items@[a + 1]
                        });
                        assert(self.items@.remove(i as int)[b] == if b < i {
                            self.items@[b]
                        } else {
                            self.items@[b + 1]
                        });
                    }
                }
                self.items.remove(i);
            },
            None => {
                proof {
                    assert(self@ =~= self@.remove(key@));
                }
            },
        }
    }

    /// Removes every binding.
    pub fn clear(&mut self)
        ensures
            final(self).wf(),
            final(self)@ == Map::<Seq<char>, V>::empty(),
            final(self).spec_items() == Seq::<(String, V)>::empty(),
    {
        self.items.clear();
    }
}

} // verus!
