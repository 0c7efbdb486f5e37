//! A small keyed table: a vector of entries in which no key occurs twice.

use vstd::prelude::*;

verus! {

/// A key of a `Table`: a value that can be told apart from another by
/// comparing their views.
pub trait Key: View + Sized {
    /// Whether `self` and `other` stand for the same key.
    fn same(&self, other: &Self) -> (b: bool)
        ensures
            b == (self@ == other@),
    ;
}

impl Key for u32 {
    fn same(&self, other: &u32) -> (b: bool) {
        *self == *other
    }
}

impl Key for String {
    fn same(&self, other: &String) -> (b: bool) {
        *self == *other
    }
}

/// Whether no key occurs twice among `entries`.
pub open spec fn distinct_keys<K: View, V>(entries: Seq<(K, V)>) -> bool {
    forall|i: int, j: int|
        0 <= i < j < entries.len() ==> (#[trigger] entries[i]).0@ != (#[trigger] entries[j]).0@
}

/// Whether `key` is the key of the entry at `i`.
pub open spec fn key_at<K: View, V>(entries: Seq<(K, V)>, key: K::V, i: int) -> bool {
    0 <= i < entries.len() && entries[i].0@ == key
}

/// The map from the keys of `entries` to their values.
pub open spec fn map_of<K: View, V>(entries: Seq<(K, V)>) -> Map<K::V, V> {
    Map::new(
        |key: K::V| exists|i: int| key_at(entries, key, i),
        |key: K::V| entries[choose|i: int| key_at(entries, key, i)].1,
    )
}

/// In a sequence of distinct keys, the map holds each entry's value under
/// its key.
pub proof fn lemma_map_of_entry<K: View, V>(entries: Seq<(K, V)>, i: int)
    requires
        distinct_keys(entries),
        0 <= i < entries.len(),
    ensures
        map_of(entries).contains_key(entries[i].0@),
        map_of(entries)[entries[i].0@] == entries[i].1,
{
    let key = entries[i].0@;
    assert(key_at(entries, key, i));
}

/// Appending an entry under a key that does not occur inserts it into the
/// map.
pub proof fn lemma_map_of_push<K: View, V>(entries: Seq<(K, V)>, key: K, value: V)
    requires
        distinct_keys(entries),
        !map_of(entries).contains_key(key@),
    ensures
        distinct_keys(entries.push((key, value))),
        map_of(entries.push((key, value))) == map_of(entries).insert(key@, value),
{
    let after = entries.push((key, value));
    let n = entries.len() as int;
    assert forall|i: int, j: int| 0 <= i < j < after.len() implies (#[trigger] after[i]).0@ != (
    #[trigger] after[j]).0@ by {
        if j == n {
            assert(key_at(entries, entries[i].0@, i));
        }
    }
    assert forall|k: K::V| #[trigger]
        map_of(after).contains_key(k) == map_of(entries).insert(key@, value).contains_key(k) by {
        if map_of(after).contains_key(k) {
            let i = choose|i: int| key_at(after, k, i);
            if i < n {
                assert(key_at(entries, k, i));
            }
        }
        if map_of(entries).insert(key@, value).contains_key(k) {
            if k == key@ {
                assert(key_at(after, k, n));
            } else {
                let i = choose|i: int| key_at(entries, k, i);
                assert(key_at(after, k, i));
            }
        }
    }
    assert forall|k: K::V| #[trigger] map_of(after).contains_key(k) implies map_of(after)[k]
        == map_of(entries).insert(key@, value)[k] by {
        let i = choose|i: int| key_at(after, k, i);
        lemma_map_of_entry(after, i);
        if i < n {
            lemma_map_of_entry(entries, i);
        }
    }
}

/// Replacing the value of the entry at `i` replaces it in the map.
pub proof fn lemma_map_of_update<K: View, V>(entries: Seq<(K, V)>, i: int, key: K, value: V)
    requires
        distinct_keys(entries),
        0 <= i < entries.len(),
        entries[i].0@ == key@,
    ensures
        distinct_keys(entries.update(i, (key, value))),
        map_of(entries.update(i, (key, value))) == map_of(entries).insert(key@, value),
{
    let after = entries.update(i, (key, value));
    assert forall|k: K::V| #[trigger]
        map_of(after).contains_key(k) == map_of(entries).insert(key@, value).contains_key(k) by {
        if map_of(after).contains_key(k) {
            let j = choose|j: int| key_at(after, k, j);
            assert(key_at(entries, k, j));
        }
        if map_of(entries).insert(key@, value).contains_key(k) {
            if k == key@ {
                assert(key_at(after, k, i));
            } else {
                let j = choose|j: int| key_at(entries, k, j);
                assert(key_at(after, k, j));
            }
        }
    }
}

/// Taking out the entry at `i` removes its key from the map.
pub proof fn lemma_map_of_remove<K: View, V>(entries: Seq<(K, V)>, i: int)
    requires
        distinct_keys(entries),
        0 <= i < entries.len(),
    ensures
        distinct_keys(entries.remove(i)),
        map_of(entries.remove(i)) == map_of(entries).remove(entries[i].0@),
{
    let after = entries.remove(i);
    let key = entries[i].0@;
    assert forall|k: K::V| #[trigger]
        map_of(after).contains_key(k) == map_of(entries).remove(key).contains_key(k) by {
        if map_of(after).contains_key(k) {
            let j = choose|j: int| key_at(after, k, j);
            let j0 = if j < i { j } else { j + 1 };
            assert(key_at(entries, k, j0));
        }
        if map_of(entries).remove(key).contains_key(k) {
            let j0 = choose|j: int| key_at(entries, k, j);
            let j = if j0 < i { j0 } else { j0 - 1 };
            assert(key_at(after, k, j));
        }
    }
}

/// A table from keys to values, held as a vector of entries with distinct
/// keys.
pub struct Table<K: Key, V> {
    entries: Vec<(K, V)>,
}

impl<K: Key, V> Table<K, V> {
    /// The entries of the table, in the order in which it holds them.
    pub closed spec fn entries(&self) -> Seq<(K, V)> {
        self.entries@
    }

    /// Whether the table is well formed: no key occurs twice.
    pub open spec fn wf(&self) -> bool {
        distinct_keys(self.entries())
    }

    /// The table as a map from the views of its keys to its values.
    pub open spec fn view(&self) -> Map<K::V, V> {
        map_of(self.entries())
    }

    /// The number of entries.
    pub fn len(&self) -> (n: usize)
        ensures
            n == self.entries().len(),
    {
        self.entries.len()
    }

    /// The entry at the place `i`.
    pub fn entry(&self, i: usize) -> (e: &(K, V))
        requires
            i < self.entries().len(),
        ensures
            *e == self.entries()[i as int],
    {
        &self.entries[i]
    }

    /// The empty table.
    pub fn new() -> (t: Self)
        ensures
            t.wf(),
            t@ == Map::<K::V, V>::empty(),
    {
        let t = Table { entries: Vec::new() };
        t
    }

    /// The place of `key` among the entries.
    fn position(&self, key: &K) -> (r: Option<usize>)
        ensures
            (match r {
                Some(i) => key_at(self.entries@, key@, i as int),
                None => !self@.contains_key(key@),
            }),
    {
        let mut i: usize = 0;
        while i < self.entries.len()
            invariant
                i <= self.entries@.len(),
                forall|j: int| 0 <= j < i ==> !key_at(self.entries@, key@, j),
            decreases self.entries@.len() - i,
        {
            if self.entries[i].0.same(key) {
                return Some(i);
            }
            i += 1;
        }
        None
    }

    /// Whether the table holds a value under `key`.
    pub fn contains_key(&self, key: &K) -> (b: bool)
        ensures
            b == self@.contains_key(key@),
    {
        match self.position(key) {
            Some(_) => true,
            None => false,
        }
    }

    /// The value under `key`, if there is one.
    pub fn get(&self, key: &K) -> (r: Option<&V>)
        requires
            self.wf(),
        ensures
            (match r {
                Some(v) => self@.contains_key(key@) && *v == self@[key@],
                None => !self@.contains_key(key@),
            }),
    {
        match self.position(key) {
            Some(i) => {
                proof {
                    lemma_map_of_entry(self.entries@, i as int);
                }
                Some(&self.entries[i].1)
            },
            None => None,
        }
    }

    /// Puts `value` under `key`, in place of the value that was there, if
    /// any.
    pub fn insert(&mut self, key: K, value: V)
        requires
            old(self).wf(),
        ensures
            final(self).wf(),
            final(self)@ == old(self)@.insert(key@, value),
    {
        match self.position(&key) {
            Some(i) => {
                proof {
                    lemma_map_of_update(self.entries@, i as int, key, value);
                }
                self.entries[i] = (key, value);
            },
            None => {
                proof {
                    lemma_map_of_push(self.entries@, key, value);
                }
                self.entries.push((key, value));
            },
        }
    }

    /// Takes out the entry under `key`, if there is one.
    pub fn remove(&mut self, key: &K)
        requires
            old(self).wf(),
        ensures
            final(self).wf(),
            final(self)@ == old(self)@.remove(key@),
    {
        match self.position(key) {
            Some(i) => {
                proof {
                    lemma_map_of_remove(self.entries@, i as int);
                }
                self.entries.remove(i);
            },
            None => {
            },
        }
    }
}

} // verus!
