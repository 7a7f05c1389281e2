//! Small maps and sets, kept as lists of entries in insertion order.

use vstd::prelude::*;

use crate::base::Duplicate;

verus! {

/// Keys that can be compared. Keys with the same view are the same key.
pub trait Key: View + Sized {
    fn same(&self, other: &Self) -> (result: bool)
        ensures
            result == (self@ == other@),
    ;
}

impl Key for String {
    fn same(&self, other: &String) -> (result: bool) {
        *self == *other
    }
}

impl Key for usize {
    fn same(&self, other: &usize) -> (result: bool) {
        *self == *other
    }
}

impl Key for u64 {
    fn same(&self, other: &u64) -> (result: bool) {
        *self == *other
    }
}

/// A test on keys.
pub trait KeyTest<K: View>: Sized {
    spec fn passes(self, key: K::V) -> bool;

    fn check(&self, key: &K) -> (result: bool)
        ensures
            result == self.passes(key@),
    ;
}

/// A map from keys to values. The first entry of a key counts.
#[derive(Debug)]
pub struct Table<K, V> {
    pub entries: Vec<(K, V)>,
}

/// Position of the first entry of a key, or the number of entries.
pub open spec fn entry_index<K: View, V>(entries: Seq<(K, V)>, key: K::V) -> int
    decreases entries.len(),
{
    if entries.len() == 0 || entries[0].0@ == key {
        0
    } else {
        1 + entry_index(entries.drop_first(), key)
    }
}

/// The map that a list of entries stands for.
pub open spec fn entries_map<K: View, V>(entries: Seq<(K, V)>) -> Map<K::V, V> {
    Map::new(
        |key: K::V| entry_index(entries, key) < entries.len(),
        |key: K::V| entries[entry_index(entries, key)].1,
    )
}

/// The part of a map whose keys pass a test.
pub open spec fn passing<K: View, V, P: KeyTest<K>>(map: Map<K::V, V>, test: P) -> Map<K::V, V> {
    Map::new(|key: K::V| map.contains_key(key) && test.passes(key), |key: K::V| map[key])
}

/// A map with its values as their views show them.
pub open spec fn map_views<Q, V: View>(map: Map<Q, V>) -> Map<Q, V::V> {
    Map::new(|key: Q| map.contains_key(key), |key: Q| map[key]@)
}

impl<K: View, V> View for Table<K, V> {
    type V = Map<K::V, V>;

    open spec fn view(&self) -> Map<K::V, V> {
        entries_map(self.entries@)
    }
}

proof fn lemma_entry_index<K: View, V>(entries: Seq<(K, V)>, key: K::V)
    ensures
        0 <= entry_index(entries, key) <= entries.len(),
        entry_index(entries, key) < entries.len() ==> entries[entry_index(entries, key)].0@ == key,
        forall|i: int| 0 <= i < entry_index(entries, key) ==> (#[trigger] entries[i]).0@ != key,
    decreases entries.len(),
{
    if entries.len() == 0 || entries[0].0@ == key {
    } else {
        let rest = entries.drop_first();
        lemma_entry_index(rest, key);
        assert forall|i: int| 0 <= i < entry_index(entries, key) implies (
        #[trigger] entries[i]).0@ != key by {
            if i > 0 {
                assert(rest[i - 1] == entries[i]);
            }
        }
    }
}

proof fn lemma_entry_index_is<K: View, V>(entries: Seq<(K, V)>, key: K::V, n: int)
    requires
        0 <= n <= entries.len(),
        n < entries.len() ==> entries[n].0@ == key,
        forall|i: int| 0 <= i < n ==> (#[trigger] entries[i]).0@ != key,
    ensures
        entry_index(entries, key) == n,
{
    lemma_entry_index(entries, key);
    let m = entry_index(entries, key);
    if m < n {
        assert(entries[m].0@ != key);
    } else if n < m {
        assert(entries[n].0@ != key);
    }
}

/// Taking an entry out changes the map at its key only.
proof fn lemma_entry_removed<K: View, V>(before: Seq<(K, V)>, i: int)
    requires
        0 <= i < before.len(),
    ensures
        entries_map(before.remove(i)).remove(before[i].0@) == entries_map(before).remove(
            before[i].0@,
        ),
{
    let after = before.remove(i);
    let key = before[i].0@;
    let old_map = entries_map(before).remove(key);
    let new_map = entries_map(after).remove(key);
    assert forall|k: K::V|
        #![trigger new_map.contains_key(k)]
        new_map.contains_key(k) == old_map.contains_key(k) && (new_map.contains_key(k)
            ==> new_map[k] == old_map[k]) by {
        if k != key {
            lemma_entry_index(before, k);
            let m = entry_index(before, k);
            let n = if m < i {
                m
            } else {
                m - 1
            };
            assert(m != i);
            assert forall|j: int| 0 <= j < n implies (#[trigger] after[j]).0@ != k by {
                let x = if j < i {
                    j
                } else {
                    j + 1
                };
                assert(after[j] == before[x]);
            }
            if n < after.len() {
                assert(after[n] == before[m]);
            }
            lemma_entry_index_is(after, k, n);
        }
    }
    assert(new_map =~= old_map);
}

/// How the views of a map's values follow its changes.
pub proof fn lemma_map_views<Q, V: View>(map: Map<Q, V>, key: Q, value: V)
    ensures
        map_views(map.insert(key, value)) == map_views(map).insert(key, value@),
        map_views(map.remove(key)) == map_views(map).remove(key),
        map_views(map).contains_key(key) == map.contains_key(key),
        map.contains_key(key) ==> map_views(map)[key] == map[key]@,
        map_views(Map::<Q, V>::empty()) == Map::<Q, V::V>::empty(),
{
    assert(map_views(map.insert(key, value)) =~= map_views(map).insert(key, value@));
    assert(map_views(map.remove(key)) =~= map_views(map).remove(key));
    assert(map_views(Map::<Q, V>::empty()) =~= Map::<Q, V::V>::empty());
}

pub proof fn lemma_map_views_removed<Q, V: View>(map: Map<Q, V>, key: Q)
    ensures
        map_views(map.remove(key)) == map_views(map).remove(key),
        map_views(map).contains_key(key) == map.contains_key(key),
        map.contains_key(key) ==> map_views(map)[key] == map[key]@,
        map_views(Map::<Q, V>::empty()) == Map::<Q, V::V>::empty(),
{
    assert(map_views(map.remove(key)) =~= map_views(map).remove(key));
    assert(map_views(Map::<Q, V>::empty()) =~= Map::<Q, V::V>::empty());
}

pub proof fn lemma_map_views_passing<K: View, V: View, P: KeyTest<K>>(map: Map<K::V, V>, test: P)
    ensures
        map_views(passing::<K, V, P>(map, test)) == passing::<K, V::V, P>(map_views(map), test),
{
    assert(map_views(passing::<K, V, P>(map, test)) =~= passing::<K, V::V, P>(
        map_views(map),
        test,
    ));
}

impl<K: Key, V> Table<K, V> {
    pub fn new() -> (table: Self)
        ensures
            table@ == Map::<K::V, V>::empty(),
            table.entries@.len() == 0,
    {
        let table = Table { entries: Vec::new() };
        assert(table@ =~= Map::empty());
        table
    }

    /// Position of a key, if it is there.
    fn find(&self, key: &K) -> (index: Option<usize>)
        ensures
            match index {
                Some(i) => i < self.entries@.len() && i == entry_index(self.entries@, key@),
                None => entry_index(self.entries@, key@) == self.entries@.len(),
            },
    {
        let mut i: usize = 0;
        while i < self.entries.len()
            invariant
                i <= self.entries@.len(),
                forall|j: int| 0 <= j < i ==> (#[trigger] self.entries@[j]).0@ != key@,
            decreases self.entries@.len() - i,
        {
            if self.entries[i].0.same(key) {
                proof {
                    lemma_entry_index_is(self.entries@, key@, i as int);
                }
                return Some(i);
            }
            i = i + 1;
        }
        proof {
            lemma_entry_index_is(self.entries@, key@, i as int);
        }
        None
    }

    pub fn get(&self, key: &K) -> (value: Option<&V>)
        ensures
            match value {
                Some(v) => self@.contains_key(key@) && *v == self@[key@],
                None => !self@.contains_key(key@),
            },
    {
        match self.find(key) {
            Some(i) => Some(&self.entries[i].1),
            None => None,
        }
    }

    pub fn contains_key(&self, key: &K) -> (result: bool)
        ensures
            result == self@.contains_key(key@),
    {
        self.find(key).is_some()
    }

    pub fn is_empty(&self) -> (result: bool)
        ensures
            result == (self@ == Map::<K::V, V>::empty()),
            result == (self.entries@.len() == 0),
    {
        proof {
            if self.entries@.len() > 0 {
                assert(entry_index(self.entries@, self.entries@[0].0@) == 0);
                assert(self@.contains_key(self.entries@[0].0@));
            } else {
                assert(self@ =~= Map::empty());
            }
        }
        self.entries.is_empty()
    }

    /// Takes a key out. The result is the value that it had.
    pub fn remove(&mut self, key: &K) -> (value: Option<V>)
        ensures
            final(self)@ == old(self)@.remove(key@),
            match value {
                Some(v) => old(self)@.contains_key(key@) && v == old(self)@[key@],
                None => !old(self)@.contains_key(key@),
            },
    {
        let mut value: Option<V> = None;
        let mut i: usize = 0;
        while i < self.entries.len()
            invariant
                i <= self.entries@.len(),
                self@.remove(key@) == old(self)@.remove(key@),
                forall|j: int| 0 <= j < i ==> (#[trigger] self.entries@[j]).0@ != key@,
                match value {
                    Some(v) => old(self)@.contains_key(key@) && v == old(self)@[key@],
                    None => self.entries@ == old(self).entries@,
                },
            decreases self.entries@.len() - i,
        {
            if self.entries[i].0.same(key) {
                proof {
                    lemma_entry_removed(self.entries@, i as int);
                    if value is None {
                        lemma_entry_index_is(self.entries@, key@, i as int);
                    }
                }
                let (_, removed) = self.entries.remove(i);
                if value.is_none() {
                    value = Some(removed);
                }
            } else {
                i = i + 1;
            }
        }
        proof {
            lemma_entry_index_is(self.entries@, key@, i as int);
            assert(self@ =~= self@.remove(key@));
        }
        value
    }

    /// Gives a key a value. A key that was there before moves to the end.
    pub fn insert(&mut self, key: K, value: V)
        ensures
            final(self)@ == old(self)@.insert(key@, value),
    {
        let _ = self.remove(&key);
        let ghost before = self.entries@;
        let ghost removed = self@;
        self.entries.push((key, value));
        proof {
            let after = self.entries@;
            lemma_entry_index(before, key@);
            assert(!removed.contains_key(key@));
            assert forall|k: K::V|
                #![trigger self@.contains_key(k)]
                self@.contains_key(k) == removed.insert(key@, value).contains_key(k) && (
                self@.contains_key(k) ==> self@[k] == removed.insert(
                    key@,
                    value,
                )[k]) by {
                lemma_entry_index(before, k);
                let m = entry_index(before, k);
                assert forall|j: int| 0 <= j < m implies (#[trigger] after[j]).0@ != k by {
                    assert(after[j] == before[j]);
                }
                if m < before.len() {
                    assert(after[m] == before[m]);
                    lemma_entry_index_is(after, k, m);
                } else if k == key@ {
                    assert(after[m].0@ == k);
                    lemma_entry_index_is(after, k, m);
                } else {
                    assert(after[m].0@ != k);
                    lemma_entry_index_is(after, k, m + 1);
                }
            }
            assert(self@ =~= removed.insert(key@, value));
            assert(self@ =~= old(self)@.insert(key@, value));
        }
    }

    /// Keeps the entries whose key passes a test.
    pub fn retain<P: KeyTest<K>>(&mut self, test: &P)
        ensures
            final(self)@ == passing::<K, V, P>(old(self)@, *test),
    {
        let mut i: usize = 0;
        while i < self.entries.len()
            invariant
                i <= self.entries@.len(),
                passing::<K, V, P>(self@, *test) == passing::<K, V, P>(old(self)@, *test),
                forall|j: int| 0 <= j < i ==> test.passes((#[trigger] self.entries@[j]).0@),
            decreases self.entries@.len() - i,
        {
            if test.check(&self.entries[i].0) {
                i = i + 1;
            } else {
                let ghost before = self.entries@;
                let ghost map = self@;
                proof {
                    lemma_entry_removed(before, i as int);
                }
                let _ = self.entries.remove(i);
                proof {
                    let after = self.entries@;
                    let key = before[i as int].0@;
                    assert(after =~= before.remove(i as int));
                    assert(self@.remove(key) == map.remove(key));
                    assert(passing::<K, V, P>(self@, *test) =~= passing::<K, V, P>(
                        self@.remove(key),
                        *test,
                    ));
                    assert(passing::<K, V, P>(map, *test) =~= passing::<K, V, P>(
                        map.remove(key),
                        *test,
                    ));
                }
            }
        }
        proof {
            assert forall|k: K::V| #[trigger] self@.contains_key(k) implies test.passes(k) by {
                lemma_entry_index(self.entries@, k);
            }
            assert(self@ =~= passing::<K, V, P>(self@, *test));
        }
    }

    /// Whether some key passes a test.
    pub fn any_key<P: KeyTest<K>>(&self, test: &P) -> (result: bool)
        ensures
            result == exists|key: K::V| #[trigger] self@.contains_key(key) && test.passes(key),
    {
        let mut i: usize = 0;
        while i < self.entries.len()
            invariant
                i <= self.entries@.len(),
                forall|j: int| 0 <= j < i ==> !test.passes((#[trigger] self.entries@[j]).0@),
            decreases self.entries@.len() - i,
        {
            if test.check(&self.entries[i].0) {
                proof {
                    let key = self.entries@[i as int].0@;
                    lemma_entry_index(self.entries@, key);
                    let n = entry_index(self.entries@, key);
                    if n > i {
                        assert(self.entries@[i as int].0@ != key);
                    }
                    assert(self@.contains_key(key));
                }
                return true;
            }
            i = i + 1;
        }
        proof {
            assert forall|key: K::V| #[trigger] self@.contains_key(key) implies !test.passes(
                key,
            ) by {
                lemma_entry_index(self.entries@, key);
            }
        }
        false
    }

    /// The key of the oldest entry.
    pub fn first_key(&self) -> (key: Option<&K>)
        ensures
            match key {
                Some(k) => self@.contains_key(k@),
                None => self@ == Map::<K::V, V>::empty(),
            },
    {
        if self.entries.is_empty() {
            assert(self@ =~= Map::empty());
            None
        } else {
            assert(entry_index(self.entries@, self.entries@[0].0@) == 0);
            Some(&self.entries[0].0)
        }
    }

    pub fn clear(&mut self)
        ensures
            final(self)@ == Map::<K::V, V>::empty(),
            final(self).entries@.len() == 0,
    {
        self.entries.clear();
        assert(self@ =~= Map::empty());
    }
}

/// A copy of a table.
pub fn duplicate_table<K: Key + Duplicate, V: Duplicate>(table: &Table<K, V>) -> (copy: Table<K, V>)
    ensures
        map_views(copy@) == map_views(table@),
{
    let mut entries: Vec<(K, V)> = Vec::new();
    let mut i: usize = 0;
    while i < table.entries.len()
        invariant
            i <= table.entries@.len(),
            entries@.len() == i,
            forall|j: int|
                0 <= j < i ==> (#[trigger] entries@[j]).0@ == table.entries@[j].0@ && entries@[j].1@
                    == table.entries@[j].1@,
        decreases table.entries@.len() - i,
    {
        entries.push((table.entries[i].0.duplicate(), table.entries[i].1.duplicate()));
        i = i + 1;
    }
    let copy = Table { entries };
    proof {
        assert forall|k: K::V|
            #![trigger copy@.contains_key(k)]
            copy@.contains_key(k) == table@.contains_key(k) && (copy@.contains_key(k)
                ==> copy@[k]@ == table@[k]@) by {
            lemma_entry_index(table.entries@, k);
            let n = entry_index(table.entries@, k);
            assert forall|j: int| 0 <= j < n implies (#[trigger] copy.entries@[j]).0@ != k by {
                assert(copy.entries@[j].0@ == table.entries@[j].0@);
            }
            lemma_entry_index_is(copy.entries@, k, n);
        }
        assert(map_views(copy@) =~= map_views(table@));
    }
    copy
}

} // verus!
