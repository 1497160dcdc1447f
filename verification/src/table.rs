//! A table from text keys to values that remembers the order in which its
//! keys were first inserted.

use vstd::prelude::*;

verus! {

/// A map keyed by strings. No key occurs twice; a key keeps the place at
/// which it was first inserted for as long as it stays in the table.
pub struct Table<V> {
    keys: Vec<String>,
    values: Vec<V>,
}

/// The keys of a list of entries, in order.
pub open spec fn entry_keys<V>(entries: Seq<(String, V)>) -> Seq<Seq<char>> {
    Seq::new(entries.len(), |i: int| entries[i].0@)
}

/// The map that a list of entries with distinct keys stands for.
pub open spec fn entries_map<V: View>(entries: Seq<(String, V)>) -> Map<Seq<char>, V::V> {
    Map::new(
        |k: Seq<char>| entry_keys(entries).contains(k),
        |k: Seq<char>| entries[entry_keys(entries).index_of(k)].1@,
    )
}

impl<V: View> View for Table<V> {
    type V = Map<Seq<char>, V::V>;

    /// The table as a map from the characters of a key to the view of its
    /// value.
    closed spec fn view(&self) -> Map<Seq<char>, V::V> {
        Map::new(
            |k: Seq<char>| self.keys().contains(k),
            |k: Seq<char>| self.values@[self.keys().index_of(k)]@,
        )
    }
}

impl<V: View> Table<V> {
    /// Each key has one value, and no two keys have the same characters.
    pub closed spec fn wf(&self) -> bool {
        &&& self.keys@.len() == self.values@.len()
        &&& forall|i: int, j: int|
            0 <= i < j < self.keys@.len() ==> self.keys@[i]@ != self.keys@[j]@
    }

    /// The keys in the order of their first insertion.
    pub closed spec fn keys(&self) -> Seq<Seq<char>> {
        Seq::new(self.keys@.len(), |i: int| self.keys@[i]@)
    }

    proof fn lemma_entry(&self, i: int)
        requires
            self.wf(),
            0 <= i < self.keys@.len(),
        ensures
            self.keys()[i] == self.keys@[i]@,
            self.keys().index_of(self.keys@[i]@) == i,
            self@.contains_key(self.keys@[i]@),
            self@[self.keys@[i]@] == self.values@[i]@,
    {
        let k = self.keys@[i]@;
        assert(self.keys()[i] == k);
        let j = self.keys().index_of(k);
        assert(0 <= j < self.keys().len() && self.keys()[j] == k);
    }

    proof fn lemma_absent(&self, k: Seq<char>)
        requires
            forall|i: int| 0 <= i < self.keys@.len() ==> self.keys@[i]@ != k,
        ensures
            !self@.contains_key(k),
            !self.keys().contains(k),
    {
        if self.keys().contains(k) {
            let i = choose|i: int| 0 <= i < self.keys().len() && self.keys()[i] == k;
            assert(self.keys@[i]@ == k);
        }
    }

    /// The keys are exactly the domain of the map, each listed once.
    pub proof fn lemma_keys(&self)
        requires
            self.wf(),
        ensures
            self.keys().no_duplicates(),
            self@.dom().finite(),
            forall|k: Seq<char>| self@.contains_key(k) <==> self.keys().contains(k),
            forall|i: int|
                0 <= i < self.keys().len() ==> self@.contains_key(#[trigger] self.keys()[i]),
    {
        assert forall|i: int| 0 <= i < self.keys().len() implies self@.contains_key(
            #[trigger] self.keys()[i],
        ) by {
            self.lemma_entry(i);
        }
        vstd::seq_lib::seq_to_set_is_finite(self.keys());
        assert(self@.dom() =~= self.keys().to_set());
    }

    /// An empty table.
    pub fn new() -> (table: Self)
        ensures
            table.wf(),
            table@ == Map::<Seq<char>, V::V>::empty(),
            table.keys() == Seq::<Seq<char>>::empty(),
    {
        let table = Table { keys: Vec::new(), values: Vec::new() };
        assert(table.keys() =~= Seq::<Seq<char>>::empty());
        assert(table@ =~= Map::<Seq<char>, V::V>::empty());
        table
    }

    /// The number of keys.
    pub fn len(&self) -> (n: usize)
        requires
            self.wf(),
        ensures
            n == self.keys().len(),
            n == self@.dom().len(),
    {
        proof {
            self.lemma_keys();
            self.keys().unique_seq_to_set();
            assert(self.keys().to_set() =~= self@.dom());
        }
        self.keys.len()
    }

    fn find(&self, key: &String) -> (r: Option<usize>)
        requires
            self.wf(),
        ensures
            match r {
                Some(i) => i < self.keys@.len() && self.keys@[i as int]@ == key@,
                None => forall|i: int| 0 <= i < self.keys@.len() ==> self.keys@[i]@ != key@,
            },
    {
        let mut i: usize = 0;
        while i < self.keys.len()
            invariant
                i <= self.keys@.len(),
                forall|j: int| 0 <= j < i ==> self.keys@[j]@ != key@,
            decreases self.keys@.len() - i,
        {
            if self.keys[i] == *key {
                return Some(i);
            }
            i += 1;
        }
        None
    }

    /// Whether `key` is in the table.
    pub fn contains_key(&self, key: &String) -> (present: bool)
        requires
            self.wf(),
        ensures
            present == self@.contains_key(key@),
    {
        match self.find(key) {
            Some(i) => {
                proof {
                    self.lemma_entry(i as int);
                }
                true
            },
            None => {
                proof {
                    self.lemma_absent(key@);
                }
                false
            },
        }
    }

    /// The value under `key`, if there is one.
    pub fn get(&self, key: &String) -> (value: Option<&V>)
        requires
            self.wf(),
        ensures
            match value {
                Some(v) => self@.contains_key(key@) && v@ == self@[key@],
                None => !self@.contains_key(key@),
            },
    {
        match self.find(key) {
            Some(i) => {
                proof {
                    self.lemma_entry(i as int);
                }
                Some(&self.values[i])
            },
            None => {
                proof {
                    self.lemma_absent(key@);
                }
                None
            },
        }
    }

    /// The key at place `i` in insertion order.
    pub fn key_at(&self, i: usize) -> (key: &String)
        requires
            self.wf(),
            i < self.keys().len(),
        ensures
            key@ == self.keys()[i as int],
    {
        &self.keys[i]
    }

    /// The value of the key at place `i` in insertion order.
    pub fn value_at(&self, i: usize) -> (value: &V)
        requires
            self.wf(),
            i < self.keys().len(),
        ensures
            self@.contains_key(self.keys()[i as int]),
            value@ == self@[self.keys()[i as int]],
    {
        proof {
            self.lemma_entry(i as int);
        }
        &self.values[i]
    }

    /// Puts `value` under `key`. A key that was there keeps its place and
    /// hands back the value it had; a new key goes to the end.
    pub fn insert(&mut self, key: String, value: V) -> (previous: Option<V>)
        requires
            old(self).wf(),
        ensures
            final(self).wf(),
            final(self)@ == old(self)@.insert(key@, value@),
            final(self).keys() == (if old(self)@.contains_key(key@) {
                old(self).keys()
            } else {
                old(self).keys().push(key@)
            }),
            match previous {
                Some(p) => old(self)@.contains_key(key@) && p@ == old(self)@[key@],
                None => !old(self)@.contains_key(key@),
            },
    {
        let found = self.find(&key);
        match found {
            Some(i) => {
                proof {
                    self.lemma_entry(i as int);
                }
                self.values.push(value);
                let previous = self.values.swap_remove(i);
                proof {
                    assert(self.keys() =~= old(self).keys());
                    assert forall|k: Seq<char>| #[trigger]
                        self@.contains_key(k) implies self@[k] == old(self)@.insert(
                        key@,
                        value@,
                    )[k] by {
                        let j = self.keys().index_of(k);
                        assert(0 <= j < self.keys().len() && self.keys()[j] == k);
                        old(self).lemma_entry(j);
                    }
                    assert(self@ =~= old(self)@.insert(key@, value@));
                }
                Some(previous)
            },
            None => {
                proof {
                    self.lemma_absent(key@);
                }
                self.keys.push(key);
                self.values.push(value);
                proof {
                    let n = old(self).keys@.len() as int;
                    assert(self.keys() =~= old(self).keys().push(key@));
                    assert forall|k: Seq<char>| #[trigger]
                        self@.contains_key(k) implies self@[k] == old(self)@.insert(
                        key@,
                        value@,
                    )[k] by {
                        let j = self.keys().index_of(k);
                        assert(0 <= j < self.keys().len() && self.keys()[j] == k);
                        self.lemma_entry(j);
                        if j < n {
                            old(self).lemma_entry(j);
                        }
                    }
                    assert forall|k: Seq<char>| #[trigger]
                        old(self)@.insert(key@, value@).contains_key(k) implies self@.contains_key(
                        k,
                    ) by {
                        if k != key@ {
                            let j = old(self).keys().index_of(k);
                            assert(0 <= j < n && old(self).keys()[j] == k);
                            assert(self.keys()[j] == k);
                        } else {
                            assert(self.keys()[n] == k);
                        }
                    }
                    assert(self@ =~= old(self)@.insert(key@, value@));
                }
                None
            },
        }
    }

    /// Takes `key` out of the table and hands back its value; the other
    /// keys keep their order.
    pub fn remove(&mut self, key: &String) -> (removed: Option<V>)
        requires
            old(self).wf(),
        ensures
            final(self).wf(),
            final(self)@ == old(self)@.remove(key@),
            final(self).keys() == (if old(self)@.contains_key(key@) {
                old(self).keys().remove(old(self).keys().index_of(key@))
            } else {
                old(self).keys()
            }),
            match removed {
                Some(v) => old(self)@.contains_key(key@) && v@ == old(self)@[key@],
                None => !old(self)@.contains_key(key@),
            },
    {
        let found = self.find(key);
        match found {
            Some(i) => {
                proof {
                    self.lemma_entry(i as int);
                }
                self.keys.remove(i);
                let removed = self.values.remove(i);
                proof {
                    let n = old(self).keys@.len() as int;
                    assert(self.keys() =~= old(self).keys().remove(i as int));
                    assert forall|k: Seq<char>| #[trigger]
                        self@.contains_key(k) implies old(self)@.remove(key@).contains_key(k)
                        && self@[k] == old(self)@.remove(key@)[k] by {
                        let j = self.keys().index_of(k);
                        assert(0 <= j < self.keys().len() && self.keys()[j] == k);
                        self.lemma_entry(j);
                        if j < i {
                            old(self).lemma_entry(j);
                        } else {
                            old(self).lemma_entry(j + 1);
                        }
                    }
                    assert forall|k: Seq<char>| #[trigger]
                        old(self)@.remove(key@).contains_key(k) implies self@.contains_key(k) by {
                        let j = old(self).keys().index_of(k);
                        assert(0 <= j < n && old(self).keys()[j] == k);
                        if j < i {
                            assert(self.keys()[j] == k);
                        } else {
                            assert(self.keys()[j - 1] == k);
                        }
                    }
                    assert(self@ =~= old(self)@.remove(key@));
                }
                Some(removed)
            },
            None => {
                proof {
                    self.lemma_absent(key@);
                    assert(self@ =~= old(self)@.remove(key@));
                }
                None
            },
        }
    }

    /// The table of a list of entries, in their order; none where a key
    /// occurs twice.
    pub fn from_entries(entries: Vec<(String, V)>) -> (r: Option<Self>)
        ensures
            r is Some <==> entry_keys(entries@).no_duplicates(),
            match r {
                Some(table) => {
                    &&& table.wf()
                    &&& table.keys() == entry_keys(entries@)
                    &&& table@ == entries_map(entries@)
                },
                None => true,
            },
    {
        let mut rest = entries;
        let mut table: Table<V> = Table { keys: Vec::new(), values: Vec::new() };
        let ghost mut done: int = 0;
        assert(rest@ =~= entries@.subrange(0, entries@.len() as int));
        while rest.len() > 0
            invariant
                table.wf(),
                0 <= done <= entries@.len(),
                rest@ == entries@.subrange(done, entries@.len() as int),
                table.keys@.len() == done,
                forall|i: int| 0 <= i < done ==> table.keys@[i] == entries@[i].0,
                forall|i: int| 0 <= i < done ==> table.values@[i] == entries@[i].1,
            decreases rest.len(),
        {
            let (key, value) = rest.remove(0);
            assert(key == entries@[done].0 && value == entries@[done].1);
            match table.find(&key) {
                Some(j) => {
                    proof {
                        let keys = entry_keys(entries@);
                        assert(keys[j as int] == keys[done]);
                    }
                    return None;
                },
                None => {},
            }
            table.keys.push(key);
            table.values.push(value);
            proof {
                done = done + 1;
            }
        }
        proof {
            assert(table.keys() =~= entry_keys(entries@));
            assert(table@ =~= entries_map(entries@));
        }
        Some(table)
    }

    /// The entries of the table in the order of its keys.
    pub fn into_entries(self) -> (entries: Vec<(String, V)>)
        requires
            self.wf(),
        ensures
            entry_keys(entries@) == self.keys(),
            entries_map(entries@) == self@,
    {
        let mut table = self;
        let mut entries: Vec<(String, V)> = Vec::new();
        assert(table.keys@ =~= self.keys@.subrange(0, self.keys@.len() as int));
        assert(table.values@ =~= self.values@.subrange(0, self.values@.len() as int));
        while table.keys.len() > 0
            invariant
                self.wf(),
                table.keys@.len() == table.values@.len(),
                entries@.len() + table.keys@.len() == self.keys@.len(),
                table.keys@ == self.keys@.subrange(entries@.len() as int, self.keys@.len() as int),
                table.values@ == self.values@.subrange(
                    entries@.len() as int,
                    self.values@.len() as int,
                ),
                forall|i: int| 0 <= i < entries@.len() ==> entries@[i].0 == self.keys@[i],
                forall|i: int| 0 <= i < entries@.len() ==> entries@[i].1 == self.values@[i],
            decreases table.keys@.len(),
        {
            let key = table.keys.remove(0);
            let value = table.values.remove(0);
            entries.push((key, value));
        }
        proof {
            assert(entry_keys(entries@) =~= self.keys());
            assert(entries_map(entries@) =~= self@);
        }
        entries
    }
}

} // verus!
