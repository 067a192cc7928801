//! An insertion-ordered table from text keys to values.

use vstd::prelude::*;

verus! {

/// The map that parallel sequences of distinct keys and of values stand for.
pub open spec fn table_map<T>(keys: Seq<Seq<char>>, values: Seq<T>) -> Map<Seq<char>, T> {
    Map::new(|k: Seq<char>| keys.contains(k), |k: Seq<char>| values[keys.index_of(k)])
}

/// In a sequence without duplicates, an element is found at its own index.
pub proof fn lemma_index_of_unique<T>(s: Seq<T>, i: int)
    requires
        s.no_duplicates(),
        0 <= i < s.len(),
    ensures
        s.contains(s[i]),
        s.index_of(s[i]) == i,
{
    let j = s.index_of(s[i]);
    assert(0 <= j < s.len() && s[j] == s[i]);
}

/// The entry at index `i` of a table is what the table maps `keys[i]` to.
pub proof fn lemma_table_map_at<T>(keys: Seq<Seq<char>>, values: Seq<T>, i: int)
    requires
        keys.no_duplicates(),
        0 <= i < keys.len(),
    ensures
        table_map(keys, values).contains_key(keys[i]),
        table_map(keys, values)[keys[i]] == values[i],
{
    lemma_index_of_unique(keys, i);
}

/// Appending an entry under a fresh key inserts it into the map.
pub proof fn lemma_table_map_push<T>(keys: Seq<Seq<char>>, values: Seq<T>, k: Seq<char>, v: T)
    requires
        keys.no_duplicates(),
        keys.len() == values.len(),
        !keys.contains(k),
    ensures
        keys.push(k).no_duplicates(),
        table_map(keys.push(k), values.push(v)) == table_map(keys, values).insert(k, v),
{
    let keys2 = keys.push(k);
    let values2 = values.push(v);
    assert forall|i: int, j: int| 0 <= i < keys2.len() && 0 <= j < keys2.len() && i != j implies keys2[i] != keys2[j] by {
        if i < keys.len() && j < keys.len() {
        } else if i < keys.len() {
            assert(keys.contains(keys[i]));
        } else {
            assert(keys.contains(keys[j]));
        }
    }
    assert forall|q: Seq<char>| keys2.contains(q) <==> (q == k || keys.contains(q)) by {
        if keys2.contains(q) {
            let i = keys2.index_of(q);
            assert(keys2[i] == q);
            if i < keys.len() {
                assert(keys[i] == q);
            }
        }
        if keys.contains(q) {
            let i = keys.index_of(q);
            assert(keys2[i] == q);
        }
        if q == k {
            assert(keys2[keys.len() as int] == q);
        }
    }
    assert forall|q: Seq<char>| keys2.contains(q) implies #[trigger] table_map(keys2, values2)[q]
        == table_map(keys, values).insert(k, v)[q] by {
        let i = keys2.index_of(q);
        assert(keys2[i] == q);
        lemma_index_of_unique(keys2, i);
        if i < keys.len() {
            assert(keys[i] == q);
            lemma_index_of_unique(keys, i);
        }
    }
    assert(table_map(keys2, values2) =~= table_map(keys, values).insert(k, v));
}

/// Replacing the value at index `i` re-maps `keys[i]` and nothing else.
pub proof fn lemma_table_map_update<T>(keys: Seq<Seq<char>>, values: Seq<T>, i: int, v: T)
    requires
        keys.no_duplicates(),
        keys.len() == values.len(),
        0 <= i < keys.len(),
    ensures
        table_map(keys, values.update(i, v)) == table_map(keys, values).insert(keys[i], v),
{
    let values2 = values.update(i, v);
    lemma_index_of_unique(keys, i);
    assert forall|q: Seq<char>| keys.contains(q) implies #[trigger] table_map(keys, values2)[q]
        == table_map(keys, values).insert(keys[i], v)[q] by {
        let j = keys.index_of(q);
        assert(keys[j] == q);
    }
    assert(table_map(keys, values2) =~= table_map(keys, values).insert(keys[i], v));
}

/// A table from text keys to values that remembers the order in which its
/// keys were first inserted. Keys are compared by their characters.
pub struct Table<V> {
    names: Vec<String>,
    slots: Vec<V>,
}

impl<V: View> View for Table<V> {
    type V = Map<Seq<char>, V::V>;

    open spec fn view(&self) -> Map<Seq<char>, V::V> {
        table_map(self.keys(), self.values())
    }
}

impl<V: View> Table<V> {
    /// The keys, in the order of their first insertion.
    pub closed spec fn keys(&self) -> Seq<Seq<char>> {
        Seq::new(self.names@.len(), |i: int| self.names@[i]@)
    }

    /// The values, each at the index of its key.
    pub closed spec fn values(&self) -> Seq<V::V> {
        Seq::new(self.slots@.len(), |i: int| self.slots@[i]@)
    }

    /// No key occurs twice, and every key has its value.
    pub closed spec fn well_formed(&self) -> bool {
        &&& self.names@.len() == self.slots@.len()
        &&& self.keys().no_duplicates()
    }

    /// An empty table.
    pub fn new() -> (t: Self)
        ensures
            t.well_formed(),
            t.keys() == Seq::<Seq<char>>::empty(),
            t@ == Map::<Seq<char>, V::V>::empty(),
    {
        let t = Table { names: Vec::new(), slots: Vec::new() };
        assert(t.keys() =~= Seq::<Seq<char>>::empty());
        assert(t@ =~= Map::<Seq<char>, V::V>::empty());
        t
    }

    /// The number of keys.
    pub fn len(&self) -> (n: usize)
        requires
            self.well_formed(),
        ensures
            n == self.keys().len(),
    {
        self.names.len()
    }

    /// The index of `key`, if the table holds it.
    pub fn position(&self, key: &String) -> (r: Option<usize>)
        requires
            self.well_formed(),
        ensures
            match r {
                Some(i) => i < self.keys().len() && self.keys()[i as int] == key@,
                None => !self.keys().contains(key@),
            },
    {
        let mut i: usize = 0;
        while i < self.names.len()
            invariant
                i <= self.names@.len(),
                forall|j: int| 0 <= j < i ==> self.keys()[j] != key@,
            decreases self.names@.len() - i,
        {
            if self.names[i] == *key {
                return Some(i);
            }
            i = i + 1;
        }
        None
    }

    /// Whether the table holds `key`.
    pub fn contains(&self, key: &String) -> (b: bool)
        requires
            self.well_formed(),
        ensures
            b == self@.contains_key(key@),
    {
        self.position(key).is_some()
    }

    /// The value under `key`, if the table holds it.
    pub fn get(&self, key: &String) -> (r: Option<&V>)
        requires
            self.well_formed(),
        ensures
            match r {
                Some(v) => self@.contains_key(key@) && v@ == self@[key@],
                None => !self@.contains_key(key@),
            },
    {
        match self.position(key) {
            Some(i) => {
                proof {
                    lemma_table_map_at(self.keys(), self.values(), i as int);
                }
                Some(&self.slots[i])
            },
            None => None,
        }
    }

    /// The value at index `i`, which is the value of the key at that index.
    pub fn value_at(&self, i: usize) -> (v: &V)
        requires
            self.well_formed(),
            i < self.keys().len(),
        ensures
            v@ == self.values()[i as int],
            v@ == self@[self.keys()[i as int]],
    {
        proof {
            lemma_table_map_at(self.keys(), self.values(), i as int);
        }
        &self.slots[i]
    }

    /// Maps `key` to `value`: in place if the table holds the key, else as a
    /// new last entry.
    pub fn insert(&mut self, key: String, value: V)
        requires
            old(self).well_formed(),
        ensures
            final(self).well_formed(),
            final(self)@ == old(self)@.insert(key@, value@),
            final(self).keys() == if old(self)@.contains_key(key@) {
                old(self).keys()
            } else {
                old(self).keys().push(key@)
            },
    {
        let ghost keys0 = self.keys();
        let ghost values0 = self.values();
        match self.position(&key) {
            Some(i) => {
                self.slots.set(i, value);
                proof {
                    assert(self.keys() =~= keys0);
                    assert(self.values() =~= values0.update(i as int, value@));
                    lemma_table_map_update(keys0, values0, i as int, value@);
                    lemma_table_map_at(keys0, values0, i as int);
                }
            },
            None => {
                self.names.push(key);
                self.slots.push(value);
                proof {
                    assert(self.keys() =~= keys0.push(key@));
                    assert(self.values() =~= values0.push(value@));
                    lemma_table_map_push(keys0, values0, key@, value@);
                }
            },
        }
    }
}

} // verus!
