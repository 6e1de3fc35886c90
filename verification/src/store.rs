use vstd::prelude::*;

verus! {

/// A keyed table of records with point lookup, existence check and write.
///
/// The table stands for one class of keys of the registry's record store. Its
/// view is the map from each key's characters to the view of the record kept
/// under it. No key is ever kept twice.
pub struct RecordStore<V> {
    entries: Vec<(String, V)>,
}

impl<V> RecordStore<V> {
    #[verifier::type_invariant]
    spec fn keys_kept_once(&self) -> bool {
        distinct_keys(self.entries@)
    }
}

/// No two entries have the same key.
spec fn distinct_keys<V>(entries: Seq<(String, V)>) -> bool {
    forall|i: int, j: int| 0 <= i < j < entries.len() ==> entries[i].0@ != entries[j].0@
}

/// The keys of the entries, in order.
spec fn key_seq<V>(entries: Seq<(String, V)>) -> Seq<Seq<char>> {
    Seq::new(entries.len(), |i: int| entries[i].0@)
}

/// The map that the entries stand for.
spec fn as_map<V: DeepView>(entries: Seq<(String, V)>) -> Map<Seq<char>, V::V> {
    Map::new(
        |k: Seq<char>| key_seq(entries).contains(k),
        |k: Seq<char>| entries[key_seq(entries).index_of(k)].1.deep_view(),
    )
}

proof fn lemma_entry<V: DeepView>(entries: Seq<(String, V)>, i: int)
    requires
        distinct_keys(entries),
        0 <= i < entries.len(),
    ensures
        as_map(entries).contains_key(entries[i].0@),
        as_map(entries)[entries[i].0@] == entries[i].1.deep_view(),
{
    let keys = key_seq(entries);
    assert(keys[i] == entries[i].0@);
    let j = keys.index_of(entries[i].0@);
    assert(keys[j] == entries[j].0@);
}

proof fn lemma_no_entry<V: DeepView>(entries: Seq<(String, V)>, k: Seq<char>)
    requires
        forall|i: int| 0 <= i < entries.len() ==> entries[i].0@ != k,
    ensures
        !as_map(entries).contains_key(k),
{
    let keys = key_seq(entries);
    if keys.contains(k) {
        let i = keys.index_of(k);
        assert(keys[i] == entries[i].0@);
    }
}

proof fn lemma_key_found<V: DeepView>(entries: Seq<(String, V)>, k: Seq<char>) -> (i: int)
    requires
        as_map(entries).contains_key(k),
    ensures
        0 <= i < entries.len(),
        entries[i].0@ == k,
{
    let keys = key_seq(entries);
    let i = keys.index_of(k);
    assert(keys[i] == entries[i].0@);
    i
}

proof fn lemma_replaced<V: DeepView>(entries: Seq<(String, V)>, i: int, entry: (String, V))
    requires
        distinct_keys(entries),
        0 <= i < entries.len(),
        entry.0@ == entries[i].0@,
    ensures
        distinct_keys(entries.update(i, entry)),
        as_map(entries.update(i, entry)) == as_map(entries).insert(entry.0@, entry.1.deep_view()),
{
    let next = entries.update(i, entry);
    let target = as_map(entries).insert(entry.0@, entry.1.deep_view());
    assert(distinct_keys(next));
    assert forall|q: Seq<char>| #[trigger] as_map(next).contains_key(q) == target.contains_key(q) by {
        if as_map(next).contains_key(q) {
            let j = lemma_key_found(next, q);
            lemma_entry(entries, j);
        }
        if target.contains_key(q) {
            if q == entry.0@ {
                lemma_entry(next, i);
            } else {
                let j = lemma_key_found(entries, q);
                lemma_entry(next, j);
            }
        }
    }
    assert forall|q: Seq<char>| #[trigger] as_map(next).contains_key(q) implies as_map(next)[q]
        == target[q] by {
        let j = lemma_key_found(next, q);
        lemma_entry(next, j);
        lemma_entry(entries, j);
    }
    assert(as_map(next) =~= target);
}

proof fn lemma_appended<V: DeepView>(entries: Seq<(String, V)>, entry: (String, V))
    requires
        distinct_keys(entries),
        forall|i: int| 0 <= i < entries.len() ==> entries[i].0@ != entry.0@,
    ensures
        distinct_keys(entries.push(entry)),
        as_map(entries.push(entry)) == as_map(entries).insert(entry.0@, entry.1.deep_view()),
{
    let next = entries.push(entry);
    let n = entries.len() as int;
    let target = as_map(entries).insert(entry.0@, entry.1.deep_view());
    assert(distinct_keys(next));
    assert forall|q: Seq<char>| #[trigger] as_map(next).contains_key(q) == target.contains_key(q) by {
        if as_map(next).contains_key(q) {
            let j = lemma_key_found(next, q);
            if j < n {
                lemma_entry(entries, j);
            }
        }
        if target.contains_key(q) {
            if q == entry.0@ {
                lemma_entry(next, n);
            } else {
                let j = lemma_key_found(entries, q);
                lemma_entry(next, j);
            }
        }
    }
    assert forall|q: Seq<char>| #[trigger] as_map(next).contains_key(q) implies as_map(next)[q]
        == target[q] by {
        let j = lemma_key_found(next, q);
        lemma_entry(next, j);
        if j < n {
            lemma_entry(entries, j);
        }
    }
    assert(as_map(next) =~= target);
}

proof fn lemma_counted<V: DeepView>(entries: Seq<(String, V)>)
    requires
        distinct_keys(entries),
    ensures
        as_map(entries).dom().finite(),
        as_map(entries).dom().len() == entries.len(),
{
    let keys = key_seq(entries);
    assert(keys.no_duplicates());
    keys.unique_seq_to_set();
    assert(as_map(entries).dom() =~= keys.to_set()) by {
        assert forall|k: Seq<char>|
            as_map(entries).dom().contains(k) <==> keys.to_set().contains(k) by {
            assert(keys.to_set().contains(k) <==> keys.contains(k));
        }
    }
}

impl<V: DeepView> View for RecordStore<V> {
    type V = Map<Seq<char>, V::V>;

    closed spec fn view(&self) -> Map<Seq<char>, V::V> {
        as_map(self.entries@)
    }
}

impl<V: DeepView> RecordStore<V> {
    /// The empty table.
    pub fn new() -> (store: RecordStore<V>)
        ensures
            store@ == Map::<Seq<char>, V::V>::empty(),
    {
        let store = RecordStore { entries: Vec::new() };
        assert(store@ =~= Map::<Seq<char>, V::V>::empty()) by {
            assert forall|k: Seq<char>| !store@.contains_key(k) by {
                lemma_no_entry(store.entries@, k);
            }
        }
        store
    }

    fn position(&self, key: &String) -> (found: Option<usize>)
        ensures
            match found {
                Some(i) => i < self.entries@.len() && self.entries@[i as int].0@ == key@,
                None => forall|i: int| 0 <= i < self.entries@.len() ==> self.entries@[i].0@ != key@,
            },
    {
        let mut i: usize = 0;
        while i < self.entries.len()
            invariant
                i <= self.entries@.len(),
                forall|j: int| 0 <= j < i ==> self.entries@[j].0@ != key@,
            decreases self.entries@.len() - i,
        {
            if self.entries[i].0 == *key {
                return Some(i);
            }
            i = i + 1;
        }
        None
    }

    /// Whether a record is kept under the key.
    pub fn contains_key(&self, key: &String) -> (present: bool)
        ensures
            present == self@.contains_key(key@),
    {
        proof {
            use_type_invariant(self);
        }
        match self.position(key) {
            Some(i) => {
                proof {
                    lemma_entry(self.entries@, i as int);
                }
                true
            },
            None => {
                proof {
                    lemma_no_entry(self.entries@, key@);
                }
                false
            },
        }
    }

    /// The record kept under the key, if there is one.
    pub fn get(&self, key: &String) -> (record: Option<&V>)
        ensures
            match record {
                Some(v) => self@.contains_key(key@) && v.deep_view() == self@[key@],
                None => !self@.contains_key(key@),
            },
    {
        proof {
            use_type_invariant(self);
        }
        match self.position(key) {
            Some(i) => {
                proof {
                    lemma_entry(self.entries@, i as int);
                }
                Some(&self.entries[i].1)
            },
            None => {
                proof {
                    lemma_no_entry(self.entries@, key@);
                }
                None
            },
        }
    }

    /// Writes the record under the key, replacing the one that was there.
    pub fn set(&mut self, key: String, value: V)
        ensures
            final(self)@ == old(self)@.insert(key@, value.deep_view()),
    {
        proof {
            use_type_invariant(&*self);
        }
        let found = self.position(&key);
        let mut entries: Vec<(String, V)> = Vec::new();
        std::mem::swap(&mut entries, &mut self.entries);
        let ghost before = entries@;
        let ghost entry = (key, value);
        match found {
            Some(i) => {
                entries.set(i, (key, value));
                proof {
                    lemma_replaced(before, i as int, entry);
                }
            },
            None => {
                entries.push((key, value));
                proof {
                    lemma_appended(before, entry);
                }
            },
        }
        self.entries = entries;
    }

    /// The number of keys kept.
    pub fn len(&self) -> (count: usize)
        ensures
            self@.dom().finite(),
            count == self@.dom().len(),
    {
        proof {
            use_type_invariant(self);
            lemma_counted(self.entries@);
        }
        self.entries.len()
    }
}

} // verus!
