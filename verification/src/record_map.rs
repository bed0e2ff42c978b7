use vstd::prelude::*;
use crate::principal::Principal;

verus! {

/// A key of a durable record: something whose mathematical value decides identity.
pub(crate) trait RecordKey: View + Sized {
    /// Whether two keys name the same record.
    fn same(&self, other: &Self) -> (same: bool)
        ensures
            same == (self@ == other@),
    ;
}

impl RecordKey for Principal {
    fn same(&self, other: &Principal) -> (same: bool) {
        self.key.eq(&other.key)
    }
}

impl RecordKey for u32 {
    fn same(&self, other: &u32) -> (same: bool) {
        *self == *other
    }
}

/// One stored record.
pub(crate) struct Entry<K, V> {
    pub key: K,
    pub value: V,
}

/// A keyed table of records in which every key occurs at most once.
/// Its mathematical value is the map from each key's value to its record's value.
pub(crate) struct RecordMap<K: RecordKey, V: View> {
    entries: Vec<Entry<K, V>>,
}

impl<K: RecordKey, V: View> RecordMap<K, V> {
    /// No key occurs twice. Every constructor establishes this and every method keeps it.
    pub closed spec fn wf(&self) -> bool {
        forall|i: int, j: int|
            0 <= i < self.entries@.len() && 0 <= j < self.entries@.len() && i != j
                ==> (#[trigger] self.entries@[i]).key@ != (#[trigger] self.entries@[j]).key@
    }

    spec fn holds_at(&self, i: int, key: K::V) -> bool {
        0 <= i < self.entries@.len() && self.entries@[i].key@ == key
    }

    pub closed spec fn view(&self) -> Map<K::V, V::V> {
        Map::new(
            |key: K::V| exists|i: int| self.holds_at(i, key),
            |key: K::V| self.entries@[choose|i: int| self.holds_at(i, key)].value@,
        )
    }

    /// The empty table.
    pub fn new() -> (table: Self)
        ensures
            table.wf(),
            table@ == Map::<K::V, V::V>::empty(),
    {
        let table = RecordMap { entries: Vec::new() };
        assert(table@ =~= Map::<K::V, V::V>::empty());
        table
    }

    fn index_of(&self, key: &K) -> (found: Option<usize>)
        ensures
            match found {
                Some(i) => self.holds_at(i as int, key@),
                None => forall|j: int| !self.holds_at(j, key@),
            },
    {
        let mut i: usize = 0;
        while i < self.entries.len()
            invariant
                i <= self.entries.len(),
                forall|j: int| 0 <= j < i ==> !self.holds_at(j, key@),
            decreases self.entries.len() - i,
        {
            if self.entries[i].key.same(key) {
                return Some(i);
            }
            i += 1;
        }
        None
    }

    proof fn lemma_view_at(&self, i: int, key: K::V)
        requires
            self.wf(),
            self.holds_at(i, key),
        ensures
            self@.contains_key(key),
            self@[key] == self.entries@[i].value@,
    {
        let c = choose|j: int| self.holds_at(j, key);
        assert(self.holds_at(c, key));
        assert(c == i);
    }

    /// The record stored under `key`, if there is one.
    pub fn get(&self, key: &K) -> (found: Option<&V>)
        requires
            self.wf(),
        ensures
            match found {
                Some(value) => self@.contains_key(key@) && self@[key@] == value@,
                None => !self@.contains_key(key@),
            },
    {
        match self.index_of(key) {
            Some(i) => {
                proof {
                    self.lemma_view_at(i as int, key@);
                }
                Some(&self.entries[i].value)
            },
            None => None,
        }
    }

    /// Whether a record is stored under `key`.
    pub fn contains_key(&self, key: &K) -> (found: bool)
        requires
            self.wf(),
        ensures
            found == self@.contains_key(key@),
    {
        self.index_of(key).is_some()
    }

    /// Stores `value` under `key`, replacing the record that was there.
    pub fn insert(&mut self, key: K, value: V)
        requires
            old(self).wf(),
        ensures
            final(self).wf(),
            final(self)@ == old(self)@.insert(key@, value@),
    {
        let ghost before = *self;
        let ghost at: int;
        match self.index_of(&key) {
            Some(i) => {
                proof {
                    at = i as int;
                }
                self.entries.set(i, Entry { key, value });
            },
            None => {
                proof {
                    at = before.entries@.len() as int;
                }
                self.entries.push(Entry { key, value });
            },
        }
        proof {
            let after = *self;
            let wanted = before@.insert(key@, value@);
            assert(after.holds_at(at, key@));
            assert forall|j: int, k: K::V| k != key@ implies after.holds_at(j, k) == before.holds_at(j, k) by {}
            assert forall|j: int| after.holds_at(j, key@) implies j == at by {
                if j != at {
                    assert(before.holds_at(j, key@));
                }
            }
            assert(after.wf()) by {
                assert forall|i: int, j: int|
                    0 <= i < after.entries@.len() && 0 <= j < after.entries@.len() && i != j
                    implies (#[trigger] after.entries@[i]).key@ != (#[trigger] after.entries@[j]).key@ by {
                    if after.entries@[i].key@ == after.entries@[j].key@ {
                        let k = after.entries@[i].key@;
                        assert(after.holds_at(i, k) && after.holds_at(j, k));
                        if k != key@ {
                            assert(before.holds_at(i, k) && before.holds_at(j, k));
                        }
                    }
                }
            }
            assert forall|k: K::V| after@.contains_key(k) == wanted.contains_key(k) by {
                if after@.contains_key(k) && k != key@ {
                    let j = choose|j: int| after.holds_at(j, k);
                    assert(before.holds_at(j, k));
                }
                if wanted.contains_key(k) && k != key@ {
                    let j = choose|j: int| before.holds_at(j, k);
                    assert(after.holds_at(j, k));
                }
            }
            assert forall|k: K::V| after@.contains_key(k) implies after@[k] == wanted[k] by {
                let j = choose|j: int| after.holds_at(j, k);
                after.lemma_view_at(j, k);
                if k != key@ {
                    assert(before.holds_at(j, k));
                    before.lemma_view_at(j, k);
                }
            }
            assert(after@ =~= wanted);
        }
    }
}

} // verus!
