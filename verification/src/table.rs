//! A small map under pairs of texts.
use vstd::prelude::*;

verus! {

/// What two keys have in common that are the same key.
pub type KeyText = (Seq<char>, Seq<char>);

/// A key, as text.
pub open spec fn key_text(key: (String, String)) -> KeyText {
    (key.0@, key.1@)
}

fn same_key(left: &(String, String), right: &(String, String)) -> (same: bool)
    ensures
        same == (key_text(*left) == key_text(*right)),
{
    left.0 == right.0 && left.1 == right.1
}

/// Values filed under pairs of texts, each pair at most once.
pub struct Table<V> {
    entries: Vec<((String, String), V)>,
}

impl<V> Table<V> {
    /// The keys, in the order in which they were first filed.
    pub closed spec fn keys(self) -> Seq<KeyText> {
        self.entries@.map_values(|entry: ((String, String), V)| key_text(entry.0))
    }

    /// The values, in the order of their keys.
    pub closed spec fn values(self) -> Seq<V> {
        self.entries@.map_values(|entry: ((String, String), V)| entry.1)
    }

    /// No key occurs twice.
    pub open spec fn well_formed(self) -> bool {
        &&& self.keys().no_duplicates()
        &&& self.keys().len() == self.values().len()
    }
}

impl<V> View for Table<V> {
    type V = Map<KeyText, V>;

    open spec fn view(&self) -> Map<KeyText, V> {
        Map::new(
            |key: KeyText| self.keys().contains(key),
            |key: KeyText| self.values()[self.keys().index_of(key)],
        )
    }
}

/// A key that stands at `at` is filed with the value that stands there.
proof fn lemma_filed<V>(map: Table<V>, at: int)
    requires
        map.well_formed(),
        0 <= at < map.keys().len(),
    ensures
        map@.contains_key(map.keys()[at]),
        map@[map.keys()[at]] == map.values()[at],
        map.keys().index_of(map.keys()[at]) == at,
{
    let key = map.keys()[at];
    assert(map.keys().contains(key));
    let found = map.keys().index_of(key);
    assert(map.keys()[found] == key);
}

impl<V> Table<V> {
    pub fn new() -> (map: Table<V>)
        ensures
            map.well_formed(),
            map@ == Map::<KeyText, V>::empty(),
            map.keys() == Seq::<KeyText>::empty(),
            map.values() == Seq::<V>::empty(),
    {
        let map = Table { entries: Vec::new() };
        proof {
            assert(map.keys() =~= Seq::<KeyText>::empty());
            assert(map.values() =~= Seq::<V>::empty());
            assert(map@ =~= Map::<KeyText, V>::empty());
        }
        map
    }

    /// How many keys are filed.
    pub fn len(&self) -> (count: usize)
        ensures
            count == self.keys().len(),
            self.well_formed() ==> self@.dom().finite() && self@.dom().len() == count,
    {
        proof {
            if self.well_formed() {
                self.keys().unique_seq_to_set();
                assert(self@.dom() =~= self.keys().to_set());
            }
        }
        self.entries.len()
    }

    /// The entry that was filed as number `at`.
    pub fn entry(&self, at: usize) -> (entry: (&(String, String), &V))
        requires
            at < self.keys().len(),
        ensures
            key_text(*entry.0) == self.keys()[at as int],
            *entry.1 == self.values()[at as int],
    {
        (&self.entries[at].0, &self.entries[at].1)
    }

    fn position(&self, key: &(String, String)) -> (found: Option<usize>)
        requires
            self.well_formed(),
        ensures
            match found {
                Some(at) => {
                    &&& at < self.entries@.len()
                    &&& self.keys()[at as int] == key_text(*key)
                    &&& self@.contains_key(key_text(*key))
                    &&& self@[key_text(*key)] == self.entries@[at as int].1
                },
                None => !self@.contains_key(key_text(*key)) && !self.keys().contains(key_text(*key)),
            },
    {
        let mut i: usize = 0;
        while i < self.entries.len()
            invariant
                self.well_formed(),
                i <= self.entries@.len(),
                forall|j: int| 0 <= j < i ==> #[trigger] self.keys()[j] != key_text(*key),
            decreases self.entries@.len() - i,
        {
            if same_key(&self.entries[i].0, key) {
                proof {
                    lemma_filed(*self, i as int);
                }
                return Some(i);
            }
            i = i + 1;
        }
        proof {
            if self.keys().contains(key_text(*key)) {
                let at = self.keys().index_of(key_text(*key));
                assert(self.keys()[at] == key_text(*key));
            }
        }
        None
    }

    pub fn contains_key(&self, key: &(String, String)) -> (held: bool)
        requires
            self.well_formed(),
        ensures
            held == self@.contains_key(key_text(*key)),
            held == self.keys().contains(key_text(*key)),
    {
        self.position(key).is_some()
    }

    pub fn get(&self, key: &(String, String)) -> (value: Option<&V>)
        requires
            self.well_formed(),
        ensures
            value is Some == self@.contains_key(key_text(*key)),
            value is Some ==> *value->0 == self@[key_text(*key)],
    {
        match self.position(key) {
            Some(at) => Some(&self.entries[at].1),
            None => None,
        }
    }

    /// Files `value` under `key`, in place of what stood there.
    pub fn insert(&mut self, key: (String, String), value: V)
        requires
            old(self).well_formed(),
        ensures
            final(self).well_formed(),
            final(self)@ == old(self)@.insert(key_text(key), value),
            final(self).keys() == (if old(self).keys().contains(key_text(key)) {
                old(self).keys()
            } else {
                old(self).keys().push(key_text(key))
            }),
            forall|i: int|
                0 <= i < old(self).keys().len() && old(self).keys()[i] != key_text(key) ==> final(self).values()[i] == #[trigger] old(self).values()[i],
            forall|i: int|
                0 <= i < final(self).keys().len() && final(self).keys()[i] == key_text(key)
                    ==> #[trigger] final(self).values()[i] == value,
    {
        let ghost before = *self;
        let ghost filed = key_text(key);
        let ghost stored = value;
        match self.position(&key) {
            Some(at) => {
                self.entries.set(at, (key, value));
                proof {
                    assert(self.keys() =~= before.keys());
                    assert(self.values() =~= before.values().update(at as int, stored));
                    lemma_filed(before, at as int);
                    lemma_filed(*self, at as int);
                    assert forall|other: KeyText|
                        #[trigger] before.keys().contains(other) && other != filed implies self.values()[self.keys().index_of(
                        other,
                    )] == before.values()[before.keys().index_of(other)] by {
                        let found = before.keys().index_of(other);
                        assert(before.keys()[found] == other);
                    }
                    assert(self@ =~= before@.insert(filed, stored));
                }
            },
            None => {
                self.entries.push((key, value));
                proof {
                    assert(self.keys() =~= before.keys().push(filed));
                    assert(self.values() =~= before.values().push(stored));
                    assert forall|i: int, j: int|
                        0 <= i < self.keys().len() && 0 <= j < self.keys().len() && i
                            != j implies self.keys()[i] != self.keys()[j] by {
                        if i < before.keys().len() {
                            assert(before.keys().contains(before.keys()[i]));
                        }
                        if j < before.keys().len() {
                            assert(before.keys().contains(before.keys()[j]));
                        }
                    }
                    assert(self.well_formed());
                    lemma_filed(*self, before.keys().len() as int);
                    assert forall|other: KeyText| #[trigger]
                        before.keys().contains(other) implies self.keys().contains(other)
                        && self.values()[self.keys().index_of(other)]
                        == before.values()[before.keys().index_of(other)] by {
                        let found = before.keys().index_of(other);
                        assert(self.keys()[found] == other);
                        lemma_filed(*self, found);
                    }
                    assert forall|other: KeyText| #[trigger]
                        self.keys().contains(other) implies other == filed
                        || before.keys().contains(other) by {
                        let found = self.keys().index_of(other);
                        if found < before.keys().len() {
                            assert(before.keys()[found] == other);
                        }
                    }
                    assert(self@ =~= before@.insert(filed, stored));
                }
            },
        }
    }

    /// Takes the entry of `key` out.
    pub fn take(&mut self, key: &(String, String)) -> (value: Option<V>)
        requires
            old(self).well_formed(),
        ensures
            final(self).well_formed(),
            final(self)@ == old(self)@.remove(key_text(*key)),
            value is Some == old(self)@.contains_key(key_text(*key)),
            value is Some ==> value->0 == old(self)@[key_text(*key)],
            final(self).keys().len() == old(self).keys().len() - (if value is Some {
                1int
            } else {
                0
            }),
    {
        let ghost before = *self;
        match self.position(key) {
            Some(at) => {
                let (_, value) = self.entries.remove(at);
                proof {
                    let keys = before.keys();
                    assert(self.keys() =~= keys.remove(at as int));
                    assert(self.values() =~= before.values().remove(at as int));
                    assert forall|i: int, j: int|
                        0 <= i < self.keys().len() && 0 <= j < self.keys().len() && i
                            != j implies self.keys()[i] != self.keys()[j] by {
                        let from_i = if i < at {
                            i
                        } else {
                            i + 1
                        };
                        let from_j = if j < at {
                            j
                        } else {
                            j + 1
                        };
                        assert(self.keys()[i] == keys[from_i]);
                        assert(self.keys()[j] == keys[from_j]);
                    }
                    assert(self.well_formed());
                    assert forall|other: KeyText| #[trigger]
                        self.keys().contains(other) implies keys.contains(other) && other != key_text(*key)
                        && self.values()[self.keys().index_of(other)]
                        == before.values()[keys.index_of(other)] by {
                        let found = self.keys().index_of(other);
                        let from = if found < at {
                            found
                        } else {
                            found + 1
                        };
                        assert(keys[from] == other);
                        lemma_filed(before, from);
                    }
                    assert forall|other: KeyText| #[trigger]
                        keys.contains(other) && other != key_text(*key) implies self.keys().contains(other) by {
                        let found = keys.index_of(other);
                        let to = if found < at {
                            found
                        } else {
                            found - 1
                        };
                        assert(self.keys()[to] == other);
                    }
                    assert(self@ =~= before@.remove(key_text(*key)));
                }
                Some(value)
            },
            None => {
                proof {
                    assert(self@ =~= before@.remove(key_text(*key)));
                }
                None
            },
        }
    }

    pub fn clear(&mut self)
        ensures
            final(self).well_formed(),
            final(self)@ == Map::<KeyText, V>::empty(),
            final(self).keys() == Seq::<KeyText>::empty(),
            final(self).values() == Seq::<V>::empty(),
    {
        self.entries.clear();
        proof {
            assert(self.keys() =~= Seq::<KeyText>::empty());
            assert(self.values() =~= Seq::<V>::empty());
            assert(self@ =~= Map::<KeyText, V>::empty());
        }
    }
}

} // verus!
