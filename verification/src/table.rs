//! A small table from 32-byte keys to values.

use crate::bytes::same_bytes;
use vstd::prelude::*;

verus! {

/// No key occurs twice.
pub open spec fn distinct(keys: Seq<[u8; 32]>) -> bool {
    forall|i: int, j: int|
        0 <= i < j < keys.len() ==> (#[trigger] keys[i])@ != (#[trigger] keys[j])@
}

/// The map that two parallel sequences describe; a later entry hides an earlier one.
pub open spec fn pairs<V>(keys: Seq<[u8; 32]>, values: Seq<V>) -> Map<Seq<u8>, V>
    decreases keys.len(),
{
    if keys.len() == 0 {
        Map::empty()
    } else {
        pairs(keys.drop_last(), values.drop_last()).insert(keys.last()@, values.last())
    }
}

/// A table from 32-byte keys to values.
pub struct KeyTable<V> {
    keys: Vec<[u8; 32]>,
    values: Vec<V>,
}

impl<V> View for KeyTable<V> {
    type V = Map<Seq<u8>, V>;

    closed spec fn view(&self) -> Map<Seq<u8>, V> {
        pairs(self.keys@, self.values@)
    }
}

proof fn lemma_pairs<V>(keys: Seq<[u8; 32]>, values: Seq<V>)
    requires
        keys.len() == values.len(),
        distinct(keys),
    ensures
        pairs(keys, values).dom().finite(),
        pairs(keys, values).dom().len() == keys.len(),
        forall|i: int|
            0 <= i < keys.len() ==> pairs(keys, values).dom().contains((#[trigger] keys[i])@)
                && pairs(keys, values)[keys[i]@] == values[i],
        forall|key: Seq<u8>| #[trigger]
            pairs(keys, values).dom().contains(key) ==> exists|i: int|
                0 <= i < keys.len() && (#[trigger] keys[i])@ == key,
    decreases keys.len(),
{
    if keys.len() > 0 {
        let rest = keys.drop_last();
        assert forall|i: int, j: int| 0 <= i < j < rest.len() implies (#[trigger] rest[i])@ != (
        #[trigger] rest[j])@ by {
            assert(rest[i] == keys[i] && rest[j] == keys[j]);
        }
        lemma_pairs(rest, values.drop_last());
        let inner = pairs(rest, values.drop_last());
        let last = keys.len() - 1;
        if inner.dom().contains(keys.last()@) {
            let i = choose|i: int| 0 <= i < rest.len() && (#[trigger] rest[i])@ == keys.last()@;
            assert(keys[i] == rest[i]);
            assert(keys[last] == keys.last());
            assert(false);
        }
        assert(pairs(keys, values).dom() =~= inner.dom().insert(keys.last()@));
        assert forall|i: int| 0 <= i < keys.len() implies pairs(keys, values).dom().contains(
            (#[trigger] keys[i])@,
        ) && pairs(keys, values)[keys[i]@] == values[i] by {
            if i < last {
                assert(rest[i] == keys[i]);
                assert(inner.dom().contains(rest[i]@));
                assert(keys[i]@ != keys[last]@);
            }
        }
        assert forall|key: Seq<u8>| #[trigger]
            pairs(keys, values).dom().contains(key) implies exists|i: int|
            0 <= i < keys.len() && (#[trigger] keys[i])@ == key by {
            if key == keys.last()@ {
                assert(keys[last]@ == key);
            } else {
                assert(inner.dom().contains(key));
                let i = choose|i: int| 0 <= i < rest.len() && (#[trigger] rest[i])@ == key;
                assert(keys[i] == rest[i]);
            }
        }
    }
}

impl<V> KeyTable<V> {
    /// The table is well formed.
    pub closed spec fn wf(&self) -> bool {
        self.keys@.len() == self.values@.len() && distinct(self.keys@)
    }

    /// An empty table.
    pub fn new() -> (table: Self)
        ensures
            table.wf(),
            table@ == Map::<Seq<u8>, V>::empty(),
    {
        KeyTable { keys: Vec::new(), values: Vec::new() }
    }

    /// The number of entries.
    pub fn len(&self) -> (len: usize)
        requires
            self.wf(),
        ensures
            self@.dom().finite(),
            len == self@.dom().len(),
    {
        proof {
            lemma_pairs(self.keys@, self.values@);
        }
        self.keys.len()
    }

    fn position(&self, key: &[u8; 32]) -> (found: Option<usize>)
        requires
            self.wf(),
        ensures
            match found {
                Some(i) => i < self.keys@.len() && self.keys@[i as int]@ == key@,
                None => forall|i: int|
                    0 <= i < self.keys@.len() ==> (#[trigger] self.keys@[i])@ != key@,
            },
    {
        let mut i: usize = 0;
        while i < self.keys.len()
            invariant
                forall|j: int| 0 <= j < i ==> (#[trigger] self.keys@[j])@ != key@,
            decreases self.keys@.len() - i,
        {
            if same_bytes(&self.keys[i], key) {
                return Some(i);
            }
            i = i + 1;
        }
        None
    }

    /// Tells whether a key has an entry.
    pub fn contains(&self, key: &[u8; 32]) -> (contained: bool)
        requires
            self.wf(),
        ensures
            contained == self@.dom().contains(key@),
    {
        proof {
            lemma_pairs(self.keys@, self.values@);
        }
        self.position(key).is_some()
    }

    /// The entry of a key.
    pub fn get(&self, key: &[u8; 32]) -> (value: Option<&V>)
        requires
            self.wf(),
        ensures
            value == (if self@.dom().contains(key@) {
                Some(&self@[key@])
            } else {
                None
            }),
    {
        proof {
            lemma_pairs(self.keys@, self.values@);
        }
        match self.position(key) {
            Some(i) => Some(&self.values[i]),
            None => None,
        }
    }

    /// Sets the entry of a key.
    pub fn set(&mut self, key: [u8; 32], value: V)
        requires
            old(self).wf(),
        ensures
            final(self).wf(),
            final(self)@ == old(self)@.insert(key@, value),
    {
        proof {
            lemma_pairs(self.keys@, self.values@);
        }
        match self.position(&key) {
            Some(i) => {
                self.values.set(i, value);
                proof {
                    lemma_pairs(self.keys@, self.values@);
                    let before = old(self)@;
                    assert forall|k: Seq<u8>| #[trigger]
                        self@.dom().contains(k) implies before.insert(key@, value).dom().contains(k)
                        && self@[k] == before.insert(key@, value)[k] by {
                        let j = choose|j: int|
                            0 <= j < self.keys@.len() && (#[trigger] self.keys@[j])@ == k;
                        assert(self.values@[j] == if j == i {
                            value
                        } else {
                            old(self).values@[j]
                        });
                        assert(old(self).keys@[j]@ == k);
                        if j != i {
                            assert(self.keys@[j]@ != self.keys@[i as int]@);
                        }
                    }
                    assert forall|k: Seq<u8>| #[trigger]
                        before.insert(key@, value).dom().contains(k) implies self@.dom().contains(
                        k,
                    ) by {
                        if k == key@ {
                            assert(self.keys@[i as int]@ == k);
                        } else {
                            assert(before.dom().contains(k));
                            let j = choose|j: int|
                                0 <= j < old(self).keys@.len() && (#[trigger] old(
                                    self,
                                ).keys@[j])@ == k;
                            assert(self.keys@[j]@ == k);
                        }
                    }
                    assert(self@ =~= before.insert(key@, value));
                }
            },
            None => {
                self.keys.push(key);
                self.values.push(value);
                proof {
                    assert(self.keys@.drop_last() =~= old(self).keys@);
                    assert(self.values@.drop_last() =~= old(self).values@);
                    assert forall|i: int, j: int| 0 <= i < j < self.keys@.len() implies (
                    #[trigger] self.keys@[i])@ != (#[trigger] self.keys@[j])@ by {
                        assert(self.keys@[i] == old(self).keys@[i]);
                        if j < old(self).keys@.len() {
                            assert(self.keys@[j] == old(self).keys@[j]);
                        }
                    }
                }
            },
        }
    }

    /// Removes the entry of a key.
    pub fn remove(&mut self, key: &[u8; 32])
        requires
            old(self).wf(),
        ensures
            final(self).wf(),
            final(self)@ == old(self)@.remove(key@),
    {
        proof {
            lemma_pairs(self.keys@, self.values@);
        }
        if let Some(i) = self.position(key) {
            let _ = self.keys.remove(i);
            let _ = self.values.remove(i);
            proof {
                let gone = i as int;
                let was = old(self).keys@;
                assert forall|a: int, b: int| 0 <= a < b < self.keys@.len() implies (
                #[trigger] self.keys@[a])@ != (#[trigger] self.keys@[b])@ by {
                    let a0 = if a < gone {
                        a
                    } else {
                        a + 1
                    };
                    let b0 = if b < gone {
                        b
                    } else {
                        b + 1
                    };
                    assert(self.keys@[a] == was[a0] && self.keys@[b] == was[b0]);
                }
                lemma_pairs(self.keys@, self.values@);
                let before = old(self)@;
                assert forall|k: Seq<u8>| #[trigger]
                    self@.dom().contains(k) implies before.remove(key@).dom().contains(k)
                    && self@[k] == before[k] by {
                    let j = choose|j: int|
                        0 <= j < self.keys@.len() && (#[trigger] self.keys@[j])@ == k;
                    let j0 = if j < gone {
                        j
                    } else {
                        j + 1
                    };
                    assert(was[j0] == self.keys@[j]);
                    assert(old(self).values@[j0] == self.values@[j]);
                    assert(was[j0]@ != was[gone]@);
                }
                assert forall|k: Seq<u8>| #[trigger]
                    before.remove(key@).dom().contains(k) implies self@.dom().contains(k) by {
                    assert(before.dom().contains(k));
                    let j0 = choose|j: int| 0 <= j < was.len() && (#[trigger] was[j])@ == k;
                    let j = if j0 < gone {
                        j0
                    } else {
                        j0 - 1
                    };
                    assert(self.keys@[j] == was[j0]);
                }
                assert(self@ =~= before.remove(key@));
            }
        } else {
            assert(self@ =~= old(self)@.remove(key@));
        }
    }

    /// The keys in the order of the table.
    pub closed spec fn order(&self) -> Seq<Seq<u8>> {
        Seq::new(self.keys@.len(), |i: int| self.keys@[i]@)
    }

    /// The order of the table lists every key once.
    pub proof fn lemma_order(&self)
        requires
            self.wf(),
        ensures
            self.order().no_duplicates(),
            self.order().to_set() == self@.dom(),
            self.order().len() == self@.dom().len(),
    {
        lemma_pairs(self.keys@, self.values@);
        assert forall|key: Seq<u8>| self.order().to_set().contains(key) == self@.dom().contains(
            key,
        ) by {
            if self@.dom().contains(key) {
                let i = choose|i: int| 0 <= i < self.keys@.len() && (#[trigger] self.keys@[i])@ == key;
                assert(self.order()[i] == key);
            }
            if self.order().to_set().contains(key) {
                let i = choose|i: int| 0 <= i < self.order().len() && self.order()[i] == key;
                assert(self.keys@[i]@ == key);
            }
        }
        assert(self.order().to_set() =~= self@.dom());
        assert forall|i: int, j: int| 0 <= i < j < self.order().len() implies self.order()[i]
            != self.order()[j] by {
            assert(self.keys@[i]@ != self.keys@[j]@);
        }
    }

    /// The key at a place of the table, counted from zero.
    pub fn key_at(&self, place: usize) -> (key: [u8; 32])
        requires
            self.wf(),
            place < self.order().len(),
        ensures
            key@ == self.order()[place as int],
    {
        self.keys[place]
    }

    /// The value at a place of the table, counted from zero.
    pub fn value_at(&self, place: usize) -> (value: &V)
        requires
            self.wf(),
            place < self.order().len(),
        ensures
            *value == self@[self.order()[place as int]],
    {
        proof {
            lemma_pairs(self.keys@, self.values@);
            assert(self.keys@[place as int]@ == self.order()[place as int]);
        }
        &self.values[place]
    }
}

} // verus!
