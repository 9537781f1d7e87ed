//! A list of values by key, in which every key stands once.

use vstd::prelude::*;
use crate::text::str_eq;

verus! {

/// Values by key, in the order in which their keys came. The value of a key
/// stands in `values` at the index at which the key stands in `keys`.
pub struct KeyedList<V> {
    pub keys: Vec<String>,
    pub values: Vec<V>,
}

impl<V> KeyedList<V> {
    /// The list is in order: it has a value for each key, and every key
    /// stands in it once.
    pub open spec fn wf(&self) -> bool {
        &&& self.keys@.len() == self.values@.len()
        &&& forall|i: int, j: int|
            0 <= i < j < self.keys@.len() ==> (#[trigger] self.keys@[i])@ != (#[trigger] self.keys@[j])@
    }

    /// Whether the list holds a value under `key`.
    pub open spec fn has(&self, key: Seq<char>) -> bool {
        exists|i: int| 0 <= i < self.keys@.len() && (#[trigger] self.keys@[i])@ == key
    }

    /// The index at which `key` stands.
    pub open spec fn slot_of(&self, key: Seq<char>) -> int {
        choose|i: int| 0 <= i < self.keys@.len() && (#[trigger] self.keys@[i])@ == key
    }

    /// The value that the list holds under `key`.
    pub open spec fn value(&self, key: Seq<char>) -> V {
        self.values@[self.slot_of(key)]
    }

    /// A key that stands at an index is the key of that index.
    pub proof fn lemma_slot(&self, i: int)
        requires
            self.wf(),
            0 <= i < self.keys@.len(),
        ensures
            self.has(self.keys@[i]@),
            self.slot_of(self.keys@[i]@) == i,
    {
        let key = self.keys@[i]@;
        assert(self.keys@[i]@ == key);
        let c = choose|c: int| 0 <= c < self.keys@.len() && (#[trigger] self.keys@[c])@ == key;
        assert(c == i);
    }

    /// The list that holds nothing.
    pub fn new() -> (r: Self)
        ensures
            r.wf(),
            r.keys@.len() == 0,
            r.values@.len() == 0,
            forall|k: Seq<char>| !r.has(k),
    {
        KeyedList { keys: Vec::new(), values: Vec::new() }
    }

    /// The number of keys.
    pub fn len(&self) -> (r: usize)
        ensures
            r == self.keys@.len(),
    {
        self.keys.len()
    }

    /// Whether the list holds nothing.
    pub fn is_empty(&self) -> (r: bool)
        ensures
            r == (self.keys@.len() == 0),
    {
        self.keys.len() == 0
    }

    /// The index at which `key` stands, if it does.
    pub fn position(&self, key: &str) -> (r: Option<usize>)
        requires
            self.wf(),
        ensures
            match r {
                Some(i) => i < self.keys@.len() && self.keys@[i as int]@ == key@ && self.has(key@)
                    && self.slot_of(key@) == i,
                None => !self.has(key@),
            },
    {
        let mut i: usize = 0;
        while i < self.keys.len()
            invariant
                self.wf(),
                i <= self.keys@.len(),
                forall|j: int| 0 <= j < i ==> (#[trigger] self.keys@[j])@ != key@,
            decreases self.keys.len() - i,
        {
            if str_eq(self.keys[i].as_str(), key) {
                proof {
                    self.lemma_slot(i as int);
                }
                return Some(i);
            }
            i += 1;
        }
        None
    }

    /// The value at an index.
    pub fn at(&self, i: usize) -> (r: &V)
        requires
            self.wf(),
            i < self.keys@.len(),
        ensures
            *r == self.values@[i as int],
    {
        &self.values[i]
    }

    /// The key at an index.
    pub fn key_at(&self, i: usize) -> (r: &String)
        requires
            i < self.keys@.len(),
        ensures
            *r == self.keys@[i as int],
    {
        &self.keys[i]
    }

    /// Puts `value` in the place of the value at an index. The keys stay.
    pub fn set_at(&mut self, i: usize, value: V)
        requires
            old(self).wf(),
            i < old(self).keys@.len(),
        ensures
            final(self).wf(),
            final(self).keys == old(self).keys,
            final(self).values@ == old(self).values@.update(i as int, value),
            forall|k: Seq<char>| final(self).has(k) == old(self).has(k),
            forall|k: Seq<char>| final(self).slot_of(k) == old(self).slot_of(k),
    {
        self.values.set(i, value);
    }

    /// Keeps `value` under `key`, in the place of what was kept there; a new
    /// key goes to the end. The index of the key is handed out. What is kept
    /// under other keys stays where it is.
    pub fn put(&mut self, key: &str, value: V) -> (slot: usize)
        requires
            old(self).wf(),
        ensures
            final(self).wf(),
            slot < final(self).keys@.len(),
            final(self).keys@[slot as int]@ == key@,
            final(self).values@[slot as int] == value,
            final(self).has(key@),
            final(self).slot_of(key@) == slot,
            final(self).value(key@) == value,
            old(self).has(key@) ==> slot == old(self).slot_of(key@) && final(self).keys == old(
                self,
            ).keys && final(self).values@ == old(self).values@.update(slot as int, value),
            !old(self).has(key@) ==> slot == old(self).keys@.len() && final(self).keys@.drop_last()
                == old(self).keys@ && final(self).values@ == old(self).values@.push(value),
            forall|k: Seq<char>| k != key@ ==> final(self).has(k) == old(self).has(k),
            forall|k: Seq<char>|
                k != key@ && old(self).has(k) ==> final(self).slot_of(k) == old(self).slot_of(k)
                    && final(self).value(k) == old(self).value(k),
    {
        match self.position(key) {
            Some(i) => {
                self.values.set(i, value);
                i
            },
            None => {
                self.keys.push(key.to_owned());
                self.values.push(value);
                let slot = self.keys.len() - 1;
                proof {
                    assert(self.keys@.drop_last() =~= old(self).keys@);
                    assert(self.keys@[slot as int]@ == key@);
                    assert forall|i: int, j: int| 0 <= i < j < self.keys@.len() implies (
                    #[trigger] self.keys@[i])@ != (#[trigger] self.keys@[j])@ by {
                        assert(self.keys@[i] == old(self).keys@[i]);
                        if j < slot {
                            assert(self.keys@[j] == old(self).keys@[j]);
                        }
                    }
                    self.lemma_slot(slot as int);
                    assert forall|k: Seq<char>| k != key@ implies self.has(k) == old(self).has(
                        k,
                    ) by {
                        if old(self).has(k) {
                            let d = old(self).slot_of(k);
                            assert(self.keys@[d] == old(self).keys@[d]);
                        }
                        if self.has(k) {
                            let e = self.slot_of(k);
                            assert(e < slot);
                            assert(self.keys@[e] == old(self).keys@[e]);
                        }
                    }
                    assert forall|k: Seq<char>| k != key@ && old(self).has(k) implies self.slot_of(
                        k,
                    ) == old(self).slot_of(k) && self.value(k) == old(self).value(k) by {
                        let d = old(self).slot_of(k);
                        assert(self.keys@[d] == old(self).keys@[d]);
                        self.lemma_slot(d);
                    }
                }
                slot
            },
        }
    }

    /// Forgets every key and value.
    pub fn clear(&mut self)
        ensures
            final(self).wf(),
            final(self).keys@.len() == 0,
            final(self).values@.len() == 0,
            forall|k: Seq<char>| !final(self).has(k),
    {
        self.keys = Vec::new();
        self.values = Vec::new();
    }
}

} // verus!
