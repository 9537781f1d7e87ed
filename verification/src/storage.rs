//! The store in which scripts keep values from one request to the next.

use vstd::prelude::*;
use std::sync::{Arc, Mutex, MutexGuard};
use crate::counters::lock;
use crate::keyed::KeyedList;

verus! {

/// A table of values by key. A value is kept as the JSON text that it was
/// serialised to.
pub struct StorageTable {
    list: KeyedList<Vec<u8>>,
}

impl StorageTable {
    /// The table is in order: every key stands in it once.
    pub closed spec fn wf(&self) -> bool {
        self.list.wf()
    }

    /// Whether the table holds a value under `key`.
    pub closed spec fn has(&self, key: Seq<char>) -> bool {
        self.list.has(key)
    }

    /// The value that the table holds under `key`.
    pub closed spec fn value(&self, key: Seq<char>) -> Option<Seq<u8>> {
        if self.list.has(key) {
            Some(self.list.value(key)@)
        } else {
            None
        }
    }

    /// The table that holds nothing.
    pub fn new() -> (r: Self)
        ensures
            r.wf(),
            forall|k: Seq<char>| r.value(k) is None,
    {
        StorageTable { list: KeyedList::new() }
    }

    /// The value kept under `key`, or nothing where there is none.
    pub fn read(&self, key: &str) -> (r: Option<Vec<u8>>)
        requires
            self.wf(),
        ensures
            match r {
                Some(v) => self.value(key@) == Some(v@),
                None => self.value(key@) is None,
            },
    {
        match self.list.position(key) {
            Some(i) => Some(self.list.at(i).clone()),
            None => None,
        }
    }

    /// Keeps `value` under `key`, in the place of what was kept there. What is
    /// kept under other keys stays.
    pub fn write(&mut self, key: &str, value: Vec<u8>)
        requires
            old(self).wf(),
        ensures
            final(self).wf(),
            final(self).value(key@) == Some(value@),
            forall|k: Seq<char>| k != key@ ==> final(self).value(k) == old(self).value(k),
    {
        self.list.put(key, value);
    }
}

/// The guard's `deref_mut`: the table behind the lock. It is in order, since
/// its fields are private and every function that changes it keeps it so.
#[verifier::external_body]
fn guarded<'a, 'b>(guard: &'a mut MutexGuard<'b, StorageTable>) -> (table: &'a mut StorageTable)
    ensures
        table.wf(),
{
    &mut *guard
}

/// A handle to the store of one server. Its clones share one table.
#[derive(Clone)]
pub struct ScriptStorage {
    table: Arc<Mutex<StorageTable>>,
}

impl ScriptStorage {
    /// A handle to a fresh table.
    pub fn new() -> Self {
        ScriptStorage { table: Arc::new(Mutex::new(StorageTable::new())) }
    }

    /// The JSON text kept under `key`, or nothing where there is none.
    pub fn read(&self, key: &str) -> (r: Option<Vec<u8>>) {
        match lock(&self.table) {
            Some(mut guard) => {
                let table = guarded(&mut guard);
                table.read(key)
            },
            None => None,
        }
    }

    /// Keeps the JSON text `value` under `key`. It reports whether that was
    /// done.
    pub fn write(&self, key: &str, value: Vec<u8>) -> (r: bool) {
        match lock(&self.table) {
            Some(mut guard) => {
                let table = guarded(&mut guard);
                table.write(key, value);
                true
            },
            None => false,
        }
    }
}

impl Default for ScriptStorage {
    fn default() -> Self {
        ScriptStorage::new()
    }
}

} // verus!
