//! Named counters that scripts and templates increment.

use vstd::prelude::*;
use std::sync::{Arc, Mutex, MutexGuard};
use crate::keyed::KeyedList;

verus! {

/// The value after `v` for a counter of 64 bits: it wraps to 0 at the end.
pub open spec fn next_count(v: u64) -> u64 {
    if v < u64::MAX {
        (v + 1) as u64
    } else {
        0
    }
}

/// A table of counters by name. A name that was never incremented counts 0.
pub struct CounterTable {
    list: KeyedList<u64>,
}

impl CounterTable {
    /// The table is in order: every name stands in it once.
    pub closed spec fn wf(&self) -> bool {
        self.list.wf()
    }

    /// Whether the table holds a counter named `key`.
    pub closed spec fn has(&self, key: Seq<char>) -> bool {
        self.list.has(key)
    }

    /// The current value of the counter named `key`.
    pub closed spec fn value(&self, key: Seq<char>) -> u64 {
        if self.list.has(key) {
            self.list.value(key)
        } else {
            0
        }
    }

    /// The table in which every counter is 0.
    pub fn new() -> (r: Self)
        ensures
            r.wf(),
            forall|k: Seq<char>| r.value(k) == 0,
    {
        CounterTable { list: KeyedList::new() }
    }

    /// The value of the counter named `key`, which stays as it is.
    pub fn get_or_default(&self, key: &str) -> (r: u64)
        requires
            self.wf(),
        ensures
            r == self.value(key@),
    {
        match self.list.position(key) {
            Some(i) => *self.list.at(i),
            None => 0,
        }
    }

    /// Returns the value of the counter named `key` and then adds one to it.
    /// The other counters stay as they are.
    pub fn get_and_increment(&mut self, key: &str) -> (r: u64)
        requires
            old(self).wf(),
        ensures
            final(self).wf(),
            r == old(self).value(key@),
            final(self).value(key@) == next_count(r),
            forall|k: Seq<char>| k != key@ ==> final(self).value(k) == old(self).value(k),
    {
        let before = self.get_or_default(key);
        let after = match before.checked_add(1) {
            Some(n) => n,
            None => 0,
        };
        self.list.put(key, after);
        before
    }
}

/// The value of a counter that stood at `v` after `n` increments.
pub open spec fn count_after(v: u64, n: nat) -> u64
    decreases n,
{
    if n == 0 {
        v
    } else {
        next_count(count_after(v, (n - 1) as nat))
    }
}

/// An increment makes a counter strictly larger, as long as it has not reached
/// the largest value of 64 bits; there it wraps to 0.
pub proof fn lemma_increment_is_strict(v: u64)
    ensures
        v < u64::MAX ==> next_count(v) > v,
        v == u64::MAX ==> next_count(v) == 0,
{
}

/// After `n` increments a counter that stood at `v` stands at `v + n`, as long
/// as that fits in 64 bits: no increment is lost and none counts twice. A
/// fresh counter stands at `n`.
pub proof fn lemma_increments_add_up(v: u64, n: nat)
    requires
        v + n <= u64::MAX,
    ensures
        count_after(v, n) == v + n,
    decreases n,
{
    if n > 0 {
        lemma_increments_add_up(v, (n - 1) as nat);
    }
}

/// The lock `std::sync::Mutex`. The verifier sees nothing inside it.
#[verifier::external_type_specification]
#[verifier::external_body]
#[verifier::reject_recursive_types(T)]
pub struct ExMutex<T: ?Sized>(Mutex<T>);

/// `std::sync::Mutex::new`: nothing is stated of the lock it returns.
pub assume_specification<T>[ Mutex::<T>::new ](t: T) -> (m: Mutex<T>);

/// The guard of `std::sync::Mutex`, which gives access to what the lock
/// holds. The verifier sees nothing inside it.
#[verifier::external_type_specification]
#[verifier::external_body]
#[verifier::reject_recursive_types(T)]
pub struct ExMutexGuard<'a, T: ?Sized + 'a>(MutexGuard<'a, T>);

/// `Mutex::lock`: the guard, or nothing where the lock is poisoned.
#[verifier::external_body]
pub(crate) fn lock<'a, T>(holder: &'a Mutex<T>) -> Option<MutexGuard<'a, T>> {
    holder.lock().ok()
}

/// The guard's `deref_mut`: the table behind the lock. It is in order, since
/// its fields are private and every function that changes it keeps it so.
#[verifier::external_body]
fn guarded<'a, 'b>(guard: &'a mut MutexGuard<'b, CounterTable>) -> (table: &'a mut CounterTable)
    ensures
        table.wf(),
{
    &mut *guard
}

/// The lock that guards the counters was poisoned by a panic elsewhere.
#[derive(Debug)]
pub struct CounterError {}

/// A handle to the counters of one server. Its clones share one table, so a
/// script that runs for one request sees the increments made for another.
#[derive(Clone)]
pub struct ApateCounters {
    counters: Arc<Mutex<CounterTable>>,
}

impl ApateCounters {
    /// A handle to a fresh table.
    pub fn new() -> Self {
        ApateCounters { counters: Arc::new(Mutex::new(CounterTable::new())) }
    }

    /// The value of the counter named `key`.
    pub fn get_or_default(&self, key: &str) -> (r: Result<u64, CounterError>) {
        match lock(&self.counters) {
            Some(mut guard) => {
                let table = guarded(&mut guard);
                Ok(table.get_or_default(key))
            },
            None => Err(CounterError {  }),
        }
    }

    /// Returns the value of the counter named `key` and then adds one to it,
    /// in one step with respect to the other holders of the table.
    pub fn get_and_increment(&self, key: &str) -> (r: Result<u64, CounterError>) {
        match lock(&self.counters) {
            Some(mut guard) => {
                let table = guarded(&mut guard);
                Ok(table.get_and_increment(key))
            },
            None => Err(CounterError {  }),
        }
    }
}

impl Default for ApateCounters {
    fn default() -> Self {
        ApateCounters::new()
    }
}

} // verus!
