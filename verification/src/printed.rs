//! What scripts print and debug while they run, kept for whoever logs.

use vstd::prelude::*;
use std::sync::{Arc, Mutex, MutexGuard};
use crate::counters::lock;
use crate::request::strings_view;

verus! {

/// The lines that were printed since they were last taken, in their order.
pub struct PrintedLines {
    lines: Vec<String>,
}

impl PrintedLines {
    /// The texts of the lines.
    pub closed spec fn texts(&self) -> Seq<Seq<char>> {
        strings_view(self.lines@)
    }

    /// No lines.
    pub fn new() -> (r: Self)
        ensures
            r.texts().len() == 0,
    {
        PrintedLines { lines: Vec::new() }
    }

    /// Adds a line after those that are there.
    pub fn add(&mut self, line: &str)
        ensures
            final(self).texts() == old(self).texts().push(line@),
    {
        self.lines.push(line.to_owned());
        assert(strings_view(self.lines@) =~= strings_view(old(self).lines@).push(line@));
    }

    /// Hands out the lines and forgets them.
    pub fn take(&mut self) -> (r: Vec<String>)
        ensures
            strings_view(r@) == old(self).texts(),
            final(self).texts().len() == 0,
    {
        let mut taken: Vec<String> = Vec::new();
        std::mem::swap(&mut taken, &mut self.lines);
        taken
    }
}

/// The guard's `deref_mut`: the lines behind the lock.
#[verifier::external_body]
fn guarded<'a, 'b>(guard: &'a mut MutexGuard<'b, PrintedLines>) -> &'a mut PrintedLines {
    &mut *guard
}

/// A handle to the lines that the scripts of one server print. Its clones
/// share the lines.
#[derive(Clone)]
pub struct ScriptOutput {
    lines: Arc<Mutex<PrintedLines>>,
}

impl ScriptOutput {
    /// A handle to no lines yet.
    pub fn new() -> Self {
        ScriptOutput { lines: Arc::new(Mutex::new(PrintedLines::new())) }
    }

    /// Keeps a line that a script printed. A line is lost where the lock is
    /// poisoned.
    pub fn print(&self, line: &str) {
        match lock(&self.lines) {
            Some(mut guard) => {
                let lines = guarded(&mut guard);
                lines.add(line);
            },
            None => {},
        }
    }

    /// Hands out the lines that were printed since they were last taken.
    pub fn take(&self) -> Vec<String> {
        match lock(&self.lines) {
            Some(mut guard) => {
                let lines = guarded(&mut guard);
                lines.take()
            },
            None => Vec::new(),
        }
    }
}

impl Default for ScriptOutput {
    fn default() -> Self {
        ScriptOutput::new()
    }
}

} // verus!
