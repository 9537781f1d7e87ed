//! The configuration document: the scripts and the rules.

use vstd::prelude::*;
use crate::deceit::Deceit;
use crate::rhai::RhaiScript;
use crate::text::str_eq;

verus! {

/// A configuration document. The order of the rules is the order in which
/// they are tried.
#[derive(Clone, Debug)]
pub struct ApateSpecs {
    pub scripts: Vec<RhaiScript>,
    pub deceit: Vec<Deceit>,
}

impl Default for ApateSpecs {
    fn default() -> (r: Self)
        ensures
            r.scripts@.len() == 0,
            r.deceit@.len() == 0,
    {
        ApateSpecs { scripts: Vec::new(), deceit: Vec::new() }
    }
}

/// Whether no id stands twice in the list of scripts.
pub open spec fn unique_ids(scripts: Seq<RhaiScript>) -> bool {
    forall|i: int, j: int|
        0 <= i < j < scripts.len() ==> (#[trigger] scripts[i]).id@ != (#[trigger] scripts[j]).id@
}

/// Whether every rule of the list is valid.
pub open spec fn all_valid(deceit: Seq<Deceit>) -> bool {
    forall|i: int| 0 <= i < deceit.len() ==> (#[trigger] deceit[i]).wf()
}

/// Why a document is not valid.
#[derive(Debug, PartialEq, Eq, Structural, Clone, Copy)]
pub enum SpecsError {
    /// Two scripts have one id.
    DuplicateScriptId,
    /// A rule is not valid.
    InvalidDeceit,
}

impl ApateSpecs {
    /// A document is valid where its script ids are unique and every rule is
    /// valid.
    pub open spec fn wf(&self) -> bool {
        unique_ids(self.scripts@) && all_valid(self.deceit@)
    }

    /// Whether every rule is valid.
    pub fn has_valid_rules(&self) -> (r: bool)
        ensures
            r == all_valid(self.deceit@),
    {
        let mut i: usize = 0;
        while i < self.deceit.len()
            invariant
                i <= self.deceit@.len(),
                forall|k: int| 0 <= k < i ==> (#[trigger] self.deceit@[k]).wf(),
            decreases self.deceit.len() - i,
        {
            if !self.deceit[i].is_valid() {
                return false;
            }
            i += 1;
        }
        true
    }

    /// Checks the document. Script ids that are not unique are reported
    /// first, then a rule that is not valid.
    pub fn validate(&self) -> (r: Result<(), SpecsError>)
        ensures
            r is Ok <==> self.wf(),
            r == Err::<(), SpecsError>(SpecsError::DuplicateScriptId) <==> !unique_ids(
                self.scripts@,
            ),
            r == Err::<(), SpecsError>(SpecsError::InvalidDeceit) <==> unique_ids(self.scripts@)
                && !all_valid(self.deceit@),
    {
        if !self.has_unique_ids() {
            Err(SpecsError::DuplicateScriptId)
        } else if !self.has_valid_rules() {
            Err(SpecsError::InvalidDeceit)
        } else {
            Ok(())
        }
    }

    /// Whether the document is valid.
    pub fn is_valid(&self) -> (r: bool)
        ensures
            r == self.wf(),
    {
        self.has_unique_ids() && self.has_valid_rules()
    }

    /// Whether the script ids are unique.
    pub fn has_unique_ids(&self) -> (r: bool)
        ensures
            r == unique_ids(self.scripts@),
    {
        let mut b: usize = 0;
        while b < self.scripts.len()
            invariant
                b <= self.scripts@.len(),
                forall|i: int, j: int|
                    0 <= i < j < b ==> (#[trigger] self.scripts@[i]).id@ != (
                    #[trigger] self.scripts@[j]).id@,
            decreases self.scripts.len() - b,
        {
            let mut a: usize = 0;
            while a < b
                invariant
                    a <= b < self.scripts@.len(),
                    forall|i: int|
                        0 <= i < a ==> (#[trigger] self.scripts@[i]).id@ != self.scripts@[b as int].id@,
                decreases b - a,
            {
                if str_eq(self.scripts[a].id.as_str(), self.scripts[b].id.as_str()) {
                    assert(self.scripts@[a as int].id@ == self.scripts@[b as int].id@);
                    return false;
                }
                a += 1;
            }
            b += 1;
        }
        true
    }

    /// Puts the scripts and rules of `specs` after those of this document.
    pub fn append(&mut self, specs: ApateSpecs)
        ensures
            final(self).deceit@ == old(self).deceit@ + specs.deceit@,
            final(self).scripts@ == old(self).scripts@ + specs.scripts@,
    {
        let mut incoming = specs;
        self.deceit.append(&mut incoming.deceit);
        self.scripts.append(&mut incoming.scripts);
    }

    /// Puts the scripts and rules of `specs` before those of this document.
    pub fn prepend(&mut self, specs: ApateSpecs)
        ensures
            final(self).deceit@ == specs.deceit@ + old(self).deceit@,
            final(self).scripts@ == specs.scripts@ + old(self).scripts@,
    {
        let mut incoming = specs;
        incoming.deceit.append(&mut self.deceit);
        incoming.scripts.append(&mut self.scripts);
        self.deceit = incoming.deceit;
        self.scripts = incoming.scripts;
    }
}

} // verus!
