//! Positions inside the configuration tree.

use vstd::prelude::*;
use vstd::string::StringExecFns;
use crate::text::{dashed, push_dashed};

verus! {

/// A path of indices that locates a rule, a response, a matcher or a
/// processor inside the list of configured rules. Scripts and templates that
/// are written inline are cached under the position at which they stand.
pub struct ResourceRef {
    pub ids: Vec<usize>,
}

impl ResourceRef {
    /// The position of a top-level rule.
    pub fn new(top_level_id: usize) -> (r: Self)
        ensures
            r.ids@ == seq![top_level_id],
    {
        let mut ids: Vec<usize> = Vec::new();
        ids.push(top_level_id);
        ResourceRef { ids }
    }

    /// The position one level below this one, at index `id`.
    pub fn with_level(&self, id: usize) -> (r: Self)
        ensures
            r.ids@ == self.ids@.push(id),
    {
        let mut ids = self.ids.clone();
        ids.push(id);
        ResourceRef { ids }
    }

    /// The indices in decimal, joined by `-`.
    pub fn as_string(&self) -> (s: String)
        ensures
            s@ == dashed(self.ids@),
    {
        let mut out = String::new();
        push_dashed(&mut out, &self.ids);
        assert(out@ =~= dashed(self.ids@));
        out
    }

    /// The cache key of the resource of kind `resource_type` at this position:
    /// the kind, a colon and the indices.
    pub fn to_resource_id(&self, resource_type: &str) -> (s: String)
        ensures
            s@ == resource_id(resource_type@, self.ids@),
    {
        proof {
            reveal_strlit(":");
        }
        let mut out = String::from_str(resource_type);
        out.append(":");
        push_dashed(&mut out, &self.ids);
        out
    }
}

/// The cache key of the resource of kind `kind` at position `ids`.
pub open spec fn resource_id(kind: Seq<char>, ids: Seq<usize>) -> Seq<char> {
    kind + seq![':'] + dashed(ids)
}

} // verus!
