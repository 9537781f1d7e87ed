//! The administration of a running server: reading the configuration
//! document and writing a new one.

use vstd::prelude::*;
use vstd::string::StringSliceAdditionalSpecFns;
use crate::deceit::Deceit;
use crate::rhai::RhaiScript;
use crate::specs::{all_valid, unique_ids, ApateSpecs, SpecsError};
use crate::state::ApateState;

verus! {

/// The path prefix under which the administration is served.
pub const ADMIN_API: &'static str = "/apate";

/// Whether a request for `path` is for the administration: the path begins
/// with the prefix.
pub open spec fn under_prefix(prefix: Seq<u8>, path: Seq<u8>) -> bool {
    prefix.len() <= path.len() && path.subrange(0, prefix.len() as int) == prefix
}

/// Whether a request for `path` is for the administration served under
/// `prefix`; every other request goes to the rules.
pub fn is_admin_path(prefix: &str, path: &str) -> (r: bool)
    ensures
        r == under_prefix(prefix.spec_bytes(), path.spec_bytes()),
{
    let a = prefix.as_bytes();
    let b = path.as_bytes();
    if a.len() > b.len() {
        return false;
    }
    let head = vstd::slice::slice_subrange(b, 0, a.len());
    crate::text::bytes_eq(head, a)
}

/// The three ways of writing the configuration document.
#[derive(Clone, Copy, Debug, PartialEq, Eq, Structural)]
pub enum AdminWrite {
    /// The incoming document takes the place of the current one.
    Replace,
    /// The incoming scripts and rules follow the current ones.
    Append,
    /// The incoming scripts and rules precede the current ones.
    Prepend,
}

/// Why a write was refused: the document that would result is not valid.
#[derive(Debug)]
pub struct AdminError {
    pub reason: SpecsError,
}

/// What a configuration document holds, as mathematical values.
pub struct SpecsView {
    pub scripts: Seq<RhaiScript>,
    pub deceit: Seq<Deceit>,
}

impl View for ApateSpecs {
    type V = SpecsView;

    open spec fn view(&self) -> SpecsView {
        SpecsView { scripts: self.scripts@, deceit: self.deceit@ }
    }
}

/// The document that a write makes of the current document and the incoming
/// one.
pub open spec fn document_after(write: AdminWrite, current: SpecsView, incoming: SpecsView) -> SpecsView {
    match write {
        AdminWrite::Replace => incoming,
        AdminWrite::Append => SpecsView {
            scripts: current.scripts + incoming.scripts,
            deceit: current.deceit + incoming.deceit,
        },
        AdminWrite::Prepend => SpecsView {
            scripts: incoming.scripts + current.scripts,
            deceit: incoming.deceit + current.deceit,
        },
    }
}

/// Whether the write is accepted: the document that results is valid.
pub open spec fn write_accepted(write: AdminWrite, current: SpecsView, incoming: SpecsView) -> bool {
    let after = document_after(write, current, incoming);
    unique_ids(after.scripts) && all_valid(after.deceit)
}

/// The document that a read sees.
pub open spec fn document_read(state: ApateState) -> SpecsView {
    state.specs@
}

/// A read after a replace that was accepted sees the incoming document and
/// nothing of the one before.
pub proof fn lemma_read_after_replace(before: ApateState, after: ApateState, incoming: SpecsView)
    requires
        write_accepted(AdminWrite::Replace, before.specs@, incoming),
        after.specs@ == document_after(AdminWrite::Replace, before.specs@, incoming),
    ensures
        document_read(after) == incoming,
{
}

/// The current configuration document.
pub fn specification_get(state: &ApateState) -> (r: &ApateSpecs)
    ensures
        r@ == document_read(*state),
{
    &state.specs
}

/// Writes the configuration document. Where the write is accepted the
/// document is the one that [`document_after`] gives, every compiled template
/// and script is forgotten, and the script runtime knows the scripts of the
/// new document. Where it is refused nothing changes.
pub fn write_specification(state: &mut ApateState, write: AdminWrite, new_specs: ApateSpecs) -> (r:
    Result<(), AdminError>)
    requires
        old(state).wf(),
    ensures
        final(state).wf(),
        r is Ok <==> write_accepted(write, old(state).specs@, new_specs@),
        r is Ok ==> {
            &&& final(state).specs@ == document_after(write, old(state).specs@, new_specs@)
            &&& final(state).minijinja.templates.keys@.len() == 0
            &&& final(state).rhai.asts.keys@.len() == 0
        },
        r is Err ==> {
            &&& final(state).specs@ == old(state).specs@
            &&& final(state).minijinja.templates == old(state).minijinja.templates
            &&& final(state).rhai.asts == old(state).rhai.asts
        },
        final(state).processors == old(state).processors,
{
    let ghost before = state.specs@;
    let ghost incoming = new_specs@;
    let old_deceits: usize = state.specs.deceit.len();
    let old_scripts: usize = state.specs.scripts.len();
    let new_deceits: usize = new_specs.deceit.len();
    let new_scripts: usize = new_specs.scripts.len();
    match write {
        AdminWrite::Replace => {
            match new_specs.validate() {
                Err(reason) => {
                    return Err(AdminError { reason });
                },
                Ok(()) => {},
            }
            state.specs = new_specs;
        },
        AdminWrite::Append => {
            state.specs.append(new_specs);
            match state.specs.validate() {
                Err(reason) => {
                    state.specs.deceit.truncate(old_deceits);
                    state.specs.scripts.truncate(old_scripts);
                    assert(state.specs.deceit@ =~= before.deceit);
                    assert(state.specs.scripts@ =~= before.scripts);
                    return Err(AdminError { reason });
                },
                Ok(()) => {},
            }
        },
        AdminWrite::Prepend => {
            state.specs.prepend(new_specs);
            match state.specs.validate() {
                Err(reason) => {
                    let deceit = state.specs.deceit.split_off(new_deceits);
                    let scripts = state.specs.scripts.split_off(new_scripts);
                    state.specs.deceit = deceit;
                    state.specs.scripts = scripts;
                    assert(state.specs.deceit@ =~= before.deceit);
                    assert(state.specs.scripts@ =~= before.scripts);
                    return Err(AdminError { reason });
                },
                Ok(()) => {},
            }
        },
    }
    state.minijinja.clear();
    state.rhai.clear_and_update(crate::rhai::clone_scripts(&state.specs.scripts));
    Ok(())
}

/// Puts `new_specs` in the place of the configuration document.
pub fn specification_replace(state: &mut ApateState, new_specs: ApateSpecs) -> (r: Result<
    (),
    AdminError,
>)
    requires
        old(state).wf(),
    ensures
        final(state).wf(),
        r is Ok <==> write_accepted(AdminWrite::Replace, old(state).specs@, new_specs@),
        r is Ok ==> {
            &&& final(state).specs@ == new_specs@
            &&& final(state).minijinja.templates.keys@.len() == 0
            &&& final(state).rhai.asts.keys@.len() == 0
        },
        r is Err ==> final(state).specs@ == old(state).specs@,
{
    write_specification(state, AdminWrite::Replace, new_specs)
}

/// Puts the scripts and rules of `new_specs` before those of the
/// configuration document.
pub fn specification_prepend(state: &mut ApateState, new_specs: ApateSpecs) -> (r: Result<
    (),
    AdminError,
>)
    requires
        old(state).wf(),
    ensures
        final(state).wf(),
        r is Ok <==> write_accepted(AdminWrite::Prepend, old(state).specs@, new_specs@),
        r is Ok ==> {
            &&& final(state).specs@ == document_after(
                AdminWrite::Prepend,
                old(state).specs@,
                new_specs@,
            )
            &&& final(state).minijinja.templates.keys@.len() == 0
            &&& final(state).rhai.asts.keys@.len() == 0
        },
        r is Err ==> final(state).specs@ == old(state).specs@,
{
    write_specification(state, AdminWrite::Prepend, new_specs)
}

/// Puts the scripts and rules of `new_specs` after those of the
/// configuration document.
pub fn specification_append(state: &mut ApateState, new_specs: ApateSpecs) -> (r: Result<
    (),
    AdminError,
>)
    requires
        old(state).wf(),
    ensures
        final(state).wf(),
        r is Ok <==> write_accepted(AdminWrite::Append, old(state).specs@, new_specs@),
        r is Ok ==> {
            &&& final(state).specs@ == document_after(
                AdminWrite::Append,
                old(state).specs@,
                new_specs@,
            )
            &&& final(state).minijinja.templates.keys@.len() == 0
            &&& final(state).rhai.asts.keys@.len() == 0
        },
        r is Err ==> final(state).specs@ == old(state).specs@,
{
    write_specification(state, AdminWrite::Append, new_specs)
}

} // verus!
