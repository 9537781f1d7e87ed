//! Processors change a response body after it has been rendered.

use vstd::prelude::*;
use vstd::string::StringExecFns;
use crate::deceit::DeceitResponseContext;
use crate::request::lookup;
use crate::resource::{resource_id, ResourceRef};
use crate::rhai::{
    body_from_value, script_error_text, scripts_view, RhaiResponseContext, RhaiState, ScriptError,
};
use crate::text::str_eq;

verus! {

/// One step of the chain that a rendered body goes through.
#[derive(Clone, Debug)]
pub enum Processor {
    /// A script written inline.
    Rhai { script: String },
    /// A script of the configuration's list of scripts, by its id, with
    /// arguments for it.
    RhaiRef { id: String, args: Vec<String> },
    /// A callback that the host program registered under `id`, with arguments
    /// that only the callback understands.
    Embedded { id: String, args: Vec<String> },
}

/// What a host program implements to change response bodies with code of
/// its own. `input` holds the arguments of the configuration, `response` the
/// body as it stands. `Ok(Some(..))` is the new body, `Ok(None)` leaves the
/// body as it is, and an error ends the request with status 500.
pub trait PostProcessor: Sync + Send {
    fn process(&self, input: &[&str], context: &DeceitResponseContext, response: &[u8]) -> Result<
        Option<Vec<u8>>,
        String,
    >;
}

/// A callback of the host program under the id by which the configuration
/// refers to it.
pub struct ApateProcessor {
    pub id: String,
    pub post: Box<dyn PostProcessor>,
}

/// Why the chain of processors gave no body.
#[derive(Debug)]
pub enum ProcessorError {
    /// No callback is registered under this id.
    Unknown(String),
    /// The callback failed; the text is its own.
    Failed(String),
    /// The script of a processor gave no result.
    Script(ScriptError),
}

/// The text that stands for a processor error in an error response.
pub open spec fn processor_error_text(e: ProcessorError) -> Seq<char> {
    match e {
        ProcessorError::Unknown(id) => "Can't get processor by id \""@ + id@ + "\""@,
        ProcessorError::Failed(text) => "Post processor execution failed: "@ + text@,
        ProcessorError::Script(e) => script_error_text(e),
    }
}

impl ProcessorError {
    /// The error as a text for the body of an error response.
    pub fn message(&self) -> (r: String)
        ensures
            r@ == processor_error_text(*self),
    {
        match self {
            ProcessorError::Unknown(id) => String::from_str("Can't get processor by id \"").concat(
                id.as_str(),
            ).concat("\""),
            ProcessorError::Failed(text) => String::from_str(
                "Post processor execution failed: ",
            ).concat(text.as_str()),
            ProcessorError::Script(e) => e.message(),
        }
    }
}

impl ApateProcessor {
    /// The callback `callback` under the id `id`.
    pub fn post(id: &str, callback: Box<dyn PostProcessor>) -> (r: Self)
        ensures
            r.id@ == id@,
    {
        ApateProcessor { id: id.to_owned(), post: callback }
    }

    /// Runs the callback on `body`. What it returns is handed on; its error
    /// becomes [`ProcessorError::Failed`].
    pub fn apply_post(&self, input: &[&str], rctx: &DeceitResponseContext, body: &[u8]) -> (r:
        Result<Option<Vec<u8>>, ProcessorError>)
        ensures
            r is Err ==> r->Err_0 is Failed,
    {
        match self.post.process(input, rctx, body) {
            Ok(changed) => Ok(changed),
            Err(text) => Err(ProcessorError::Failed(text)),
        }
    }
}

/// Whether a callback is registered under `id`.
pub open spec fn is_registered(registry: Seq<ApateProcessor>, id: Seq<char>) -> bool {
    exists|i: int| 0 <= i < registry.len() && (#[trigger] registry[i]).id@ == id
}

/// Finds the callback registered under `id`; of several the last counts.
pub fn find_processor<'a>(registry: &'a Vec<ApateProcessor>, id: &str) -> (r: Option<
    &'a ApateProcessor,
>)
    ensures
        r is Some <==> is_registered(registry@, id@),
        r is Some ==> r->0.id@ == id@ && exists|i: int|
            0 <= i < registry@.len() && *r->0 == #[trigger] registry@[i] && forall|j: int|
                i < j < registry@.len() ==> (#[trigger] registry@[j]).id@ != id@,
{
    let mut i: usize = registry.len();
    while i > 0
        invariant
            i <= registry.len(),
            forall|j: int| i <= j < registry.len() ==> (#[trigger] registry@[j]).id@ != id@,
        decreases i,
    {
        i -= 1;
        if str_eq(registry[i].id.as_str(), id) {
            assert(registry@[i as int].id@ == id@);
            return Some(&registry[i]);
        }
    }
    None
}

/// The body after one processor has run: what the processor returned, or the
/// body as it was where it returned nothing.
pub open spec fn body_after(current: Option<Seq<u8>>, outcome: Option<Seq<u8>>) -> Option<Seq<u8>> {
    match outcome {
        Some(fresh) => Some(fresh),
        None => current,
    }
}

/// The body after one processor has run. `None` stands for the body as it was
/// rendered.
pub fn next_body(current: Option<Vec<u8>>, outcome: Option<Vec<u8>>) -> (r: Option<Vec<u8>>)
    ensures
        r matches Some(v) ==> body_after(
            match current {
                Some(c) => Some(c@),
                None => None,
            },
            match outcome {
                Some(o) => Some(o@),
                None => None,
            },
        ) == Some(v@),
        r is None <==> current is None && outcome is None,
{
    match outcome {
        Some(fresh) => Some(fresh),
        None => current,
    }
}

/// Whether the processor can run at all: a callback is registered under the
/// id of an embedded one, and the configuration has the script that a
/// reference names.
pub open spec fn can_run(p: Processor, registry: Seq<ApateProcessor>, rhai: RhaiState) -> bool {
    runnable(p, registry, scripts_view(rhai.scripts@))
}

/// Whether the processor can run at all with this registry and these
/// scripts of the configuration.
pub open spec fn runnable(
    p: Processor,
    registry: Seq<ApateProcessor>,
    scripts: Seq<(Seq<char>, Seq<char>)>,
) -> bool {
    match p {
        Processor::Embedded { id, .. } => is_registered(registry, id@),
        Processor::RhaiRef { id, .. } => lookup(scripts, id@) is Some,
        Processor::Rhai { .. } => true,
    }
}

/// Whether every processor of the chain can run at all.
pub open spec fn all_runnable(
    processors: Seq<Processor>,
    registry: Seq<ApateProcessor>,
    scripts: Seq<(Seq<char>, Seq<char>)>,
) -> bool {
    forall|i: int| 0 <= i < processors.len() ==> runnable(#[trigger] processors[i], registry, scripts)
}

/// Whether `e` is the error of a script that the configuration has: one of
/// compiling, of running, or of the returned value.
pub open spec fn is_script_failure(e: ProcessorError) -> bool {
    e matches ProcessorError::Script(se) && !(se is Missing)
}

/// Whether `e` is an error that the processor can end in. An embedded one
/// that is not registered ends in `Unknown` with its id, a registered one in
/// what its callback reports; a reference to a script that the configuration
/// lacks ends in `Missing` with its id; every other script error is one of
/// compiling, running or of the returned value.
pub open spec fn step_error_fits(
    p: Processor,
    registry: Seq<ApateProcessor>,
    scripts: Seq<(Seq<char>, Seq<char>)>,
    e: ProcessorError,
) -> bool {
    match p {
        Processor::Embedded { id, .. } => if is_registered(registry, id@) {
            e is Failed
        } else {
            e matches ProcessorError::Unknown(x) && x@ == id@
        },
        Processor::RhaiRef { id, .. } => if lookup(scripts, id@) is Some {
            is_script_failure(e)
        } else {
            e matches ProcessorError::Script(ScriptError::Missing(x)) && x@ == id@
        },
        Processor::Rhai { .. } => is_script_failure(e),
    }
}

/// Whether `e` is an error that one of the processors can end in.
pub open spec fn chain_error_fits(
    processors: Seq<Processor>,
    registry: Seq<ApateProcessor>,
    scripts: Seq<(Seq<char>, Seq<char>)>,
    e: ProcessorError,
) -> bool {
    exists|i: int|
        0 <= i < processors.len() && step_error_fits(#[trigger] processors[i], registry, scripts, e)
}

/// The processors that a list of references points to.
pub open spec fn refs_view(processors: Seq<&Processor>) -> Seq<Processor> {
    processors.map_values(|p: &Processor| *p)
}

/// The body that the next processor gets: what the processors before it
/// made of the body, or the body as it was rendered where none changed it.
pub open spec fn current_body(result: Option<Seq<u8>>, body: Seq<u8>) -> Seq<u8> {
    match result {
        Some(changed) => changed,
        None => body,
    }
}

/// The body that the next processor gets.
pub fn input_of<'a>(result: &'a Option<Vec<u8>>, body: &'a Vec<u8>) -> (r: &'a Vec<u8>)
    ensures
        r@ == current_body(
            match *result {
                Some(c) => Some(c@),
                None => None,
            },
            body@,
        ),
{
    match result {
        Some(changed) => changed,
        None => body,
    }
}

/// Runs the inline script of a processor on `body`. It is compiled at most
/// once: it is kept under the key of its position `rref`. So where it gives a
/// result the cache holds the script under that key; where the cache held it
/// before the cache stays as it was; and what is kept under other keys stays.
/// Unit from the script is no change, bytes are the new body, and everything
/// else is an error.
pub fn apply_rhai(
    rhai: &mut RhaiState,
    rref: ResourceRef,
    script: &str,
    rctx: DeceitResponseContext,
    body: &Vec<u8>,
) -> (r: Result<Option<Vec<u8>>, ProcessorError>)
    requires
        old(rhai).wf(),
    ensures
        final(rhai).wf(),
        final(rhai).scripts == old(rhai).scripts,
        r is Err ==> is_script_failure(r->Err_0),
        r is Ok ==> final(rhai).cached_source(resource_id("rhai-processor"@, rref.ids@)) == Some(
            script@,
        ),
        old(rhai).cached_source(resource_id("rhai-processor"@, rref.ids@)) == Some(script@)
            ==> final(rhai).asts == old(rhai).asts,
        final(rhai).cached_source(resource_id("rhai-processor"@, rref.ids@)) == Some(script@)
            || final(rhai).asts == old(rhai).asts,
        forall|k: Seq<char>|
            k != resource_id("rhai-processor"@, rref.ids@) ==> final(rhai).cached_source(k) == old(
                rhai,
            ).cached_source(k),
{
    let id = rref.to_resource_id("rhai-processor");
    let slot = match rhai.get_exec(id, script) {
        Ok(slot) => slot,
        Err(e) => {
            return Err(ProcessorError::Script(e));
        },
    };
    let no_args: Vec<String> = Vec::new();
    let value = match rhai.run_processor(slot, RhaiResponseContext::from(rctx), &no_args, body) {
        Ok(value) => value,
        Err(e) => {
            return Err(ProcessorError::Script(e));
        },
    };
    match body_from_value(value) {
        Ok(changed) => Ok(changed),
        Err(e) => Err(ProcessorError::Script(e)),
    }
}

/// Runs the script of the configuration with the id `script_id` on `body`,
/// with `args` in scope. It fails where there is no such script.
pub fn apply_rhai_ref(
    rhai: &mut RhaiState,
    rref: ResourceRef,
    script_id: &str,
    args: Vec<String>,
    rctx: DeceitResponseContext,
    body: &Vec<u8>,
) -> (r: Result<Option<Vec<u8>>, ProcessorError>)
    requires
        old(rhai).wf(),
    ensures
        final(rhai).wf(),
        final(rhai).scripts == old(rhai).scripts,
        match lookup(scripts_view(old(rhai).scripts@), script_id@) {
            None => r matches Err(ProcessorError::Script(ScriptError::Missing(x))) && x@
                == script_id@ && final(rhai).asts == old(rhai).asts,
            Some(source) => {
                &&& r is Err ==> is_script_failure(r->Err_0)
                &&& r is Ok ==> final(rhai).cached_source(crate::rhai::global_key(script_id@))
                    == Some(source)
            },
        },
{
    let slot = match rhai.get_exec_global(script_id) {
        Ok(slot) => slot,
        Err(e) => {
            return Err(ProcessorError::Script(e));
        },
    };
    let value = match rhai.run_processor(slot, RhaiResponseContext::from(rctx), &args, body) {
        Ok(value) => value,
        Err(e) => {
            return Err(ProcessorError::Script(e));
        },
    };
    match body_from_value(value) {
        Ok(changed) => Ok(changed),
        Err(e) => Err(ProcessorError::Script(e)),
    }
}

fn as_slices(args: &Vec<String>) -> (r: Vec<&str>)
    ensures
        r@.len() == args@.len(),
        forall|i: int| 0 <= i < r@.len() ==> (#[trigger] r@[i])@ == args@[i]@,
{
    let mut out: Vec<&str> = Vec::new();
    let mut i: usize = 0;
    while i < args.len()
        invariant
            i <= args.len(),
            out@.len() == i,
            forall|j: int| 0 <= j < i ==> (#[trigger] out@[j])@ == args@[j]@,
        decreases args.len() - i,
    {
        out.push(args[i].as_str());
        i += 1;
    }
    out
}

/// Runs one processor on `current`, the body as it stands. An embedded one
/// hands `current` and its arguments to the callback registered under its
/// id; a script gets `current` as `body`. `Some` is the new body, `None`
/// leaves the body. A processor that cannot run at all (see [`can_run`])
/// fails, and every failure is one that [`step_error_fits`] allows.
pub fn apply_one(
    p: &Processor,
    processor_ref: ResourceRef,
    custom_registry: &Vec<ApateProcessor>,
    rctx: &DeceitResponseContext,
    current: &Vec<u8>,
    rhai: &mut RhaiState,
) -> (r: Result<Option<Vec<u8>>, ProcessorError>)
    requires
        old(rhai).wf(),
    ensures
        final(rhai).wf(),
        final(rhai).scripts == old(rhai).scripts,
        !can_run(*p, custom_registry@, *old(rhai)) ==> r is Err,
        r is Err ==> step_error_fits(
            *p,
            custom_registry@,
            scripts_view(old(rhai).scripts@),
            r->Err_0,
        ),
        p is Embedded ==> final(rhai).asts == old(rhai).asts,
{
    match p {
        Processor::Embedded { id, args } => {
            let found = match find_processor(custom_registry, id.as_str()) {
                Some(found) => found,
                None => {
                    return Err(ProcessorError::Unknown(id.clone()));
                },
            };
            let input = as_slices(args);
            found.apply_post(input.as_slice(), rctx, current.as_slice())
        },
        Processor::Rhai { script } => apply_rhai(
            rhai,
            processor_ref,
            script.as_str(),
            rctx.clone(),
            current,
        ),
        Processor::RhaiRef { id, args } => apply_rhai_ref(
            rhai,
            processor_ref,
            id.as_str(),
            args.clone(),
            rctx.clone(),
            current,
        ),
    }
}

/// Runs the processors in order on `body`. Each one gets the body as the one
/// before it left it ([`input_of`]); what it returns takes the place of that
/// body ([`next_body`]), and the result is `None` where none of them changed
/// it. The first error ends the chain. It is an error that one of the
/// processors can end in; where the first processor cannot run at all (see
/// [`can_run`]) it is the error of that one. Without processors nothing
/// changes.
pub fn apply_processors(
    rref: &ResourceRef,
    custom_registry: &Vec<ApateProcessor>,
    processors: &Vec<&Processor>,
    rctx: &DeceitResponseContext,
    body: &Vec<u8>,
    rhai: &mut RhaiState,
) -> (r: Result<Option<Vec<u8>>, ProcessorError>)
    requires
        old(rhai).wf(),
    ensures
        final(rhai).wf(),
        final(rhai).scripts == old(rhai).scripts,
        processors@.len() == 0 ==> (r matches Ok(None)) && final(rhai).asts == old(rhai).asts,
        r is Ok ==> forall|i: int|
            0 <= i < processors@.len() ==> can_run(
                *#[trigger] processors@[i],
                custom_registry@,
                *old(rhai),
            ),
        r is Ok ==> all_runnable(
            refs_view(processors@),
            custom_registry@,
            scripts_view(old(rhai).scripts@),
        ),
        r is Err ==> chain_error_fits(
            refs_view(processors@),
            custom_registry@,
            scripts_view(old(rhai).scripts@),
            r->Err_0,
        ),
        processors@.len() > 0 && !can_run(*processors@[0], custom_registry@, *old(rhai)) ==> r is Err
            && step_error_fits(
            *processors@[0],
            custom_registry@,
            scripts_view(old(rhai).scripts@),
            r->Err_0,
        ),
{
    let mut result: Option<Vec<u8>> = None;
    let mut pid: usize = 0;
    while pid < processors.len()
        invariant
            pid <= processors.len(),
            rhai.wf(),
            rhai.scripts == old(rhai).scripts,
            processors@.len() == 0 ==> result is None && rhai.asts == old(rhai).asts,
            forall|i: int|
                0 <= i < pid ==> can_run(*#[trigger] processors@[i], custom_registry@, *old(rhai)),
        decreases processors.len() - pid,
    {
        let processor_ref = rref.with_level(pid);
        let outcome = apply_one(
            processors[pid],
            processor_ref,
            custom_registry,
            rctx,
            input_of(&result, body),
            rhai,
        );
        match outcome {
            Ok(changed) => {
                result = next_body(result, changed);
            },
            Err(e) => {
                proof {
                    assert(refs_view(processors@)[pid as int] == *processors@[pid as int]);
                    if !can_run(*processors@[0], custom_registry@, *old(rhai)) {
                        assert(pid == 0);
                    }
                }
                return Err(e);
            },
        }
        pid += 1;
    }
    proof {
        assert forall|i: int| 0 <= i < refs_view(processors@).len() implies runnable(
            #[trigger] refs_view(processors@)[i],
            custom_registry@,
            scripts_view(old(rhai).scripts@),
        ) by {
            assert(can_run(*processors@[i], custom_registry@, *old(rhai)));
        }
    }
    Ok(result)
}

} // verus!
