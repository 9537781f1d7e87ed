//! How the `output` text of a response becomes the bytes of the body.

use vstd::prelude::*;
use vstd::string::{StrSliceExecFns, StringExecFns};
use vstd::utf8::encode_utf8;
use crate::codec::{base64_payload, decode_base64_output, decode_hex_output, hex_payload};
use crate::deceit::DeceitResponseContext;
use crate::jinja::{build_tpl_context, MiniJinjaState};
use crate::resource::{resource_id, ResourceRef};
use crate::rhai::{
    body_of, script_error_text, RhaiResponseContext, RhaiState, ScriptError, ScriptValue,
};

verus! {

/// The way in which the `output` text of a response is read.
#[derive(Clone, Copy, Debug, PartialEq, Eq, Structural)]
pub enum OutputType {
    /// The text itself is the body.
    String,
    /// The text is a template that is rendered for the request.
    Jinja,
    /// The text is the body in hexadecimal digits.
    Hex,
    /// The text is the body in standard Base64.
    Base64,
    /// The text is a script that returns the body.
    Rhai,
}

impl Default for OutputType {
    fn default() -> (r: Self)
        ensures
            r == OutputType::String,
    {
        OutputType::String
    }
}

/// Why a response has no body.
#[derive(Debug)]
pub enum RenderError {
    /// The output is no hexadecimal text; the text is the decoder's.
    Hex(String),
    /// The output is no Base64 text; the text is the decoder's.
    Base64(String),
    /// The template does not compile or its rendering failed; the text is the
    /// template engine's.
    Template(String),
    /// The script gave no body.
    Script(ScriptError),
}

/// The text that stands for a render error in an error response.
pub open spec fn render_error_text(e: RenderError) -> Seq<char> {
    match e {
        RenderError::Hex(text) => "Can't decode hex output: "@ + text@,
        RenderError::Base64(text) => "Can't decode base64 output: "@ + text@,
        RenderError::Template(text) => "Can't render minijinja template: "@ + text@,
        RenderError::Script(e) => script_error_text(e),
    }
}

impl RenderError {
    /// The error as a text for the body of an error response.
    pub fn message(&self) -> (r: String)
        ensures
            r@ == render_error_text(*self),
    {
        match self {
            RenderError::Hex(text) => String::from_str("Can't decode hex output: ").concat(
                text.as_str(),
            ),
            RenderError::Base64(text) => String::from_str("Can't decode base64 output: ").concat(
                text.as_str(),
            ),
            RenderError::Template(text) => String::from_str(
                "Can't render minijinja template: ",
            ).concat(text.as_str()),
            RenderError::Script(e) => e.message(),
        }
    }
}

/// Whether making the body of an output of this kind runs a template or a
/// script.
pub open spec fn is_dynamic(tp: OutputType) -> bool {
    tp == OutputType::Jinja || tp == OutputType::Rhai
}

/// The body of an output that is neither a template nor a script: the bytes
/// of the text, or the bytes that its hexadecimal digits or its Base64 stand
/// for. `None` where the text cannot be decoded.
pub open spec fn static_body(tp: OutputType, output: Seq<char>) -> Option<Seq<u8>> {
    match tp {
        OutputType::Hex => hex_payload(output),
        OutputType::Base64 => base64_payload(output),
        _ => Some(encode_utf8(output)),
    }
}

/// The body that a value returned by an output script stands for: the bytes,
/// or an empty body for the unit value. A value of another type is an error.
pub open spec fn output_of(value: ScriptValue) -> Result<Seq<u8>, Seq<char>> {
    match body_of(value) {
        Ok(Some(bytes)) => Ok(bytes),
        Ok(None) => Ok(Seq::empty()),
        Err(text) => Err(text),
    }
}

/// The body that a value returned by an output script stands for.
pub fn output_from_value(value: ScriptValue) -> (r: Result<Vec<u8>, ScriptError>)
    ensures
        match output_of(value) {
            Ok(bytes) => r is Ok && r->Ok_0@ == bytes,
            Err(text) => r matches Err(ScriptError::WrongType(t)) && t@ == text,
        },
{
    match value {
        ScriptValue::Unit => Ok(Vec::new()),
        ScriptValue::Blob(b) => Ok(b),
        ScriptValue::Other(text) => Err(ScriptError::WrongType(text)),
    }
}

fn render_using_minijinja(
    deceit_ref: &ResourceRef,
    template: &str,
    ctx: &DeceitResponseContext,
    mini_jinja_state: &mut MiniJinjaState,
) -> (r: Result<Vec<u8>, RenderError>)
    requires
        old(mini_jinja_state).wf(),
    ensures
        final(mini_jinja_state).wf(),
        r is Err ==> r->Err_0 is Template,
        r is Ok ==> final(mini_jinja_state).cached_source(
            resource_id("jinja-output"@, deceit_ref.ids@),
        ) == Some(template@),
        forall|other: Seq<char>|
            other != resource_id("jinja-output"@, deceit_ref.ids@) ==> final(mini_jinja_state).cached_source(other) == old(mini_jinja_state).cached_source(other),
{
    let id = deceit_ref.to_resource_id("jinja-output");
    match mini_jinja_state.add_minijinja_template(id.as_str(), template) {
        Ok(()) => {},
        Err(text) => {
            return Err(RenderError::Template(text));
        },
    }
    let jinja_ctx = build_tpl_context(ctx.clone());
    match mini_jinja_state.render(id.as_str(), jinja_ctx) {
        Ok(text) => Ok(text.as_str().as_bytes_vec()),
        Err(text) => Err(RenderError::Template(text)),
    }
}

fn render_using_rhai(
    deceit_ref: &ResourceRef,
    script: &str,
    ctx: &DeceitResponseContext,
    rhai: &mut RhaiState,
) -> (r: Result<Vec<u8>, RenderError>)
    requires
        old(rhai).wf(),
    ensures
        final(rhai).wf(),
        final(rhai).scripts == old(rhai).scripts,
        r is Err ==> r->Err_0 is Script,
        r is Ok ==> final(rhai).cached_source(resource_id("rhai-output"@, deceit_ref.ids@))
            == Some(script@),
        forall|k: Seq<char>|
            k != resource_id("rhai-output"@, deceit_ref.ids@) ==> final(rhai).cached_source(k)
                == old(rhai).cached_source(k),
{
    let id = deceit_ref.to_resource_id("rhai-output");
    let slot = match rhai.get_exec(id, script) {
        Ok(slot) => slot,
        Err(e) => {
            return Err(RenderError::Script(e));
        },
    };
    let value = match rhai.run_output(slot, RhaiResponseContext::from(ctx.clone())) {
        Ok(value) => value,
        Err(e) => {
            return Err(RenderError::Script(e));
        },
    };
    match output_from_value(value) {
        Ok(body) => Ok(body),
        Err(e) => Err(RenderError::Script(e)),
    }
}

/// Makes the body of a response from its `output` text. A text, hexadecimal
/// digits and Base64 give exactly the bytes of [`static_body`], and fail
/// exactly where that has none. A template or a script is compiled at most
/// once, kept under the key of the position `deceit_ref`, and run with `ctx`;
/// it gives what the run returns and fails where the source does not compile
/// or the run does.
pub fn output_response_body(
    deceit_ref: &ResourceRef,
    tp: OutputType,
    output: &str,
    ctx: &DeceitResponseContext,
    mini_jinja_state: &mut MiniJinjaState,
    rhai_state: &mut RhaiState,
) -> (r: Result<Vec<u8>, RenderError>)
    requires
        old(mini_jinja_state).wf(),
        old(rhai_state).wf(),
    ensures
        final(mini_jinja_state).wf(),
        final(rhai_state).wf(),
        final(rhai_state).scripts == old(rhai_state).scripts,
        !is_dynamic(tp) ==> match static_body(tp, output@) {
            Some(bytes) => r is Ok && r->Ok_0@ == bytes,
            None => r is Err,
        },
        r is Err ==> match tp {
            OutputType::String => false,
            OutputType::Hex => r->Err_0 is Hex,
            OutputType::Base64 => r->Err_0 is Base64,
            OutputType::Jinja => r->Err_0 is Template,
            OutputType::Rhai => r->Err_0 is Script,
        },
        tp == OutputType::Jinja && r is Ok ==> final(mini_jinja_state).cached_source(
            resource_id("jinja-output"@, deceit_ref.ids@),
        ) == Some(output@),
        tp == OutputType::Rhai && r is Ok ==> final(rhai_state).cached_source(
            resource_id("rhai-output"@, deceit_ref.ids@),
        ) == Some(output@),
        tp != OutputType::Jinja ==> final(mini_jinja_state).templates == old(mini_jinja_state).templates,
        tp != OutputType::Rhai ==> final(rhai_state).asts == old(rhai_state).asts,
{
    match tp {
        OutputType::String => Ok(output.as_bytes_vec()),
        OutputType::Jinja => render_using_minijinja(deceit_ref, output, ctx, mini_jinja_state),
        OutputType::Hex => match decode_hex_output(output) {
            Ok(body) => Ok(body),
            Err(text) => Err(RenderError::Hex(text)),
        },
        OutputType::Base64 => match decode_base64_output(output) {
            Ok(body) => Ok(body),
            Err(text) => Err(RenderError::Base64(text)),
        },
        OutputType::Rhai => render_using_rhai(deceit_ref, output, ctx, rhai_state),
    }
}

} // verus!
