//! The resolution engine: from a request and the configuration to one
//! response.

use vstd::prelude::*;
use vstd::string::{StrSliceExecFns, StringExecFns};
use vstd::utf8::encode_utf8;
use crate::cell::load_code;
use crate::counters::ApateCounters;
use crate::deceit::{
    chosen_response, create_response_context, deceit_script_free, first_fitting,
    lemma_choice_is_exact, response_fits, Deceit, DeceitResponse,
};
use crate::jinja::MiniJinjaState;
use crate::matchers::all_approve;
use crate::output::{is_dynamic, output_response_body, static_body, OutputType};
use crate::output::{render_error_text, RenderError};
use crate::processors::{
    all_runnable, apply_processors, chain_error_fits, processor_error_text, refs_view, ApateProcessor,
    Processor, ProcessorError,
};
use crate::rhai::scripts_view;
use std::sync::atomic::AtomicU16;
use std::sync::Arc;
use crate::request::{pairs_view, strings_view, PairsView, RequestContext, RequestView};
use crate::resource::ResourceRef;
use crate::rhai::RhaiState;
use crate::state::ApateState;
use crate::uri::uris_match;

verus! {

/// The status of a response that sets none.
pub const DEFAULT_RESPONSE_CODE: u16 = 200;

/// The status of the response to a request that no rule handles.
pub const NOT_FOUND_CODE: u16 = 404;

/// The status of the response to a request whose body could not be made.
pub const FAILURE_CODE: u16 = 500;

/// A response as the engine hands it to the transport.
#[derive(Debug)]
pub struct ApateResponse {
    pub status: u16,
    pub headers: Vec<(String, String)>,
    pub body: Vec<u8>,
}

/// What a response holds, as mathematical values.
pub struct ResponseView {
    pub status: u16,
    pub headers: PairsView,
    pub body: Seq<u8>,
}

impl View for ApateResponse {
    type V = ResponseView;

    open spec fn view(&self) -> ResponseView {
        ResponseView { status: self.status, headers: pairs_view(self.headers@), body: self.body@ }
    }
}

/// Whether `code` is a status code that a response can carry: a number of
/// three digits.
pub open spec fn is_http_status(code: u16) -> bool {
    100 <= code <= 999
}

/// Whether `code` is a status code that a response can carry.
pub fn http_status(code: u16) -> (r: bool)
    ensures
        r == is_http_status(code),
{
    100 <= code && code <= 999
}

/// The status of a response: the code that a script or template asked for;
/// else the code of the response; else 200. A code counts only where it is a
/// status code that a response can carry, so 0, which stands for no code
/// asked for, and every other number that is none are passed over.
pub open spec fn final_status(override_code: u16, explicit: Option<u16>) -> u16 {
    if is_http_status(override_code) {
        override_code
    } else {
        match explicit {
            Some(code) => if is_http_status(code) {
                code
            } else {
                DEFAULT_RESPONSE_CODE
            },
            None => DEFAULT_RESPONSE_CODE,
        }
    }
}

/// The status of a response.
pub fn response_status(override_code: u16, explicit: Option<u16>) -> (r: u16)
    ensures
        r == final_status(override_code, explicit),
        is_http_status(r),
{
    if http_status(override_code) {
        override_code
    } else {
        match explicit {
            Some(code) => if http_status(code) {
                code
            } else {
                DEFAULT_RESPONSE_CODE
            },
            None => DEFAULT_RESPONSE_CODE,
        }
    }
}

/// The status of a response is always one that a response can carry.
pub proof fn lemma_status_is_valid(override_code: u16, explicit: Option<u16>)
    ensures
        is_http_status(final_status(override_code, explicit)),
{
}

/// The status of a response is one of the classes 2xx to 5xx where the code
/// that counts is: the code that a script or template asked for, or, where
/// none that counts was asked for, the code of the response. A response
/// without a code of its own that counts has status 200.
pub proof fn lemma_status_class(override_code: u16, explicit: Option<u16>)
    requires
        is_http_status(override_code) ==> 200 <= override_code <= 599,
        !is_http_status(override_code) && explicit is Some && is_http_status(explicit->0) ==> 200
            <= explicit->0 <= 599,
    ensures
        200 <= final_status(override_code, explicit) <= 599,
{
}

/// The headers of a response: those of the rule, then those of the response,
/// each list in its order.
pub open spec fn composed_headers(d: Deceit, r: DeceitResponse) -> PairsView {
    pairs_view(d.headers@) + pairs_view(r.headers@)
}

/// The headers of a response: `parent_headers`, then `headers`.
pub fn insert_response_headers(
    parent_headers: &Vec<(String, String)>,
    headers: &Vec<(String, String)>,
) -> (r: Vec<(String, String)>)
    ensures
        pairs_view(r@) == pairs_view(parent_headers@) + pairs_view(headers@),
{
    let mut out: Vec<(String, String)> = Vec::new();
    let mut i: usize = 0;
    while i < parent_headers.len()
        invariant
            i <= parent_headers.len(),
            out@.len() == i,
            forall|k: int|
                0 <= k < i ==> (#[trigger] out@[k]).0@ == parent_headers@[k].0@ && out@[k].1@
                    == parent_headers@[k].1@,
        decreases parent_headers.len() - i,
    {
        out.push((parent_headers[i].0.clone(), parent_headers[i].1.clone()));
        i += 1;
    }
    let mut j: usize = 0;
    while j < headers.len()
        invariant
            j <= headers.len(),
            out@.len() == parent_headers@.len() + j,
            forall|k: int|
                0 <= k < parent_headers@.len() ==> (#[trigger] out@[k]).0@ == parent_headers@[k].0@
                    && out@[k].1@ == parent_headers@[k].1@,
            forall|k: int|
                0 <= k < j ==> (#[trigger] out@[parent_headers@.len() + k]).0@ == headers@[k].0@
                    && out@[parent_headers@.len() + k].1@ == headers@[k].1@,
        decreases headers.len() - j,
    {
        out.push((headers[j].0.clone(), headers[j].1.clone()));
        j += 1;
    }
    proof {
        let got = pairs_view(out@);
        let want = pairs_view(parent_headers@) + pairs_view(headers@);
        assert(got.len() == want.len());
        assert forall|k: int| 0 <= k < got.len() implies got[k] == want[k] by {
            if k >= parent_headers@.len() {
                let m = k - parent_headers@.len();
                assert(out@[parent_headers@.len() + m].0@ == headers@[m].0@);
            }
        }
        assert(got =~= want);
    }
    out
}

/// The text of the response to a request that no rule handles.
pub open spec fn not_found_text(path: Seq<char>) -> Seq<char> {
    "Nothing can handle your requiest with path: "@ + path + "\n"@
}

/// The response to a request for `path` that no rule handles: status 404, no
/// headers, and a text that names the path.
pub open spec fn not_found_view(path: Seq<char>) -> ResponseView {
    ResponseView {
        status: NOT_FOUND_CODE,
        headers: Seq::empty(),
        body: encode_utf8(not_found_text(path)),
    }
}

/// The response to a request for `path` that no rule handles.
pub fn not_found_response(path: &str) -> (r: ApateResponse)
    ensures
        r@ == not_found_view(path@),
{
    let text = String::from_str("Nothing can handle your requiest with path: ").concat(path).concat(
        "\n",
    );
    let r = ApateResponse {
        status: NOT_FOUND_CODE,
        headers: Vec::new(),
        body: text.as_str().as_bytes_vec(),
    };
    assert(r@.headers =~= Seq::empty());
    r
}

/// The response that reports a failure: status 500, no headers, and a text
/// made of the stage's prefix, the message and a line end.
pub open spec fn failure_view(prefix: Seq<char>, message: Seq<char>) -> ResponseView {
    ResponseView {
        status: FAILURE_CODE,
        headers: Seq::empty(),
        body: encode_utf8(prefix + message + "\n"@),
    }
}

/// The response that reports a failure.
pub fn failure_response(prefix: &str, message: &str) -> (r: ApateResponse)
    ensures
        r@ == failure_view(prefix@, message@),
{
    let text = String::from_str(prefix).concat(message).concat("\n");
    let r = ApateResponse {
        status: FAILURE_CODE,
        headers: Vec::new(),
        body: text.as_str().as_bytes_vec(),
    };
    assert(r@.headers =~= Seq::empty());
    r
}

/// The prefix of the text that reports that no body could be rendered.
pub open spec fn render_failed() -> Seq<char> {
    "It happened! "@
}

/// The prefix of the text that reports that a processor failed.
pub open spec fn processors_failed() -> Seq<char> {
    "Can't apply post processors! "@
}

/// Whether the response reports a failure of the stage with this prefix.
pub open spec fn is_failure(resp: ResponseView, prefix: Seq<char>) -> bool {
    exists|message: Seq<char>| resp == failure_view(prefix, message)
}

/// Whether the response is made without a template, a script or a
/// processor, so that it is a function of the configuration alone.
pub open spec fn is_static(d: Deceit, r: DeceitResponse) -> bool {
    !is_dynamic(r.output_type) && d.processors@.len() == 0 && r.processors@.len() == 0
}

/// The processors that run on the body of the response `r` of the rule `d`:
/// those of the rule, then those of the response.
pub open spec fn chained(d: Deceit, r: DeceitResponse) -> Seq<Processor> {
    d.processors@ + r.processors@
}

/// Whether a template, a script or a processor takes part in the response,
/// so that a status code may have been asked for.
pub open spec fn needs_code(d: Deceit, r: DeceitResponse) -> bool {
    is_dynamic(r.output_type) || chained(d, r).len() > 0
}

/// Whether `e` is an error that the rendering of the response can end in: a
/// text never fails, hexadecimal digits and Base64 fail exactly where they
/// cannot be decoded, and a template or script fails with an error of its
/// kind.
pub open spec fn render_error_fits(r: DeceitResponse, e: RenderError) -> bool {
    match r.output_type {
        OutputType::String => false,
        OutputType::Hex => e is Hex && static_body(r.output_type, r.output@) is None,
        OutputType::Base64 => e is Base64 && static_body(r.output_type, r.output@) is None,
        OutputType::Jinja => e is Template,
        OutputType::Rhai => e is Script,
    }
}

/// Whether `rendered` is a body that the rendering of the response can give:
/// for an output that is no template and no script it is the decoded output.
pub open spec fn body_fits(r: DeceitResponse, rendered: Seq<u8>) -> bool {
    !is_dynamic(r.output_type) ==> static_body(r.output_type, r.output@) == Some(rendered)
}

/// The response that reports that the rendering failed with `e`.
pub open spec fn render_failure_view(e: RenderError) -> ResponseView {
    failure_view(render_failed(), render_error_text(e))
}

/// The response that reports that a processor failed with `e`.
pub open spec fn processor_failure_view(e: ProcessorError) -> ResponseView {
    failure_view(processors_failed(), processor_error_text(e))
}

/// The response for a body that was rendered and went through the
/// processors: the status is the code asked for, else the code of the
/// response, else 200; the headers are those of the rule, then those of the
/// response; the body is what the processors made of the rendered body, or
/// the rendered body where they changed nothing.
pub open spec fn finished_view(
    d: Deceit,
    r: DeceitResponse,
    code: u16,
    rendered: Seq<u8>,
    changed: Option<Seq<u8>>,
) -> ResponseView {
    ResponseView {
        status: final_status(code, r.code),
        headers: composed_headers(d, r),
        body: match changed {
            Some(b) => b,
            None => rendered,
        },
    }
}

/// The bytes of an optional body.
pub open spec fn bytes_view(body: Option<Vec<u8>>) -> Option<Seq<u8>> {
    match body {
        Some(b) => Some(b@),
        None => None,
    }
}

/// Whether the rendering of the response can succeed at all: an output of
/// hexadecimal digits or Base64 can be decoded.
pub open spec fn rendering_can_succeed(r: DeceitResponse) -> bool {
    !is_dynamic(r.output_type) ==> static_body(r.output_type, r.output@) is Some
}

/// Whether `resp` is a response that the chosen response `r` of the rule `d`
/// can give. It is one of three. The report that the rendering failed, with
/// an error that the rendering can end in. The report that a processor
/// failed, with an error that one of the processors can end in; the
/// rendering has then succeeded. Or the finished response for a body that
/// the rendering can give: every processor can then run at all, without
/// template, script and processor no status code was asked for, and without
/// processors the body is the rendered one.
pub open spec fn answers(
    d: Deceit,
    r: DeceitResponse,
    registry: Seq<ApateProcessor>,
    scripts: Seq<(Seq<char>, Seq<char>)>,
    resp: ResponseView,
) -> bool {
    ||| exists|e: RenderError| render_error_fits(r, e) && resp == #[trigger] render_failure_view(e)
    ||| exists|e: ProcessorError|
        {
            &&& rendering_can_succeed(r)
            &&& chain_error_fits(chained(d, r), registry, scripts, e)
            &&& resp == #[trigger] processor_failure_view(e)
        }
    ||| exists|code: u16, rendered: Seq<u8>, changed: Option<Seq<u8>>|
        {
            &&& body_fits(r, rendered)
            &&& all_runnable(chained(d, r), registry, scripts)
            &&& !needs_code(d, r) ==> code == 0
            &&& chained(d, r).len() == 0 ==> changed is None
            &&& resp == #[trigger] finished_view(d, r, code, rendered, changed)
        }
}

/// A response of which a processor cannot run at all is answered with the
/// report of a failure, and so is one whose output cannot be decoded: with
/// the report that the rendering failed.
pub proof fn lemma_answer_of_what_cannot_run(
    d: Deceit,
    r: DeceitResponse,
    registry: Seq<ApateProcessor>,
    scripts: Seq<(Seq<char>, Seq<char>)>,
    resp: ResponseView,
)
    requires
        answers(d, r, registry, scripts, resp),
    ensures
        !all_runnable(chained(d, r), registry, scripts) ==> resp.status == FAILURE_CODE,
        !rendering_can_succeed(r) ==> is_failure(resp, render_failed()),
        is_http_status(resp.status),
{
}

/// Whether `resp` is the one response that a static response `r` of the rule
/// `d` gives: its status, the composed headers and the decoded output; or the
/// report of a failure where the output cannot be decoded.
pub open spec fn static_answer(d: Deceit, r: DeceitResponse, resp: ResponseView) -> bool {
    match static_body(r.output_type, r.output@) {
        Some(body) => resp == finished_view(d, r, 0, body, None),
        None => is_failure(resp, render_failed()),
    }
}

/// The processors of the rule, then those of the response.
pub fn chain<'a>(first: &'a Vec<Processor>, second: &'a Vec<Processor>) -> (r: Vec<&'a Processor>)
    ensures
        refs_view(r@) == first@ + second@,
{
    let mut out: Vec<&'a Processor> = Vec::new();
    let mut i: usize = 0;
    while i < first.len()
        invariant
            i <= first.len(),
            out@.len() == i,
            forall|k: int| 0 <= k < i ==> *#[trigger] out@[k] == first@[k],
        decreases first.len() - i,
    {
        out.push(&first[i]);
        i += 1;
    }
    let mut j: usize = 0;
    while j < second.len()
        invariant
            j <= second.len(),
            out@.len() == first@.len() + j,
            forall|k: int| 0 <= k < first@.len() ==> *#[trigger] out@[k] == first@[k],
            forall|k: int| 0 <= k < j ==> *#[trigger] out@[first@.len() + k] == second@[k],
        decreases second.len() - j,
    {
        out.push(&second[j]);
        j += 1;
    }
    proof {
        let got = refs_view(out@);
        let want = first@ + second@;
        assert(got.len() == want.len());
        assert forall|k: int| 0 <= k < got.len() implies got[k] == want[k] by {
            if k >= first@.len() {
                let m = k - first@.len();
                assert(*out@[first@.len() + m] == second@[m]);
            }
        }
        assert(got =~= want);
    }
    out
}

/// The response that reports that the rendering failed.
pub fn render_failure(e: &RenderError) -> (resp: ApateResponse)
    ensures
        resp@ == render_failure_view(*e),
{
    let message = e.message();
    failure_response("It happened! ", message.as_str())
}

/// The response that reports that a processor failed.
pub fn processor_failure(e: &ProcessorError) -> (resp: ApateResponse)
    ensures
        resp@ == processor_failure_view(*e),
{
    let message = e.message();
    failure_response("Can't apply post processors! ", message.as_str())
}

/// The status code that was asked for while the response was made: what the
/// cell holds where a template, a script or a processor took part, and 0
/// where none did.
pub fn override_code(d: &Deceit, dresp: &DeceitResponse, cell: &Arc<AtomicU16>) -> (code: u16)
    ensures
        !needs_code(*d, *dresp) ==> code == 0,
{
    let dynamic = match dresp.output_type {
        OutputType::Jinja => true,
        OutputType::Rhai => true,
        _ => false,
    };
    if dynamic || d.processors.len() > 0 || dresp.processors.len() > 0 {
        load_code(cell)
    } else {
        0
    }
}

/// Puts the response together from what the rendering and the processors
/// gave and the status code that was asked for.
pub fn finish_response(
    d: &Deceit,
    dresp: &DeceitResponse,
    code: u16,
    rendered: Vec<u8>,
    changed: Option<Vec<u8>>,
) -> (resp: ApateResponse)
    ensures
        resp@ == finished_view(*d, *dresp, code, rendered@, bytes_view(changed)),
{
    let status = response_status(code, dresp.code);
    let headers = insert_response_headers(&d.headers, &dresp.headers);
    let body = match changed {
        Some(fresh) => fresh,
        None => rendered,
    };
    ApateResponse { status, headers, body }
}

/// Makes the response for the chosen response `dresp` of the rule `d`: the
/// body is rendered, then the processors of the rule and of the response run
/// on it in this order, then status and headers are set. From here on no
/// other rule is tried: what comes back is an answer of `dresp`, see
/// [`answers`]. A static response gives exactly [`static_answer`].
pub fn respond(
    d: &Deceit,
    dresp: &DeceitResponse,
    rref: &ResourceRef,
    ctx: &RequestContext,
    counters: &ApateCounters,
    registry: &Vec<ApateProcessor>,
    minijinja: &mut MiniJinjaState,
    rhai: &mut RhaiState,
) -> (resp: ApateResponse)
    requires
        old(minijinja).wf(),
        old(rhai).wf(),
    ensures
        final(minijinja).wf(),
        final(rhai).wf(),
        final(rhai).scripts == old(rhai).scripts,
        answers(*d, *dresp, registry@, scripts_view(old(rhai).scripts@), resp@),
        is_static(*d, *dresp) ==> static_answer(*d, *dresp, resp@),
        !all_runnable(chained(*d, *dresp), registry@, scripts_view(old(rhai).scripts@))
            ==> resp@.status == FAILURE_CODE,
        !rendering_can_succeed(*dresp) ==> is_failure(resp@, render_failed()),
        is_http_status(resp@.status),
{
    let drctx = create_response_context(ctx.clone(), counters.clone());
    let rendered = output_response_body(
        rref,
        dresp.output_type,
        dresp.output.as_str(),
        &drctx,
        minijinja,
        rhai,
    );
    let body = match rendered {
        Ok(body) => body,
        Err(e) => {
            let resp = render_failure(&e);
            assert(render_error_fits(*dresp, e));
            assert(resp@ == failure_view(render_failed(), render_error_text(e)));
            return resp;
        },
    };
    let prcs = chain(&d.processors, &dresp.processors);
    let changed = match apply_processors(rref, registry, &prcs, &drctx, &body, rhai) {
        Ok(changed) => changed,
        Err(e) => {
            let resp = processor_failure(&e);
            assert(chain_error_fits(
                chained(*d, *dresp),
                registry@,
                scripts_view(old(rhai).scripts@),
                e,
            ));
            return resp;
        },
    };
    let code = override_code(d, dresp, &drctx.response_code);
    let resp = finish_response(d, dresp, code, body, changed);
    assert(resp@ == finished_view(*d, *dresp, code, body@, bytes_view(changed)));
    resp
}

/// The request as the checks of a rule see it once the rule's patterns have
/// matched: with the request path as `path` and the captures as path
/// arguments.
pub open spec fn with_paths(req: RequestView, captures: PairsView) -> RequestView {
    RequestView { path: req.request_path, path_args: captures, ..req }
}

/// The response that the rule gives to the request, where every script
/// answers `scripts`: none where no pattern matches the path, else what
/// [`chosen_response`] gives with the captures as path arguments.
pub open spec fn deceit_picks(d: Deceit, req: RequestView, scripts: bool) -> Option<int> {
    match uris_match(strings_view(d.uris@), req.request_path) {
        Some(captures) => chosen_response(d, with_paths(req, captures), scripts),
        None => None,
    }
}

/// The first rule from `from` on that gives a response to the request, with
/// the index of that response.
pub open spec fn first_pick(deceits: Seq<Deceit>, req: RequestView, scripts: bool, from: int) -> Option<
    (int, int),
>
    decreases deceits.len() - from,
{
    if from < 0 || from >= deceits.len() {
        None
    } else {
        match deceit_picks(deceits[from], req, scripts) {
            Some(i) => Some((from, i)),
            None => first_pick(deceits, req, scripts, from + 1),
        }
    }
}

/// The rule and the response that the configuration selects for the request:
/// the rules are tried in the order in which they stand.
pub open spec fn selection(deceits: Seq<Deceit>, req: RequestView, scripts: bool) -> Option<
    (int, int),
> {
    first_pick(deceits, req, scripts, 0)
}

/// Whether no script takes part in the checks of the configuration.
pub open spec fn specs_script_free(deceits: Seq<Deceit>) -> bool {
    forall|i: int| 0 <= i < deceits.len() ==> deceit_script_free(#[trigger] deceits[i])
}

/// Whether the two requests differ at most in `path` and the path arguments.
pub open spec fn same_request(a: RequestView, b: RequestView) -> bool {
    a == (RequestView { path: a.path, path_args: a.path_args, ..b })
}

/// Whether the response `i` of the rule `k` may be the selection for the
/// request whatever scripts answer: the rule's patterns match, its checks and
/// those of the response pass if every script says yes, and no response
/// before it and no rule before the rule must be selected even if every
/// script says no.
pub open spec fn may_select(deceits: Seq<Deceit>, req: RequestView, k: int, i: int) -> bool {
    &&& 0 <= k < deceits.len()
    &&& 0 <= i < deceits[k].responses@.len()
    &&& uris_match(strings_view(deceits[k].uris@), req.request_path) matches Some(captures) && {
        let seen = with_paths(req, captures);
        &&& all_approve(deceits[k].matchers@, seen, true)
        &&& response_fits(deceits[k].responses@[i], seen, true)
        &&& forall|j: int|
            0 <= j < i ==> !response_fits(#[trigger] deceits[k].responses@[j], seen, false)
    }
    &&& forall|e: int| 0 <= e < k ==> deceit_picks(#[trigger] deceits[e], req, false) is None
}

/// Where no response may be chosen, none is: a rule of which every response
/// fails gives no response.
pub proof fn lemma_none_fits(responses: Seq<DeceitResponse>, req: RequestView, from: int)
    requires
        forall|j: int| 0 <= j < responses.len() ==> !response_fits(#[trigger] responses[j], req, false),
    ensures
        first_fitting(responses, req, false, from) is None,
    decreases responses.len() - from,
{
    if 0 <= from < responses.len() {
        lemma_none_fits(responses, req, from + 1);
    }
}

/// A rule that gives no response is passed over: the selection is that of
/// the rules after it. So a rule whose checks fail, or whose responses all
/// fail, hands the request to the next rule.
pub proof fn lemma_fallthrough(deceits: Seq<Deceit>, req: RequestView, scripts: bool, from: int)
    requires
        0 <= from < deceits.len(),
        deceit_picks(deceits[from], req, scripts) is None,
    ensures
        first_pick(deceits, req, scripts, from) == first_pick(deceits, req, scripts, from + 1),
{
}

/// The selection of a configuration without scripts in its checks is a
/// function of the configuration and the request alone.
pub proof fn lemma_selection_is_exact(deceits: Seq<Deceit>, req: RequestView, from: int)
    requires
        specs_script_free(deceits),
    ensures
        first_pick(deceits, req, false, from) == first_pick(deceits, req, true, from),
    decreases deceits.len() - from,
{
    if 0 <= from < deceits.len() {
        let d = deceits[from];
        match uris_match(strings_view(d.uris@), req.request_path) {
            Some(captures) => {
                lemma_choice_is_exact(d, with_paths(req, captures));
            },
            None => {},
        }
        lemma_selection_is_exact(deceits, req, from + 1);
    }
}

/// Selects the rule and the response for the request: the rules are tried in
/// order, and the first whose patterns match the path, whose checks pass and
/// of which a response may be chosen is taken, with its first such response.
/// `ctx` is left with the path and the captures of the last rule whose
/// patterns matched. Without scripts the result is exactly [`selection`];
/// with scripts it is a selection that [`may_select`] allows.
pub fn select_response(deceits: &Vec<Deceit>, ctx: &mut RequestContext, rhai: &mut RhaiState) -> (r:
    Option<(usize, usize)>)
    requires
        old(rhai).wf(),
    ensures
        final(rhai).wf(),
        final(rhai).scripts == old(rhai).scripts,
        same_request(final(ctx)@, old(ctx)@),
        match r {
            Some((k, i)) => {
                &&& may_select(deceits@, old(ctx)@, k as int, i as int)
                &&& final(ctx)@ == with_paths(
                    old(ctx)@,
                    uris_match(strings_view(deceits@[k as int].uris@), old(ctx)@.request_path)->0,
                )
            },
            None => forall|e: int|
                0 <= e < deceits@.len() ==> deceit_picks(#[trigger] deceits@[e], old(ctx)@, false)
                    is None,
        },
        specs_script_free(deceits@) ==> match r {
            Some((k, i)) => selection(deceits@, old(ctx)@, true) == Some((k as int, i as int)),
            None => selection(deceits@, old(ctx)@, true) is None,
        },
{
    let ghost req = ctx@;
    let mut k: usize = 0;
    while k < deceits.len()
        invariant
            k <= deceits@.len(),
            rhai.wf(),
            rhai.scripts == old(rhai).scripts,
            req == old(ctx)@,
            same_request(ctx@, req),
            forall|e: int| 0 <= e < k ==> deceit_picks(#[trigger] deceits@[e], req, false) is None,
            specs_script_free(deceits@) ==> first_pick(deceits@, req, true, 0) == first_pick(
                deceits@,
                req,
                true,
                k as int,
            ),
        decreases deceits.len() - k,
    {
        let d = &deceits[k];
        proof {
            if specs_script_free(deceits@) {
                assert(deceit_script_free(deceits@[k as int]));
            }
        }
        let matched = d.match_againtst_uris(ctx.request_path.as_str());
        match matched {
            None => {},
            Some(found) => {
                let ghost captures = pairs_view(found.args@);
                ctx.update_paths(found.path, found.args);
                assert(ctx@ == with_paths(req, captures));
                let deceit_ref = ResourceRef::new(k);
                match d.match_response(&deceit_ref, ctx, rhai) {
                    Some(i) => {
                        return Some((k, i));
                    },
                    None => {
                        proof {
                            let seen = with_paths(req, captures);
                            if all_approve(d.matchers@, seen, false) {
                                lemma_none_fits(d.responses@, seen, 0);
                            }
                            assert(chosen_response(*d, seen, false) is None);
                            if deceit_script_free(*d) {
                                lemma_choice_is_exact(*d, seen);
                            }
                        }
                    },
                }
            },
        }
        k += 1;
    }
    None
}

/// Whether `resp` is a response that the engine can give to the request with
/// this configuration: the report that no rule handles the path, where no
/// rule must handle it; or an answer of a response that may be selected.
pub open spec fn handled(
    deceits: Seq<Deceit>,
    registry: Seq<ApateProcessor>,
    scripts: Seq<(Seq<char>, Seq<char>)>,
    req: RequestView,
    resp: ResponseView,
) -> bool {
    ||| (resp == not_found_view(req.request_path) && forall|e: int|
        0 <= e < deceits.len() ==> deceit_picks(#[trigger] deceits[e], req, false) is None)
    ||| exists|k: int, i: int|
        may_select(deceits, req, k, i) && answers(
            deceits[k],
            deceits[k].responses@[i],
            registry,
            scripts,
            resp,
        )
}

/// Whether `resp` is the response that a configuration without scripts in
/// its checks gives to the request: the report that no rule handles the path
/// where nothing is selected, else an answer of the selected response, and
/// exactly its static answer where that response is static.
pub open spec fn handled_exactly(
    deceits: Seq<Deceit>,
    registry: Seq<ApateProcessor>,
    scripts: Seq<(Seq<char>, Seq<char>)>,
    req: RequestView,
    resp: ResponseView,
) -> bool {
    match selection(deceits, req, true) {
        None => resp == not_found_view(req.request_path),
        Some((k, i)) => {
            &&& 0 <= k < deceits.len()
            &&& 0 <= i < deceits[k].responses@.len()
            &&& answers(deceits[k], deceits[k].responses@[i], registry, scripts, resp)
            &&& is_static(deceits[k], deceits[k].responses@[i]) ==> static_answer(
                deceits[k],
                deceits[k].responses@[i],
                resp,
            )
        },
    }
}

/// Answers one request: selects the rule and the response, renders the body,
/// runs the processors and sets status and headers; or reports with status
/// 404 that no rule handles the path. Once a response is selected the answer
/// is made from it, also where that fails. The configuration stays as it is;
/// the caches may grow.
pub fn deceit_handler(req: RequestContext, state: &mut ApateState) -> (resp: ApateResponse)
    requires
        old(state).wf(),
    ensures
        final(state).wf(),
        final(state).specs == old(state).specs,
        is_http_status(resp@.status),
        handled(
            old(state).specs.deceit@,
            old(state).processors@,
            scripts_view(old(state).specs.scripts@),
            req@,
            resp@,
        ),
        specs_script_free(old(state).specs.deceit@) ==> handled_exactly(
            old(state).specs.deceit@,
            old(state).processors@,
            scripts_view(old(state).specs.scripts@),
            req@,
            resp@,
        ),
{
    let mut ctx = req;
    let selected = select_response(&state.specs.deceit, &mut ctx, &mut state.rhai);
    match selected {
        None => not_found_response(ctx.request_path.as_str()),
        Some((k, i)) => {
            let d = &state.specs.deceit[k];
            let dresp = &d.responses[i];
            let rref = ResourceRef::new(k).with_level(i);
            respond(
                d,
                dresp,
                &rref,
                &ctx,
                &state.counters,
                &state.processors,
                &mut state.minijinja,
                &mut state.rhai,
            )
        },
    }
}

/// Answers one request that is not for the administration.
pub fn apate_server_handler(req: RequestContext, state: &mut ApateState) -> (resp: ApateResponse)
    requires
        old(state).wf(),
    ensures
        final(state).wf(),
        final(state).specs == old(state).specs,
        is_http_status(resp@.status),
        handled(
            old(state).specs.deceit@,
            old(state).processors@,
            scripts_view(old(state).specs.scripts@),
            req@,
            resp@,
        ),
        specs_script_free(old(state).specs.deceit@) ==> handled_exactly(
            old(state).specs.deceit@,
            old(state).processors@,
            scripts_view(old(state).specs.scripts@),
            req@,
            resp@,
        ),
{
    deceit_handler(req, state)
}

} // verus!
