//! A deceit is the unit of configuration: URI patterns, checks, and the
//! responses to choose from.

use vstd::prelude::*;
use std::sync::atomic::AtomicU16;
use std::sync::Arc;
use crate::cell::new_code_cell;
use crate::counters::ApateCounters;
use crate::matchers::{
    all_approve, all_script_free, all_within_depth, fit_depth, lemma_script_free_is_exact,
    matchers_and, Matcher, MAX_MATCHER_DEPTH,
};
use crate::output::OutputType;
use crate::processors::Processor;
use crate::request::{pairs_view, strings_view, RequestContext, RequestView};
use crate::resource::ResourceRef;
use crate::rhai::RhaiState;
use crate::uri::{all_supported, are_supported_patterns, match_uris, uris_match};

verus! {

/// A rule for one or several URI patterns.
#[derive(Clone, Debug)]
pub struct Deceit {
    /// The patterns: a literal path or one with captures such as
    /// `/user/{user_id}`. The first that matches the request path counts.
    pub uris: Vec<String>,
    /// Headers of every response of this rule.
    pub headers: Vec<(String, String)>,
    /// Checks that all have to pass, or the next rule is tried.
    pub matchers: Vec<Matcher>,
    /// Processors of every response of this rule.
    pub processors: Vec<Processor>,
    /// The responses to choose from, in order.
    pub responses: Vec<DeceitResponse>,
}

/// One response of a rule.
#[derive(Clone, Debug)]
pub struct DeceitResponse {
    /// The status code, where the response sets one.
    pub code: Option<u16>,
    /// Checks that all have to pass, or the next response is tried.
    pub matchers: Vec<Matcher>,
    /// Headers that follow those of the rule.
    pub headers: Vec<(String, String)>,
    /// Processors that follow those of the rule.
    pub processors: Vec<Processor>,
    /// How `output` is read.
    pub output_type: OutputType,
    /// The text from which the body is made.
    pub output: String,
}

/// What the renderers and the processors of one response work with: the
/// request, the cell for the status code that a script or template asks for
/// (0 while none has), and the counters.
pub struct DeceitResponseContext {
    pub req: RequestContext,
    pub response_code: Arc<AtomicU16>,
    pub counters: ApateCounters,
}

impl Clone for DeceitResponseContext {
    /// A copy for the same request, which shares the cell for the status code
    /// and the counters.
    fn clone(&self) -> (r: Self)
        ensures
            r.req@ == self.req@,
    {
        DeceitResponseContext {
            req: self.req.clone(),
            response_code: self.response_code.clone(),
            counters: self.counters.clone(),
        }
    }
}

/// The context for the response to `ctx`, with a fresh cell for the status
/// code.
pub fn create_response_context(ctx: RequestContext, cnt: ApateCounters) -> (r:
    DeceitResponseContext)
    ensures
        r.req == ctx,
        r.counters == cnt,
        r.req@ == ctx@,
{
    DeceitResponseContext { req: ctx, response_code: new_code_cell(), counters: cnt }
}

/// A request path that a rule's patterns matched, with the arguments
/// captured from it by name.
#[derive(Clone, Debug)]
pub struct PathMatch {
    pub path: String,
    pub args: Vec<(String, String)>,
}

/// Whether the response may be chosen for the request, where every script
/// answers `scripts`: it has no checks, or all of them pass.
pub open spec fn response_fits(resp: DeceitResponse, req: RequestView, scripts: bool) -> bool {
    resp.matchers@.len() == 0 || all_approve(resp.matchers@, req, scripts)
}

/// The index of the first response from `from` on that may be chosen.
pub open spec fn first_fitting(
    responses: Seq<DeceitResponse>,
    req: RequestView,
    scripts: bool,
    from: int,
) -> Option<int>
    decreases responses.len() - from,
{
    if from < 0 || from >= responses.len() {
        None
    } else if response_fits(responses[from], req, scripts) {
        Some(from)
    } else {
        first_fitting(responses, req, scripts, from + 1)
    }
}

/// The response that the rule gives to a request whose path its patterns
/// have matched, where every script answers `scripts`: none where a check of
/// the rule fails, else the first response that may be chosen.
pub open spec fn chosen_response(d: Deceit, req: RequestView, scripts: bool) -> Option<int> {
    if all_approve(d.matchers@, req, scripts) {
        first_fitting(d.responses@, req, scripts, 0)
    } else {
        None
    }
}

/// Whether no script takes part in the checks of the rule and of its
/// responses.
pub open spec fn deceit_script_free(d: Deceit) -> bool {
    &&& all_script_free(d.matchers@)
    &&& forall|i: int|
        0 <= i < d.responses@.len() ==> all_script_free((#[trigger] d.responses@[i]).matchers@)
}

/// Without scripts a list of checks has one outcome.
pub proof fn lemma_list_is_exact(matchers: Seq<Matcher>, req: RequestView)
    requires
        all_script_free(matchers),
    ensures
        all_approve(matchers, req, false) == all_approve(matchers, req, true),
{
    assert forall|i: int| 0 <= i < matchers.len() implies crate::matchers::approves(
        #[trigger] matchers[i],
        req,
        false,
    ) == crate::matchers::approves(matchers[i], req, true) by {
        lemma_script_free_is_exact(matchers[i], req);
    }
}

/// Without scripts the choice among the responses does not depend on what
/// scripts would answer.
pub proof fn lemma_first_fitting_is_exact(
    responses: Seq<DeceitResponse>,
    req: RequestView,
    from: int,
)
    requires
        forall|i: int|
            0 <= i < responses.len() ==> all_script_free((#[trigger] responses[i]).matchers@),
    ensures
        first_fitting(responses, req, false, from) == first_fitting(responses, req, true, from),
    decreases responses.len() - from,
{
    if 0 <= from < responses.len() {
        lemma_list_is_exact(responses[from].matchers@, req);
        lemma_first_fitting_is_exact(responses, req, from + 1);
    }
}

/// The response of a rule without scripts is a function of the rule and the
/// request alone.
pub proof fn lemma_choice_is_exact(d: Deceit, req: RequestView)
    requires
        deceit_script_free(d),
    ensures
        chosen_response(d, req, false) == chosen_response(d, req, true),
{
    lemma_list_is_exact(d.matchers@, req);
    lemma_first_fitting_is_exact(d.responses@, req, 0);
}

impl Deceit {
    /// A rule is valid where it has at least one URI pattern, every pattern
    /// is one that this library matches, and no tree of checks nests deeper
    /// than [`MAX_MATCHER_DEPTH`].
    pub open spec fn wf(&self) -> bool {
        &&& self.uris@.len() >= 1
        &&& all_supported(strings_view(self.uris@))
        &&& all_within_depth(self.matchers@, MAX_MATCHER_DEPTH as nat)
        &&& forall|i: int|
            0 <= i < self.responses@.len() ==> all_within_depth(
                (#[trigger] self.responses@[i]).matchers@,
                MAX_MATCHER_DEPTH as nat,
            )
    }

    /// Whether the rule is valid.
    pub fn is_valid(&self) -> (r: bool)
        ensures
            r == self.wf(),
    {
        if self.uris.len() == 0 || !are_supported_patterns(&self.uris) {
            return false;
        }
        if !fit_depth(&self.matchers, MAX_MATCHER_DEPTH) {
            return false;
        }
        let mut i: usize = 0;
        while i < self.responses.len()
            invariant
                i <= self.responses@.len(),
                forall|k: int|
                    0 <= k < i ==> all_within_depth(
                        (#[trigger] self.responses@[k]).matchers@,
                        MAX_MATCHER_DEPTH as nat,
                    ),
            decreases self.responses.len() - i,
        {
            if !fit_depth(&self.responses[i].matchers, MAX_MATCHER_DEPTH) {
                return false;
            }
            i += 1;
        }
        true
    }

    /// Matches the request path against the patterns of the rule. The first
    /// pattern that matches the whole path counts; its captures are handed
    /// out with the path.
    pub fn match_againtst_uris(&self, request_path: &str) -> (r: Option<PathMatch>)
        ensures
            r is Some <==> uris_match(strings_view(self.uris@), request_path@) is Some,
            r is Some ==> r->0.path@ == request_path@ && pairs_view(r->0.args@) == uris_match(
                strings_view(self.uris@),
                request_path@,
            )->0,
    {
        match match_uris(&self.uris, request_path) {
            Some(args) => Some(PathMatch { path: request_path.to_owned(), args }),
            None => None,
        }
    }

    /// Chooses the response for a request whose path the patterns have
    /// matched: none where a check of the rule fails, else the first response
    /// without checks or with checks that all pass. Without scripts this is
    /// exactly [`chosen_response`]. A script's answer is no function of the
    /// request, so with scripts the contract says what holds whatever they
    /// answer: what is chosen may be chosen if every script says yes, and
    /// nothing that must be chosen even if every script says no is passed
    /// over.
    pub fn match_response(&self, rref: &ResourceRef, ctx: &RequestContext, rhai: &mut RhaiState) -> (r:
        Option<usize>)
        requires
            old(rhai).wf(),
        ensures
            final(rhai).wf(),
            final(rhai).scripts == old(rhai).scripts,
            match r {
                Some(i) => {
                    &&& i < self.responses@.len()
                    &&& all_approve(self.matchers@, ctx@, true)
                    &&& response_fits(self.responses@[i as int], ctx@, true)
                    &&& forall|j: int|
                        0 <= j < i ==> !response_fits(#[trigger] self.responses@[j], ctx@, false)
                },
                None => {
                    ||| !all_approve(self.matchers@, ctx@, false)
                    ||| forall|j: int|
                        0 <= j < self.responses@.len() ==> !response_fits(
                            #[trigger] self.responses@[j],
                            ctx@,
                            false,
                        )
                },
            },
            deceit_script_free(*self) ==> match r {
                Some(i) => chosen_response(*self, ctx@, true) == Some(i as int),
                None => chosen_response(*self, ctx@, true) is None,
            },
    {
        proof {
            if deceit_script_free(*self) {
                lemma_list_is_exact(self.matchers@, ctx@);
            }
        }
        if !matchers_and(rref, rhai, ctx, &self.matchers) {
            return None;
        }
        let mut idx: usize = 0;
        while idx < self.responses.len()
            invariant
                idx <= self.responses@.len(),
                rhai.wf(),
                rhai.scripts == old(rhai).scripts,
                all_approve(self.matchers@, ctx@, true),
                forall|j: int|
                    0 <= j < idx ==> !response_fits(#[trigger] self.responses@[j], ctx@, false),
                deceit_script_free(*self) ==> first_fitting(self.responses@, ctx@, true, 0)
                    == first_fitting(self.responses@, ctx@, true, idx as int),
            decreases self.responses.len() - idx,
        {
            let dr = &self.responses[idx];
            proof {
                if deceit_script_free(*self) {
                    lemma_list_is_exact(dr.matchers@, ctx@);
                }
            }
            if dr.matchers.len() == 0 {
                return Some(idx);
            }
            let deceit_ref = rref.with_level(idx);
            if matchers_and(&deceit_ref, rhai, ctx, &dr.matchers) {
                return Some(idx);
            }
            idx += 1;
        }
        None
    }
}

impl Default for Deceit {
    fn default() -> (r: Self)
        ensures
            r.uris@.len() == 0,
            r.headers@.len() == 0,
            r.matchers@.len() == 0,
            r.processors@.len() == 0,
            r.responses@.len() == 0,
    {
        Deceit {
            uris: Vec::new(),
            headers: Vec::new(),
            matchers: Vec::new(),
            processors: Vec::new(),
            responses: Vec::new(),
        }
    }
}

impl Default for DeceitResponse {
    fn default() -> (r: Self)
        ensures
            r.code is None,
            r.matchers@.len() == 0,
            r.headers@.len() == 0,
            r.processors@.len() == 0,
            r.output_type == OutputType::String,
            r.output@.len() == 0,
    {
        DeceitResponse {
            code: None,
            matchers: Vec::new(),
            headers: Vec::new(),
            processors: Vec::new(),
            output_type: OutputType::String,
            output: String::new(),
        }
    }
}

/// Builds a [`Deceit`] step by step.
pub struct DeceitBuilder {
    pub uris: Vec<String>,
    pub headers: Vec<(String, String)>,
    pub matchers: Vec<Matcher>,
    pub processors: Vec<Processor>,
    pub responses: Vec<DeceitResponse>,
}

/// The texts of a list of string slices.
pub open spec fn slices_view(items: Seq<&str>) -> Seq<Seq<char>> {
    items.map_values(|s: &str| s@)
}

impl DeceitBuilder {
    /// Starts a rule for the patterns `uris`, with nothing else set.
    pub fn with_uris(uris: &[&str]) -> (r: Self)
        ensures
            strings_view(r.uris@) == slices_view(uris@),
            r.headers@.len() == 0,
            r.matchers@.len() == 0,
            r.processors@.len() == 0,
            r.responses@.len() == 0,
    {
        let mut owned: Vec<String> = Vec::new();
        let mut i: usize = 0;
        while i < uris.len()
            invariant
                i <= uris.len(),
                owned.len() == i,
                forall|j: int| 0 <= j < i ==> (#[trigger] owned@[j])@ == uris@[j]@,
            decreases uris.len() - i,
        {
            owned.push(uris[i].to_owned());
            i += 1;
        }
        assert(strings_view(owned@) =~= slices_view(uris@));
        DeceitBuilder {
            uris: owned,
            headers: Vec::new(),
            matchers: Vec::new(),
            processors: Vec::new(),
            responses: Vec::new(),
        }
    }

    /// The rule that was built.
    pub fn build(self) -> (r: Deceit)
        ensures
            r.uris == self.uris,
            r.headers == self.headers,
            r.matchers == self.matchers,
            r.processors == self.processors,
            r.responses == self.responses,
    {
        Deceit {
            uris: self.uris,
            headers: self.headers,
            matchers: self.matchers,
            processors: self.processors,
            responses: self.responses,
        }
    }

    /// Adds a response header.
    pub fn add_header(self, key: &str, value: &str) -> (r: Self)
        ensures
            pairs_view(r.headers@) == pairs_view(self.headers@).push((key@, value@)),
            r == (Self { headers: r.headers, ..self }),
    {
        let mut b = self;
        b.headers.push((key.to_owned(), value.to_owned()));
        assert(pairs_view(b.headers@) =~= pairs_view(self.headers@).push((key@, value@)));
        b
    }

    /// Adds a processor at the end of the chain.
    pub fn add_processor(self, processor: Processor) -> (r: Self)
        ensures
            r.processors@ == self.processors@.push(processor),
            r == (Self { processors: r.processors, ..self }),
    {
        let mut b = self;
        b.processors.push(processor);
        b
    }

    /// Puts `responses` in the place of the responses added so far.
    pub fn with_responses(self, responses: Vec<DeceitResponse>) -> (r: Self)
        ensures
            r == (Self { responses, ..self }),
    {
        let mut b = self;
        b.responses = responses;
        b
    }

    /// Adds a response after those added so far.
    pub fn add_response(self, response: DeceitResponse) -> (r: Self)
        ensures
            r.responses@ == self.responses@.push(response),
            r == (Self { responses: r.responses, ..self }),
    {
        let mut b = self;
        b.responses.push(response);
        b
    }

    /// Adds a check.
    pub fn add_matcher(self, matcher: Matcher) -> (r: Self)
        ensures
            r.matchers@ == self.matchers@.push(matcher),
            r == (Self { matchers: r.matchers, ..self }),
    {
        let mut b = self;
        b.matchers.push(matcher);
        b
    }

    /// Adds the check that the request method occurs in `http_method`.
    pub fn require_method(self, http_method: &str) -> (r: Self)
        ensures
            r.matchers@.len() == self.matchers@.len() + 1,
            r.matchers@.drop_last() == self.matchers@,
            r.matchers@.last() matches Matcher::Method { eq, negate } && eq@ == http_method@ && !negate,
            r == (Self { matchers: r.matchers, ..self }),
    {
        let mut b = self;
        b.matchers.push(Matcher::Method { eq: http_method.to_owned(), negate: false });
        assert(b.matchers@.drop_last() =~= self.matchers@);
        b
    }

    /// Adds the check that the header `key` has the value `value`.
    pub fn require_header(self, key: &str, value: &str) -> (r: Self)
        ensures
            r.matchers@.len() == self.matchers@.len() + 1,
            r.matchers@.drop_last() == self.matchers@,
            r.matchers@.last() matches Matcher::Header { key: k, value: v, negate } && k@ == key@
                && v@ == value@ && !negate,
            r == (Self { matchers: r.matchers, ..self }),
    {
        let mut b = self;
        b.matchers.push(
            Matcher::Header { key: key.to_owned(), value: value.to_owned(), negate: false },
        );
        assert(b.matchers@.drop_last() =~= self.matchers@);
        b
    }

    /// Adds the check that the query argument `name` has the value `value`.
    pub fn require_query_arg(self, name: &str, value: &str) -> (r: Self)
        ensures
            r.matchers@.len() == self.matchers@.len() + 1,
            r.matchers@.drop_last() == self.matchers@,
            r.matchers@.last() matches Matcher::QueryArg { name: n, value: v, negate } && n@ == name@
                && v@ == value@ && !negate,
            r == (Self { matchers: r.matchers, ..self }),
    {
        let mut b = self;
        b.matchers.push(
            Matcher::QueryArg { name: name.to_owned(), value: value.to_owned(), negate: false },
        );
        assert(b.matchers@.drop_last() =~= self.matchers@);
        b
    }

    /// Adds the check that the path argument `name` has the value `value`.
    pub fn require_path_arg(self, name: &str, value: &str) -> (r: Self)
        ensures
            r.matchers@.len() == self.matchers@.len() + 1,
            r.matchers@.drop_last() == self.matchers@,
            r.matchers@.last() matches Matcher::PathArg { name: n, value: v, negate } && n@ == name@
                && v@ == value@ && !negate,
            r == (Self { matchers: r.matchers, ..self }),
    {
        let mut b = self;
        b.matchers.push(
            Matcher::PathArg { name: name.to_owned(), value: value.to_owned(), negate: false },
        );
        assert(b.matchers@.drop_last() =~= self.matchers@);
        b
    }

    /// Adds the check that the JSON path `json_path` finds the string `eq` in
    /// the body.
    pub fn require_json_match(self, json_path: &str, eq: &str) -> (r: Self)
        ensures
            r.matchers@.len() == self.matchers@.len() + 1,
            r.matchers@.drop_last() == self.matchers@,
            r.matchers@.last() matches Matcher::Json { path: p, eq: e, negate } && p@ == json_path@
                && e@ == eq@ && !negate,
            r == (Self { matchers: r.matchers, ..self }),
    {
        let mut b = self;
        b.matchers.push(
            Matcher::Json { path: json_path.to_owned(), eq: eq.to_owned(), negate: false },
        );
        assert(b.matchers@.drop_last() =~= self.matchers@);
        b
    }

    /// Puts `matchers` in the place of the checks added so far.
    pub fn with_matchers(self, matchers: Vec<Matcher>) -> (r: Self)
        ensures
            r == (Self { matchers, ..self }),
    {
        let mut b = self;
        b.matchers = matchers;
        b
    }
}

/// Builds a [`DeceitResponse`] step by step.
pub struct DeceitResponseBuilder {
    pub code: Option<u16>,
    pub matchers: Vec<Matcher>,
    pub headers: Vec<(String, String)>,
    pub processors: Vec<Processor>,
    pub output_type: OutputType,
    pub output: String,
}

impl Default for DeceitResponseBuilder {
    fn default() -> (r: Self)
        ensures
            r.code is None,
            r.matchers@.len() == 0,
            r.headers@.len() == 0,
            r.processors@.len() == 0,
            r.output_type == OutputType::String,
            r.output@.len() == 0,
    {
        DeceitResponseBuilder {
            code: None,
            matchers: Vec::new(),
            headers: Vec::new(),
            processors: Vec::new(),
            output_type: OutputType::String,
            output: String::new(),
        }
    }
}

impl DeceitResponseBuilder {
    /// The response that was built.
    pub fn build(self) -> (r: DeceitResponse)
        ensures
            r.code == self.code,
            r.matchers == self.matchers,
            r.headers == self.headers,
            r.processors == self.processors,
            r.output_type == self.output_type,
            r.output == self.output,
    {
        DeceitResponse {
            code: self.code,
            matchers: self.matchers,
            headers: self.headers,
            processors: self.processors,
            output_type: self.output_type,
            output: self.output,
        }
    }

    /// Sets the status code.
    pub fn code(self, code: u16) -> (r: Self)
        ensures
            r == (Self { code: Some(code), ..self }),
    {
        let mut b = self;
        b.code = Some(code);
        b
    }

    /// Adds a response header.
    pub fn add_header(self, key: &str, value: &str) -> (r: Self)
        ensures
            pairs_view(r.headers@) == pairs_view(self.headers@).push((key@, value@)),
            r == (Self { headers: r.headers, ..self }),
    {
        let mut b = self;
        b.headers.push((key.to_owned(), value.to_owned()));
        assert(pairs_view(b.headers@) =~= pairs_view(self.headers@).push((key@, value@)));
        b
    }

    /// Adds a processor at the end of the chain.
    pub fn add_processor(self, processor: Processor) -> (r: Self)
        ensures
            r.processors@ == self.processors@.push(processor),
            r == (Self { processors: r.processors, ..self }),
    {
        let mut b = self;
        b.processors.push(processor);
        b
    }

    /// Sets the text from which the body is made.
    pub fn with_output(self, output: &str) -> (r: Self)
        ensures
            r.output@ == output@,
            r == (Self { output: r.output, ..self }),
    {
        let mut b = self;
        b.output = output.to_owned();
        b
    }

    /// Sets how the output text is read.
    pub fn with_output_type(self, output_type: OutputType) -> (r: Self)
        ensures
            r == (Self { output_type, ..self }),
    {
        let mut b = self;
        b.output_type = output_type;
        b
    }

    /// Adds a check.
    pub fn add_matcher(self, matcher: Matcher) -> (r: Self)
        ensures
            r.matchers@ == self.matchers@.push(matcher),
            r == (Self { matchers: r.matchers, ..self }),
    {
        let mut b = self;
        b.matchers.push(matcher);
        b
    }

    /// Adds the check that the request method occurs in `http_method`.
    pub fn require_method(self, http_method: &str) -> (r: Self)
        ensures
            r.matchers@.len() == self.matchers@.len() + 1,
            r.matchers@.drop_last() == self.matchers@,
            r.matchers@.last() matches Matcher::Method { eq, negate } && eq@ == http_method@ && !negate,
            r == (Self { matchers: r.matchers, ..self }),
    {
        let mut b = self;
        b.matchers.push(Matcher::Method { eq: http_method.to_owned(), negate: false });
        assert(b.matchers@.drop_last() =~= self.matchers@);
        b
    }

    /// Adds the check that the header `key` has the value `value`.
    pub fn require_header(self, key: &str, value: &str) -> (r: Self)
        ensures
            r.matchers@.len() == self.matchers@.len() + 1,
            r.matchers@.drop_last() == self.matchers@,
            r.matchers@.last() matches Matcher::Header { key: k, value: v, negate } && k@ == key@
                && v@ == value@ && !negate,
            r == (Self { matchers: r.matchers, ..self }),
    {
        let mut b = self;
        b.matchers.push(
            Matcher::Header { key: key.to_owned(), value: value.to_owned(), negate: false },
        );
        assert(b.matchers@.drop_last() =~= self.matchers@);
        b
    }

    /// Adds the check that the query argument `name` has the value `value`.
    pub fn require_query_arg(self, name: &str, value: &str) -> (r: Self)
        ensures
            r.matchers@.len() == self.matchers@.len() + 1,
            r.matchers@.drop_last() == self.matchers@,
            r.matchers@.last() matches Matcher::QueryArg { name: n, value: v, negate } && n@ == name@
                && v@ == value@ && !negate,
            r == (Self { matchers: r.matchers, ..self }),
    {
        let mut b = self;
        b.matchers.push(
            Matcher::QueryArg { name: name.to_owned(), value: value.to_owned(), negate: false },
        );
        assert(b.matchers@.drop_last() =~= self.matchers@);
        b
    }

    /// Adds the check that the path argument `name` has the value `value`.
    pub fn require_path_arg(self, name: &str, value: &str) -> (r: Self)
        ensures
            r.matchers@.len() == self.matchers@.len() + 1,
            r.matchers@.drop_last() == self.matchers@,
            r.matchers@.last() matches Matcher::PathArg { name: n, value: v, negate } && n@ == name@
                && v@ == value@ && !negate,
            r == (Self { matchers: r.matchers, ..self }),
    {
        let mut b = self;
        b.matchers.push(
            Matcher::PathArg { name: name.to_owned(), value: value.to_owned(), negate: false },
        );
        assert(b.matchers@.drop_last() =~= self.matchers@);
        b
    }

    /// Adds the check that the JSON path `json_path` finds the string `eq` in
    /// the body.
    pub fn require_json_match(self, json_path: &str, eq: &str) -> (r: Self)
        ensures
            r.matchers@.len() == self.matchers@.len() + 1,
            r.matchers@.drop_last() == self.matchers@,
            r.matchers@.last() matches Matcher::Json { path: p, eq: e, negate } && p@ == json_path@
                && e@ == eq@ && !negate,
            r == (Self { matchers: r.matchers, ..self }),
    {
        let mut b = self;
        b.matchers.push(
            Matcher::Json { path: json_path.to_owned(), eq: eq.to_owned(), negate: false },
        );
        assert(b.matchers@.drop_last() =~= self.matchers@);
        b
    }

    /// Puts `matchers` in the place of the checks added so far.
    pub fn with_matchers(self, matchers: Vec<Matcher>) -> (r: Self)
        ensures
            r == (Self { matchers, ..self }),
    {
        let mut b = self;
        b.matchers = matchers;
        b
    }
}

} // verus!
