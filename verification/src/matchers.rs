//! Matchers are the checks that a request has to pass for a rule, or for one
//! of its responses, to apply.

use vstd::prelude::*;
use vstd::string::StringSliceAdditionalSpecFns;
use vstd::utf8::encode_utf8;
use crate::request::{
    find_header, find_value, header_lookup, lookup, RequestContext, RequestView,
};
use crate::resource::{resource_id, ResourceRef};
use crate::rhai::{
    global_key, one_noted, predicate_verdict, scripts_view, RhaiRequestContext, RhaiState,
};
use crate::text::{contains_run, has_run, str_eq};

verus! {

/// A check on a request. `And` and `Or` combine checks; the others look at one
/// part of the request. `negate` turns the outcome of such a check around.
#[derive(Debug)]
pub enum Matcher {
    And { matchers: Vec<Matcher> },
    Or { matchers: Vec<Matcher> },
    /// The request method occurs in `eq` once that is put in upper case.
    Method { eq: String, negate: bool },
    /// The header named `key` has the value `value`.
    Header { key: String, value: String, negate: bool },
    /// The query argument `name` has the value `value`.
    QueryArg { name: String, value: String, negate: bool },
    /// The argument `name` captured from the path has the value `value`.
    PathArg { name: String, value: String, negate: bool },
    /// The body is JSON and the JSON path `path` finds in it exactly one
    /// value, the string `eq`.
    Json { path: String, eq: String, negate: bool },
    /// A script written inline decides.
    Rhai { script: String },
    /// A script of the configuration's list of scripts decides, by its id.
    RhaiRef { id: String, args: Vec<String> },
}

impl Clone for Matcher {
    fn clone(&self) -> Self
        decreases *self,
    {
        match self {
            Matcher::And { matchers } => Matcher::And { matchers: clone_list(matchers) },
            Matcher::Or { matchers } => Matcher::Or { matchers: clone_list(matchers) },
            Matcher::Method { eq, negate } => Matcher::Method { eq: eq.clone(), negate: *negate },
            Matcher::Header { key, value, negate } => Matcher::Header {
                key: key.clone(),
                value: value.clone(),
                negate: *negate,
            },
            Matcher::QueryArg { name, value, negate } => Matcher::QueryArg {
                name: name.clone(),
                value: value.clone(),
                negate: *negate,
            },
            Matcher::PathArg { name, value, negate } => Matcher::PathArg {
                name: name.clone(),
                value: value.clone(),
                negate: *negate,
            },
            Matcher::Json { path, eq, negate } => Matcher::Json {
                path: path.clone(),
                eq: eq.clone(),
                negate: *negate,
            },
            Matcher::Rhai { script } => Matcher::Rhai { script: script.clone() },
            Matcher::RhaiRef { id, args } => Matcher::RhaiRef { id: id.clone(), args: args.clone() },
        }
    }
}

fn clone_list(matchers: &Vec<Matcher>) -> (r: Vec<Matcher>)
    ensures
        r.len() == matchers.len(),
    decreases *matchers,
{
    let mut out: Vec<Matcher> = Vec::new();
    let mut i: usize = 0;
    while i < matchers.len()
        invariant
            i <= matchers.len(),
            out.len() == i,
        decreases matchers.len() - i,
    {
        proof {
            assert(decreases_to!(*matchers => matchers[i as int]));
        }
        out.push(matchers[i].clone());
        i += 1;
    }
    out
}

impl Matcher {
    /// The name of the kind of check, in capitals.
    pub fn kind_name(&self) -> (s: &'static str)
        ensures
            s@ == kind_name_of(*self),
    {
        match self {
            Matcher::And { .. } => "AND",
            Matcher::Or { .. } => "OR",
            Matcher::Method { .. } => "METHOD",
            Matcher::Header { .. } => "HEADER",
            Matcher::PathArg { .. } => "PATH_ARG",
            Matcher::QueryArg { .. } => "QUERY_ARG",
            Matcher::Json { .. } => "JSON",
            Matcher::Rhai { .. } => "RHAI",
            Matcher::RhaiRef { .. } => "RHAI_REF",
        }
    }
}

/// The name of the kind of check that `m` is, in capitals.
pub open spec fn kind_name_of(m: Matcher) -> Seq<char> {
    match m {
        Matcher::And { .. } => "AND"@,
        Matcher::Or { .. } => "OR"@,
        Matcher::Method { .. } => "METHOD"@,
        Matcher::Header { .. } => "HEADER"@,
        Matcher::PathArg { .. } => "PATH_ARG"@,
        Matcher::QueryArg { .. } => "QUERY_ARG"@,
        Matcher::Json { .. } => "JSON"@,
        Matcher::Rhai { .. } => "RHAI"@,
        Matcher::RhaiRef { .. } => "RHAI_REF"@,
    }
}

/// A name for what `str::to_uppercase` of the standard library returns: the
/// text with every character in its upper-case form, by the rules of Unicode.
pub uninterp spec fn uppercased(text: Seq<char>) -> Seq<char>;

/// Calls `str::to_uppercase`. The contract only names the result.
#[verifier::external_body]
fn to_uppercase(text: &str) -> (r: String)
    ensures
        r@ == uppercased(text@),
{
    text.to_uppercase()
}

/// A JSON document of `serde_json`. The verifier sees nothing inside it.
#[verifier::external_type_specification]
#[verifier::external_body]
pub struct ExJson(serde_json::Value);

/// A name for the document that `serde_json` reads from a body; `None` where
/// the body is no JSON.
pub uninterp spec fn json_document(body: Seq<u8>) -> Option<serde_json::Value>;

/// A name for what a JSON path finds in a document: for each value found, in
/// the order in which `jsonpath_rust` reports them, the text of the value
/// where it is a JSON string and `None` where it is of another kind. The
/// whole is `None` where the path is not a JSON path.
pub uninterp spec fn json_hits(document: serde_json::Value, path: Seq<char>) -> Option<
    Seq<Option<Seq<char>>>,
>;

/// What a JSON path finds in a body: what it finds in the document that the
/// body holds, and `None` where the body is no JSON.
pub open spec fn json_path_hits(body: Seq<u8>, path: Seq<char>) -> Option<Seq<Option<Seq<char>>>> {
    match json_document(body) {
        Some(document) => json_hits(document, path),
        None => None,
    }
}

/// The texts of a list of values found.
pub open spec fn hits_view(hits: Seq<Option<String>>) -> Seq<Option<Seq<char>>> {
    hits.map_values(
        |h: Option<String>|
            match h {
                Some(s) => Some(s@),
                None => None,
            },
    )
}

/// Reads the body with `serde_json::from_slice`. The contract only names the
/// result: the same body always gives the same document.
#[verifier::external_body]
pub(crate) fn parse_json(body: &Vec<u8>) -> (r: Option<serde_json::Value>)
    ensures
        r == json_document(body@),
{
    serde_json::from_slice(body).ok()
}

/// Queries the document with `JsonPath::query_with_path` of `jsonpath_rust`.
/// The contract only names the result: the same document and path always
/// give the same values.
#[verifier::external_body]
fn query_json(document: &serde_json::Value, path: &str) -> (r: Option<Vec<Option<String>>>)
    ensures
        r is Some <==> json_hits(*document, path@) is Some,
        r is Some ==> hits_view(r->0@) == json_hits(*document, path@)->0,
{
    let hits = jsonpath_rust::JsonPath::query_with_path(document, path).ok()?;
    Some(hits.into_iter().map(|h| h.val().as_str().map(str::to_string)).collect())
}

/// What the JSON path finds in the body.
pub fn json_query(body: &Vec<u8>, path: &str) -> (r: Option<Vec<Option<String>>>)
    ensures
        r is Some <==> json_path_hits(body@, path@) is Some,
        r is Some ==> hits_view(r->0@) == json_path_hits(body@, path@)->0,
{
    match parse_json(body) {
        Some(document) => query_json(&document, path),
        None => None,
    }
}

/// Whether what a JSON path found counts as a match for `value`: exactly one
/// value was found, and it is the string `value`.
pub open spec fn json_found(hits: Option<Seq<Option<Seq<char>>>>, value: Seq<char>) -> bool {
    hits matches Some(found) && found.len() == 1 && found[0] == Some(value)
}

/// Whether what a JSON path found counts as a match for `value`.
pub fn json_hits_match(hits: &Option<Vec<Option<String>>>, value: &str) -> (r: bool)
    ensures
        r == json_found(
            match *hits {
                Some(found) => Some(hits_view(found@)),
                None => None,
            },
            value@,
        ),
{
    match hits {
        Some(found) => {
            if found.len() != 1 {
                return false;
            }
            match &found[0] {
                Some(text) => {
                    let same = str_eq(text.as_str(), value);
                    assert(hits_view(found@)[0] == Some(text@));
                    same
                },
                None => {
                    assert(hits_view(found@)[0] is None);
                    false
                },
            }
        },
        None => false,
    }
}

/// `value`, or its opposite where `negate` is set.
pub open spec fn flipped(value: bool, negate: bool) -> bool {
    value != negate
}

fn flip_boolean(value: bool, negate: bool) -> (r: bool)
    ensures
        r == flipped(value, negate),
{
    if negate {
        !value
    } else {
        value
    }
}

/// Whether the request method occurs in `configured` once that is put in
/// upper case. So `GET|POST` accepts both methods, and so does `GETPOST`.
pub open spec fn method_matches(configured: Seq<char>, req: RequestView) -> bool {
    has_run(encode_utf8(uppercased(configured)), encode_utf8(req.method))
}

/// Whether the header `key`, letter case aside, has exactly the value `value`.
pub open spec fn header_matches(key: Seq<char>, value: Seq<char>, req: RequestView) -> bool {
    header_lookup(req.headers, key) == Some(value)
}

/// Whether the query argument `name` has exactly the value `value`.
pub open spec fn query_arg_matches(name: Seq<char>, value: Seq<char>, req: RequestView) -> bool {
    lookup(req.query_args, name) == Some(value)
}

/// Whether the argument `name` captured from the path has exactly the value
/// `value`.
pub open spec fn path_arg_matches(name: Seq<char>, value: Seq<char>, req: RequestView) -> bool {
    lookup(req.path_args, name) == Some(value)
}

/// Whether the JSON path `path` finds in the body exactly one value, the
/// string `value`. A body that is not JSON gives `false`.
pub open spec fn json_matches(path: Seq<char>, value: Seq<char>, req: RequestView) -> bool {
    json_found(json_path_hits(req.body, path), value)
}

/// Whether `m` lets the request pass, where every script answers `scripts`.
/// What a script answers is not a function of the request, so the outcome of
/// a tree with scripts in it lies between the one for `false` and the one for
/// `true`; for a tree without scripts the two are the same.
pub open spec fn approves(m: Matcher, req: RequestView, scripts: bool) -> bool
    decreases m,
{
    match m {
        Matcher::And { matchers } => forall|i: int|
            0 <= i < matchers.len() ==> approves(#[trigger] matchers[i], req, scripts),
        Matcher::Or { matchers } => exists|i: int|
            0 <= i < matchers.len() && approves(#[trigger] matchers[i], req, scripts),
        Matcher::Method { eq, negate } => flipped(method_matches(eq@, req), negate),
        Matcher::Header { key, value, negate } => flipped(
            header_matches(key@, value@, req),
            negate,
        ),
        Matcher::QueryArg { name, value, negate } => flipped(
            query_arg_matches(name@, value@, req),
            negate,
        ),
        Matcher::PathArg { name, value, negate } => flipped(
            path_arg_matches(name@, value@, req),
            negate,
        ),
        Matcher::Json { path, eq, negate } => flipped(json_matches(path@, eq@, req), negate),
        Matcher::Rhai { .. } => scripts,
        Matcher::RhaiRef { .. } => scripts,
    }
}

/// Whether every check of the list lets the request pass.
pub open spec fn all_approve(matchers: Seq<Matcher>, req: RequestView, scripts: bool) -> bool {
    forall|i: int| 0 <= i < matchers.len() ==> approves(#[trigger] matchers[i], req, scripts)
}

/// Whether some check of the list lets the request pass.
pub open spec fn any_approves(matchers: Seq<Matcher>, req: RequestView, scripts: bool) -> bool {
    exists|i: int| 0 <= i < matchers.len() && approves(#[trigger] matchers[i], req, scripts)
}

/// Whether no script takes part in `m`.
pub open spec fn script_free(m: Matcher) -> bool
    decreases m,
{
    match m {
        Matcher::And { matchers } => forall|i: int|
            0 <= i < matchers.len() ==> script_free(#[trigger] matchers[i]),
        Matcher::Or { matchers } => forall|i: int|
            0 <= i < matchers.len() ==> script_free(#[trigger] matchers[i]),
        Matcher::Rhai { .. } => false,
        Matcher::RhaiRef { .. } => false,
        _ => true,
    }
}

/// Whether no script takes part in any check of the list.
pub open spec fn all_script_free(matchers: Seq<Matcher>) -> bool {
    forall|i: int| 0 <= i < matchers.len() ==> script_free(#[trigger] matchers[i])
}

/// The outcome of a tree without scripts is a function of the request alone.
pub proof fn lemma_script_free_is_exact(m: Matcher, req: RequestView)
    requires
        script_free(m),
    ensures
        approves(m, req, false) == approves(m, req, true),
    decreases m,
{
    match m {
        Matcher::And { matchers } => {
            assert forall|i: int| 0 <= i < matchers.len() implies approves(
                #[trigger] matchers[i],
                req,
                false,
            ) == approves(matchers[i], req, true) by {
                lemma_script_free_is_exact(matchers[i], req);
            }
        },
        Matcher::Or { matchers } => {
            assert forall|i: int| 0 <= i < matchers.len() implies approves(
                #[trigger] matchers[i],
                req,
                false,
            ) == approves(matchers[i], req, true) by {
                lemma_script_free_is_exact(matchers[i], req);
            }
        },
        _ => {},
    }
}

/// A tree that passes when every script says no also passes when every
/// script says yes.
pub proof fn lemma_scripts_only_help(m: Matcher, req: RequestView)
    ensures
        approves(m, req, false) ==> approves(m, req, true),
    decreases m,
{
    match m {
        Matcher::And { matchers } => {
            assert forall|i: int| 0 <= i < matchers.len() implies (approves(
                #[trigger] matchers[i],
                req,
                false,
            ) ==> approves(matchers[i], req, true)) by {
                lemma_scripts_only_help(matchers[i], req);
            }
        },
        Matcher::Or { matchers } => {
            assert forall|i: int| 0 <= i < matchers.len() implies (approves(
                #[trigger] matchers[i],
                req,
                false,
            ) ==> approves(matchers[i], req, true)) by {
                lemma_scripts_only_help(matchers[i], req);
            }
        },
        _ => {},
    }
}

/// The deepest nesting of `And` and `Or` that a configuration may hold.
pub const MAX_MATCHER_DEPTH: usize = 64;

/// Whether the tree nests `And` and `Or` at most `limit` deep.
pub open spec fn within_depth(m: Matcher, limit: nat) -> bool
    decreases m,
{
    match m {
        Matcher::And { matchers } => limit > 0 && forall|i: int|
            0 <= i < matchers.len() ==> within_depth(#[trigger] matchers[i], (limit - 1) as nat),
        Matcher::Or { matchers } => limit > 0 && forall|i: int|
            0 <= i < matchers.len() ==> within_depth(#[trigger] matchers[i], (limit - 1) as nat),
        _ => true,
    }
}

/// Whether every tree of the list nests at most `limit` deep.
pub open spec fn all_within_depth(matchers: Seq<Matcher>, limit: nat) -> bool {
    forall|i: int| 0 <= i < matchers.len() ==> within_depth(#[trigger] matchers[i], limit)
}

/// Whether every tree of the list nests at most `limit` deep.
pub fn fit_depth(matchers: &Vec<Matcher>, limit: usize) -> (r: bool)
    ensures
        r == all_within_depth(matchers@, limit as nat),
    decreases *matchers,
{
    let mut i: usize = 0;
    while i < matchers.len()
        invariant
            i <= matchers.len(),
            forall|k: int| 0 <= k < i ==> within_depth(#[trigger] matchers@[k], limit as nat),
        decreases matchers.len() - i,
    {
        proof {
            assert(decreases_to!(*matchers => matchers[i as int]));
        }
        if !fits_depth(&matchers[i], limit) {
            assert(!within_depth(matchers@[i as int], limit as nat));
            return false;
        }
        i += 1;
    }
    true
}

/// Whether the tree nests `And` and `Or` at most `limit` deep.
pub fn fits_depth(matcher: &Matcher, limit: usize) -> (r: bool)
    ensures
        r == within_depth(*matcher, limit as nat),
    decreases *matcher,
{
    match matcher {
        Matcher::And { matchers } => {
            proof {
                assert(*matcher is And);
                assert(matcher->And_matchers == *matchers);
                assert(decreases_to!(*matcher => matcher->And_matchers));
            }
            if limit == 0 {
                false
            } else {
                fit_depth(matchers, limit - 1)
            }
        },
        Matcher::Or { matchers } => {
            proof {
                assert(*matcher is Or);
                assert(matcher->Or_matchers == *matchers);
                assert(decreases_to!(*matcher => matcher->Or_matchers));
            }
            if limit == 0 {
                false
            } else {
                fit_depth(matchers, limit - 1)
            }
        },
        _ => true,
    }
}

/// Whether the argument `name` captured from the path has the value `value`.
pub fn match_path_arg(name: &str, value: &str, ctx: &RequestContext) -> (r: bool)
    ensures
        r == path_arg_matches(name@, value@, ctx@),
{
    match find_value(&ctx.path_args, name) {
        Some(found) => str_eq(found.as_str(), value),
        None => false,
    }
}

/// Whether the query argument `name` has the value `value`.
pub fn match_query_arg(name: &str, value: &str, ctx: &RequestContext) -> (r: bool)
    ensures
        r == query_arg_matches(name@, value@, ctx@),
{
    match find_value(&ctx.query_args, name) {
        Some(found) => str_eq(found.as_str(), value),
        None => false,
    }
}

/// Whether the request method occurs in `method` put in upper case.
pub fn match_method(method: &str, ctx: &RequestContext) -> (r: bool)
    ensures
        r == method_matches(method@, ctx@),
{
    let upper = to_uppercase(method);
    contains_run(upper.as_str().as_bytes(), ctx.method.as_str().as_bytes())
}

/// Whether the header `key` has the value `value`.
pub fn match_header(key: &str, value: &str, ctx: &RequestContext) -> (r: bool)
    ensures
        r == header_matches(key@, value@, ctx@),
{
    match find_header(&ctx.headers, key) {
        Some(found) => str_eq(found.as_str(), value),
        None => false,
    }
}

/// Whether the JSON path `path` finds exactly the string `value` in the body.
pub fn match_json(path: &str, value: &str, ctx: &RequestContext) -> (r: bool)
    ensures
        r == json_matches(path@, value@, ctx@),
{
    let hits = json_query(&ctx.body, path);
    json_hits_match(&hits, value)
}

/// Lets the script of the configuration with the id `script_id` decide, with
/// the request as `ctx` and `args` in scope. A script that is missing, does
/// not compile, fails or returns no boolean counts as `false`, and its error
/// is put to the notes of the runtime. The script is
/// compiled at most once: it is kept under `global:` and its id. So where
/// the answer is `true` the cache holds the script's source under that key;
/// where the cache held it before, and where there is no such script, the
/// cache stays as it was; and what is kept under other keys stays.
pub fn match_rhai_ref(
    rhai: &mut RhaiState,
    rref: &ResourceRef,
    script_id: &str,
    ctx: &RequestContext,
    args: Vec<String>,
) -> (r: bool)
    requires
        old(rhai).wf(),
    ensures
        final(rhai).wf(),
        final(rhai).scripts == old(rhai).scripts,
        r ==> final(rhai).notes == old(rhai).notes,
        !r ==> final(rhai).notes == old(rhai).notes || one_noted(
            old(rhai).notes@,
            final(rhai).notes@,
        ),
        match lookup(scripts_view(old(rhai).scripts@), script_id@) {
            None => !r && final(rhai).asts == old(rhai).asts,
            Some(source) => {
                &&& r ==> final(rhai).cached_source(global_key(script_id@)) == Some(source)
                &&& old(rhai).cached_source(global_key(script_id@)) == Some(source) ==> final(rhai).asts == old(rhai).asts
                &&& final(rhai).cached_source(global_key(script_id@)) == Some(source) || final(rhai).asts == old(rhai).asts
            },
        },
        forall|k: Seq<char>|
            k != global_key(script_id@) ==> final(rhai).cached_source(k) == old(
                rhai,
            ).cached_source(k),
{
    match rhai.get_exec_global(script_id) {
        Ok(slot) => {
            let outcome = rhai.run_predicate(slot, RhaiRequestContext::from(ctx.clone()), &args);
            match &outcome {
                Err(e) => {
                    rhai.note(e);
                },
                Ok(_) => {},
            }
            predicate_verdict(outcome)
        },
        Err(e) => {
            rhai.note(&e);
            false
        },
    }
}

/// Lets the script `script` decide, with the request as `ctx` in scope. A
/// script that does not compile, fails or returns no boolean counts as
/// `false`, and its error is put to the notes of the runtime. The script is compiled at most once: it is kept under the key of
/// its position `rref`. So where the answer is `true` the cache holds the
/// script under that key; where the cache held it before, and where it does
/// not compile, the cache stays as it was; and what is kept under other keys
/// stays.
pub fn match_rhai(rhai: &mut RhaiState, rref: &ResourceRef, script: &str, ctx: &RequestContext) -> (r:
    bool)
    requires
        old(rhai).wf(),
    ensures
        final(rhai).wf(),
        final(rhai).scripts == old(rhai).scripts,
        r ==> final(rhai).notes == old(rhai).notes,
        !r ==> final(rhai).notes == old(rhai).notes || one_noted(
            old(rhai).notes@,
            final(rhai).notes@,
        ),
        r ==> final(rhai).cached_source(resource_id("rhai-matcher"@, rref.ids@)) == Some(script@),
        old(rhai).cached_source(resource_id("rhai-matcher"@, rref.ids@)) == Some(script@) ==> final(rhai).asts == old(rhai).asts,
        final(rhai).cached_source(resource_id("rhai-matcher"@, rref.ids@)) == Some(script@) || final(rhai).asts == old(rhai).asts,
        forall|k: Seq<char>|
            k != resource_id("rhai-matcher"@, rref.ids@) ==> final(rhai).cached_source(k) == old(
                rhai,
            ).cached_source(k),
{
    let id = rref.to_resource_id("rhai-matcher");
    match rhai.get_exec(id, script) {
        Ok(slot) => {
            let no_args: Vec<String> = Vec::new();
            let outcome = rhai.run_predicate(slot, RhaiRequestContext::from(ctx.clone()), &no_args);
            match &outcome {
                Err(e) => {
                    rhai.note(e);
                },
                Ok(_) => {},
            }
            predicate_verdict(outcome)
        },
        Err(e) => {
            rhai.note(&e);
            false
        },
    }
}

/// Whether `key` is a key under which a script of the tree at `position` is
/// kept once it was compiled: the key of its position for a script written
/// inline, `global:` and the id for a script of the configuration. The check
/// at index `i` of a list has the position of the list with `i` added.
pub open spec fn touches(m: Matcher, position: Seq<usize>, key: Seq<char>) -> bool
    decreases m,
{
    match m {
        Matcher::And { matchers } => exists|i: int|
            0 <= i < matchers.len() && touches(
                #[trigger] matchers[i],
                position.push(i as usize),
                key,
            ),
        Matcher::Or { matchers } => exists|i: int|
            0 <= i < matchers.len() && touches(
                #[trigger] matchers[i],
                position.push(i as usize),
                key,
            ),
        Matcher::Rhai { .. } => key == resource_id("rhai-matcher"@, position),
        Matcher::RhaiRef { id, .. } => key == global_key(id@),
        _ => false,
    }
}

/// Whether `key` is a key of a script of one of the first `upto` checks of
/// the list at `position`.
pub open spec fn list_touches(
    matchers: Seq<Matcher>,
    position: Seq<usize>,
    upto: int,
    key: Seq<char>,
) -> bool {
    exists|i: int|
        0 <= i < upto && i < matchers.len() && touches(
            #[trigger] matchers[i],
            position.push(i as usize),
            key,
        )
}

/// Whether every check of `matchers` lets the request pass; the first that
/// does not ends the evaluation, so that the scripts of the checks after it
/// are not even compiled: where the check at `d` fails whatever scripts
/// answer, the cache changes at most under the keys of the checks up to `d`.
/// The check at index `i` has the position `rref` with `i` added.
pub fn matchers_and(
    rref: &ResourceRef,
    rhai: &mut RhaiState,
    ctx: &RequestContext,
    matchers: &Vec<Matcher>,
) -> (r: bool)
    requires
        old(rhai).wf(),
    ensures
        final(rhai).wf(),
        final(rhai).scripts == old(rhai).scripts,
        all_approve(matchers@, ctx@, false) ==> r,
        r ==> all_approve(matchers@, ctx@, true),
        forall|k: Seq<char>|
            !list_touches(matchers@, rref.ids@, matchers@.len() as int, k) ==> final(rhai).cached_source(k) == old(rhai).cached_source(k),
        forall|d: int, k: Seq<char>|
            0 <= d < matchers@.len() && !approves(matchers@[d], ctx@, true) && !#[trigger] list_touches(
                matchers@,
                rref.ids@,
                d + 1,
                k,
            ) ==> final(rhai).cached_source(k) == old(rhai).cached_source(k),
    decreases *matchers,
{
    let mut mid: usize = 0;
    while mid < matchers.len()
        invariant
            mid <= matchers.len(),
            rhai.wf(),
            rhai.scripts == old(rhai).scripts,
            forall|j: int| 0 <= j < mid ==> approves(#[trigger] matchers@[j], ctx@, true),
            forall|k: Seq<char>|
                !list_touches(matchers@, rref.ids@, mid as int, k) ==> rhai.cached_source(k)
                    == old(rhai).cached_source(k),
        decreases matchers.len() - mid,
    {
        let matcher_ref = rref.with_level(mid);
        let ghost before = *rhai;
        proof {
            assert(decreases_to!(*matchers => matchers[mid as int]));
        }
        let passed = is_matcher_approves(&matcher_ref, rhai, ctx, &matchers[mid]);
        proof {
            assert forall|k: Seq<char>|
                !list_touches(matchers@, rref.ids@, mid + 1, k) implies rhai.cached_source(k)
                == old(rhai).cached_source(k) by {
                assert(!list_touches(matchers@, rref.ids@, mid as int, k));
                assert(!touches(matchers@[mid as int], rref.ids@.push(mid), k));
                assert(before.cached_source(k) == old(rhai).cached_source(k));
            }
        }
        if !passed {
            assert(!approves(matchers@[mid as int], ctx@, false));
            assert forall|d: int, k: Seq<char>|
                0 <= d < matchers@.len() && !approves(matchers@[d], ctx@, true) && !#[trigger] list_touches(
                    matchers@,
                    rref.ids@,
                    d + 1,
                    k,
                ) implies rhai.cached_source(k) == old(rhai).cached_source(k) by {
                assert(d >= mid);
                assert(!list_touches(matchers@, rref.ids@, mid + 1, k));
            }
            assert forall|k: Seq<char>|
                !list_touches(matchers@, rref.ids@, matchers@.len() as int, k) implies rhai.cached_source(
                k,
            ) == old(rhai).cached_source(k) by {
                assert(!list_touches(matchers@, rref.ids@, mid + 1, k));
            }
            return false;
        }
        mid += 1;
    }
    true
}

/// Whether some check of `matchers` lets the request pass; the first that
/// does ends the evaluation, so that the scripts of the checks after it are
/// not even compiled: where the check at `d` passes whatever scripts answer,
/// the cache changes at most under the keys of the checks up to `d`.
pub fn matchers_or(
    rref: &ResourceRef,
    rhai: &mut RhaiState,
    ctx: &RequestContext,
    matchers: &Vec<Matcher>,
) -> (r: bool)
    requires
        old(rhai).wf(),
    ensures
        final(rhai).wf(),
        final(rhai).scripts == old(rhai).scripts,
        any_approves(matchers@, ctx@, false) ==> r,
        r ==> any_approves(matchers@, ctx@, true),
        forall|k: Seq<char>|
            !list_touches(matchers@, rref.ids@, matchers@.len() as int, k) ==> final(rhai).cached_source(k) == old(rhai).cached_source(k),
        forall|d: int, k: Seq<char>|
            0 <= d < matchers@.len() && approves(matchers@[d], ctx@, false) && !#[trigger] list_touches(
                matchers@,
                rref.ids@,
                d + 1,
                k,
            ) ==> final(rhai).cached_source(k) == old(rhai).cached_source(k),
    decreases *matchers,
{
    let mut mid: usize = 0;
    while mid < matchers.len()
        invariant
            mid <= matchers.len(),
            rhai.wf(),
            rhai.scripts == old(rhai).scripts,
            forall|j: int| 0 <= j < mid ==> !approves(#[trigger] matchers@[j], ctx@, false),
            forall|k: Seq<char>|
                !list_touches(matchers@, rref.ids@, mid as int, k) ==> rhai.cached_source(k)
                    == old(rhai).cached_source(k),
        decreases matchers.len() - mid,
    {
        let matcher_ref = rref.with_level(mid);
        let ghost before = *rhai;
        proof {
            assert(decreases_to!(*matchers => matchers[mid as int]));
        }
        let passed = is_matcher_approves(&matcher_ref, rhai, ctx, &matchers[mid]);
        proof {
            assert forall|k: Seq<char>|
                !list_touches(matchers@, rref.ids@, mid + 1, k) implies rhai.cached_source(k)
                == old(rhai).cached_source(k) by {
                assert(!list_touches(matchers@, rref.ids@, mid as int, k));
                assert(!touches(matchers@[mid as int], rref.ids@.push(mid), k));
                assert(before.cached_source(k) == old(rhai).cached_source(k));
            }
        }
        if passed {
            assert(approves(matchers@[mid as int], ctx@, true));
            assert forall|d: int, k: Seq<char>|
                0 <= d < matchers@.len() && approves(matchers@[d], ctx@, false) && !#[trigger] list_touches(
                    matchers@,
                    rref.ids@,
                    d + 1,
                    k,
                ) implies rhai.cached_source(k) == old(rhai).cached_source(k) by {
                assert(d >= mid);
                assert(!list_touches(matchers@, rref.ids@, mid + 1, k));
            }
            assert forall|k: Seq<char>|
                !list_touches(matchers@, rref.ids@, matchers@.len() as int, k) implies rhai.cached_source(
                k,
            ) == old(rhai).cached_source(k) by {
                assert(!list_touches(matchers@, rref.ids@, mid + 1, k));
            }
            return true;
        }
        mid += 1;
    }
    false
}

/// Whether `matcher` lets the request pass. Without scripts in it the answer
/// is `approves` of the tree and the request; with scripts it lies between
/// the answers for scripts that all say no and scripts that all say yes.
pub fn is_matcher_approves(
    rref: &ResourceRef,
    rhai: &mut RhaiState,
    ctx: &RequestContext,
    matcher: &Matcher,
) -> (r: bool)
    requires
        old(rhai).wf(),
    ensures
        final(rhai).wf(),
        final(rhai).scripts == old(rhai).scripts,
        approves(*matcher, ctx@, false) ==> r,
        r ==> approves(*matcher, ctx@, true),
        forall|k: Seq<char>|
            !touches(*matcher, rref.ids@, k) ==> final(rhai).cached_source(k) == old(
                rhai,
            ).cached_source(k),
    decreases *matcher,
{
    match matcher {
        Matcher::QueryArg { name, value, negate } => flip_boolean(
            match_query_arg(name.as_str(), value.as_str(), ctx),
            *negate,
        ),
        Matcher::PathArg { name, value, negate } => flip_boolean(
            match_path_arg(name.as_str(), value.as_str(), ctx),
            *negate,
        ),
        Matcher::Method { eq, negate } => flip_boolean(match_method(eq.as_str(), ctx), *negate),
        Matcher::Header { key, value, negate } => flip_boolean(
            match_header(key.as_str(), value.as_str(), ctx),
            *negate,
        ),
        Matcher::Json { path, eq, negate } => flip_boolean(
            match_json(path.as_str(), eq.as_str(), ctx),
            *negate,
        ),
        Matcher::Rhai { script } => match_rhai(rhai, rref, script.as_str(), ctx),
        Matcher::RhaiRef { id, args } => match_rhai_ref(rhai, rref, id.as_str(), ctx, args.clone()),
        Matcher::And { matchers } => {
            proof {
                assert(*matcher is And);
                assert(matcher->And_matchers == *matchers);
                assert(decreases_to!(*matcher => matcher->And_matchers));
            }
            matchers_and(rref, rhai, ctx, matchers)
        },
        Matcher::Or { matchers } => {
            proof {
                assert(*matcher is Or);
                assert(matcher->Or_matchers == *matchers);
                assert(decreases_to!(*matcher => matcher->Or_matchers));
            }
            matchers_or(rref, rhai, ctx, matchers)
        },
    }
}

} // verus!
