//! The template runtime: templates are compiled once, kept by name, and
//! rendered with the request in scope as `ctx`.

use vstd::prelude::*;
use std::sync::atomic::AtomicU16;
use std::sync::Arc;
use crate::cell::store_code;
use crate::codec::hex_encoded;
use crate::random::{
    is_uuid_v4_text, random_hex_count, random_hex_text, random_num_allows, random_number, uuid_text, TooManyBytes,
    MAX_RANDOM_BYTES,
};
use crate::counters::CounterError;
use crate::deceit::DeceitResponseContext;
use crate::keyed::KeyedList;
use crate::matchers::{json_document, parse_json};
use crate::request::{pairs_map, pairs_view};
use crate::text::{decimal, decimal_string, str_eq};

verus! {

/// The template environment of `minijinja`: the helpers and the compiled
/// templates. The verifier sees nothing inside it.
#[verifier::external_type_specification]
#[verifier::external_body]
pub struct ExEnvironment<'source>(minijinja::Environment<'source>);

/// A value of the template language of `minijinja`. The verifier sees
/// nothing inside it.
#[verifier::external_type_specification]
#[verifier::external_body]
pub struct ExValue(minijinja::Value);

/// The template helper `random_num`: a random number in decimal.
pub fn ctx_random_num(a: Option<u128>, b: Option<u128>) -> (r: String)
    ensures
        exists|n: u128| random_num_allows(a, b, n) && r@ == decimal(n as nat),
{
    let n = random_number(a, b);
    decimal_string(n)
}

/// The template helper `random_hex`: that many random bytes, 32 where no
/// number is given, in hexadecimal digits. It fails exactly where more than
/// [`MAX_RANDOM_BYTES`] are asked for.
pub fn ctx_random_hex(length: Option<u64>) -> (r: Result<String, TooManyBytes>)
    ensures
        r is Err <==> random_hex_count(length) > MAX_RANDOM_BYTES,
        r is Ok ==> exists|bytes: Seq<u8>|
            bytes.len() == random_hex_count(length) && r->Ok_0@ == hex_encoded(bytes),
{
    random_hex_text(length)
}

/// The template helper `uuid_v4`: a random UUID as text.
pub fn ctx_uuid_v4() -> (r: String)
    ensures
        is_uuid_v4_text(r@),
{
    uuid_text()
}

/// What templates see as `ctx`.
#[derive(Clone)]
pub struct MiniJinjaResponseContext {
    pub ctx: DeceitResponseContext,
}

/// Whether every byte is ASCII white space.
pub open spec fn is_blank(bytes: Seq<u8>) -> bool {
    forall|i: int| 0 <= i < bytes.len() ==> is_ascii_space(#[trigger] bytes[i])
}

/// Whether `b` is ASCII white space: a space, a tab, a line feed, a form feed
/// or a carriage return.
pub open spec fn is_ascii_space(b: u8) -> bool {
    b == 32 || b == 9 || b == 10 || b == 12 || b == 13
}

/// A name for the text that `String::from_utf8_lossy` of the standard
/// library makes of bytes: the text they encode, with the replacement
/// character in the place of what is no valid UTF-8.
pub uninterp spec fn lossy_text(bytes: Seq<u8>) -> Seq<char>;

/// Calls `String::from_utf8_lossy`. The contract only names the result.
#[verifier::external_body]
fn text_of_bytes(bytes: &Vec<u8>) -> (r: String)
    ensures
        r@ == lossy_text(bytes@),
{
    String::from_utf8_lossy(bytes).into_owned()
}

impl MiniJinjaResponseContext {
    /// The context for `ctx`.
    pub fn new(ctx: DeceitResponseContext) -> (r: Self)
        ensures
            r.ctx == ctx,
    {
        MiniJinjaResponseContext { ctx }
    }

    /// `ctx.load_body_string()`: the request body as text, or nothing where
    /// the body is empty or only white space.
    pub fn load_body_string(&self) -> (r: Option<String>)
        ensures
            match r {
                Some(text) => !is_blank(self.ctx.req.body@) && text@ == lossy_text(
                    self.ctx.req.body@,
                ),
                None => is_blank(self.ctx.req.body@),
            },
    {
        let body = &self.ctx.req.body;
        let mut i: usize = 0;
        while i < body.len()
            invariant
                i <= body.len(),
                body@ == self.ctx.req.body@,
                forall|j: int| 0 <= j < i ==> is_ascii_space(#[trigger] body@[j]),
            decreases body.len() - i,
        {
            let b = body[i];
            if !(b == 32 || b == 9 || b == 10 || b == 12 || b == 13) {
                assert(!is_ascii_space(body@[i as int]));
                return Some(text_of_bytes(body));
            }
            i += 1;
        }
        None
    }

    /// `ctx.load_body_json()`: the request body as the template value of the
    /// JSON document that it holds, or nothing where it is no JSON.
    pub fn load_body_json(&self) -> (r: Option<minijinja::Value>)
        ensures
            r is Some <==> json_document(self.ctx.req.body@) is Some,
    {
        match parse_json(&self.ctx.req.body) {
            Some(document) => Some(value_of_json(&document)),
            None => None,
        }
    }

    /// `ctx.inc_counter(key)`: adds one to a counter and returns the value it
    /// had before.
    pub fn inc_counter(&self, key: &str) -> (r: Result<u64, CounterError>) {
        self.ctx.counters.get_and_increment(key)
    }

    /// `ctx.set_response_code(code)`: asks for a status code. Of a value that
    /// does not fit in 16 bits the low 16 bits count.
    pub fn set_response_code(&self, code: i64) {
        let low: u16 = #[verifier::truncate]
        (code as u16);
        store_code(&self.ctx.response_code, low);
    }
}

/// A name for the text that a template value that is a string holds.
pub uninterp spec fn value_text(value: minijinja::Value) -> Seq<char>;

/// `Value::from` for a text: a string value that holds the text.
#[verifier::external_body]
fn value_of_text(text: &str) -> (r: minijinja::Value)
    ensures
        value_text(r) == text@,
{
    minijinja::Value::from(text)
}

/// A name for the texts, by name, of the map that a template value returns
/// where it is a function that is called without arguments.
pub uninterp spec fn value_returns(function: minijinja::Value) -> Map<Seq<char>, Seq<char>>;

/// `Value::from_function` for a function without arguments that returns the
/// pairs as a map made with `Value::from_iter`, in which a later pair
/// replaces an earlier one of the same name.
#[verifier::external_body]
fn function_returning_pairs(pairs: &Vec<(String, String)>) -> (r: minijinja::Value)
    ensures
        value_returns(r) == pairs_map(pairs_view(pairs@)),
{
    let map = minijinja::Value::from_iter(pairs.iter().cloned());
    minijinja::Value::from_function(move || map.clone())
}

/// A name for the names of the entries of a template value that is a map.
pub uninterp spec fn value_fields(value: minijinja::Value) -> Set<Seq<char>>;

/// A name for what a template value that is a map holds under a name.
pub uninterp spec fn value_entry(value: minijinja::Value, name: Seq<char>) -> minijinja::Value;

/// The names of a list of named values.
pub open spec fn entry_names(entries: Seq<(String, minijinja::Value)>) -> Set<Seq<char>>
    decreases entries.len(),
{
    if entries.len() == 0 {
        Set::empty()
    } else {
        entry_names(entries.drop_last()).insert(entries.last().0@)
    }
}

/// Whether no entry after the one at `i` has its name.
pub open spec fn is_last_of_name(entries: Seq<(String, minijinja::Value)>, i: int) -> bool {
    forall|j: int| i < j < entries.len() ==> (#[trigger] entries[j]).0@ != entries[i].0@
}

/// `Value::from_iter` for named values: a map with an entry for each name,
/// which holds the value of the last entry of that name.
#[verifier::external_body]
fn value_of_entries(entries: Vec<(String, minijinja::Value)>) -> (r: minijinja::Value)
    ensures
        value_fields(r) == entry_names(entries@),
        forall|i: int|
            0 <= i < entries@.len() && is_last_of_name(entries@, i) ==> value_entry(
                r,
                (#[trigger] entries@[i]).0@,
            ) == entries@[i].1,
{
    minijinja::Value::from_iter(entries)
}

/// `Value::from_function` for `ctx.load_body_string()`; where that gives no
/// text the call gives the undefined value, which renders as nothing.
#[verifier::external_body]
fn function_load_body_string(ctx: MiniJinjaResponseContext) -> minijinja::Value {
    minijinja::Value::from_function(move || match ctx.load_body_string() {
        Some(text) => minijinja::Value::from(text),
        None => minijinja::Value::UNDEFINED,
    })
}

/// `Value::from_serialize` for a JSON document: the template value that
/// stands for it.
#[verifier::external_body]
fn value_of_json(document: &serde_json::Value) -> minijinja::Value {
    minijinja::Value::from_serialize(document)
}

/// `Value::from_function` for `ctx.load_body_json()`; where that gives no
/// document the call fails.
#[verifier::external_body]
fn function_load_body_json(ctx: MiniJinjaResponseContext) -> minijinja::Value {
    minijinja::Value::from_function(move || {
        ctx.load_body_json().ok_or(minijinja::Error::from(minijinja::ErrorKind::CannotUnpack))
    })
}

/// `Value::from_function` for `ctx.inc_counter(key)`.
#[verifier::external_body]
fn function_inc_counter(ctx: MiniJinjaResponseContext) -> minijinja::Value {
    minijinja::Value::from_function(move |key: String| {
        ctx.inc_counter(&key).map_err(|_| minijinja::Error::from(minijinja::ErrorKind::UndefinedError))
    })
}

/// `Value::from_function` for `ctx.set_response_code(code)`, which renders as
/// nothing.
#[verifier::external_body]
fn function_set_response_code(ctx: MiniJinjaResponseContext) -> minijinja::Value {
    minijinja::Value::from_function(move |code: i64| {
        ctx.set_response_code(code);
        minijinja::Value::UNDEFINED
    })
}

/// `Value::from_function` for `force_response_code(code)`, which stores the
/// code in the cell.
#[verifier::external_body]
fn function_force_response_code(cell: Arc<AtomicU16>) -> minijinja::Value {
    minijinja::Value::from_function(move |code: u16| store_code(&cell, code))
}

fn push_entry(entries: &mut Vec<(String, minijinja::Value)>, name: &str, value: minijinja::Value)
    ensures
        final(entries)@ == old(entries)@.push((final(entries)@.last().0, value)),
        final(entries)@.last().0@ == name@,
        entry_names(final(entries)@) == entry_names(old(entries)@).insert(name@),
{
    entries.push((name.to_owned(), value));
    assert(entries@.drop_last() =~= old(entries)@);
}

/// The names of the entries of `ctx` as a template sees it: the request's
/// method and path, and the methods that a template calls on it.
pub open spec fn ctx_names() -> Set<Seq<char>> {
    set![
        "method"@,
        "path"@,
        "load_headers"@,
        "load_query_args"@,
        "load_path_args"@,
        "load_body_string"@,
        "load_body_json"@,
        "inc_counter"@,
        "set_response_code"@,
    ]
}

/// The names that a template is rendered with.
pub open spec fn top_names() -> Set<Seq<char>> {
    set!["force_response_code"@, "ctx"@]
}

/// What a template is rendered with: a map with the function
/// `force_response_code` and with `ctx`, which is a map with the entries of
/// [`ctx_names`]: the request's `method` and `path` and the methods that
/// templates call on it. Of these `load_headers`, `load_query_args` and
/// `load_path_args` return the headers, the query arguments and the path
/// arguments as maps from name to value.
pub fn build_tpl_context(ctx: DeceitResponseContext) -> (r: minijinja::Value)
    ensures
        value_fields(r) == top_names(),
        value_fields(value_entry(r, "ctx"@)) == ctx_names(),
        value_text(value_entry(value_entry(r, "ctx"@), "method"@)) == ctx.req.method@,
        value_text(value_entry(value_entry(r, "ctx"@), "path"@)) == ctx.req.path@,
        value_returns(value_entry(value_entry(r, "ctx"@), "load_headers"@)) == pairs_map(
            ctx.req@.headers,
        ),
        value_returns(value_entry(value_entry(r, "ctx"@), "load_query_args"@)) == pairs_map(
            ctx.req@.query_args,
        ),
        value_returns(value_entry(value_entry(r, "ctx"@), "load_path_args"@)) == pairs_map(
            ctx.req@.path_args,
        ),
{
    proof {
        reveal_strlit("method");
        reveal_strlit("path");
        reveal_strlit("load_headers");
        reveal_strlit("load_query_args");
        reveal_strlit("load_path_args");
        reveal_strlit("load_body_string");
        reveal_strlit("load_body_json");
        reveal_strlit("inc_counter");
        reveal_strlit("set_response_code");
    }
    let mjctx = MiniJinjaResponseContext::new(ctx);
    let mut fields: Vec<(String, minijinja::Value)> = Vec::new();
    push_entry(&mut fields, "method", value_of_text(mjctx.ctx.req.method.as_str()));
    push_entry(&mut fields, "path", value_of_text(mjctx.ctx.req.path.as_str()));
    push_entry(&mut fields, "load_headers", function_returning_pairs(&mjctx.ctx.req.headers));
    push_entry(&mut fields, "load_query_args", function_returning_pairs(&mjctx.ctx.req.query_args));
    push_entry(&mut fields, "load_path_args", function_returning_pairs(&mjctx.ctx.req.path_args));
    push_entry(&mut fields, "load_body_string", function_load_body_string(mjctx.clone()));
    push_entry(&mut fields, "load_body_json", function_load_body_json(mjctx.clone()));
    push_entry(&mut fields, "inc_counter", function_inc_counter(mjctx.clone()));
    push_entry(&mut fields, "set_response_code", function_set_response_code(mjctx.clone()));
    proof {
        assert(fields@.len() == 9);
        assert(fields@[0].0@.len() == 6 && fields@[1].0@.len() == 4);
        assert(fields@[2].0@.len() == 12 && fields@[3].0@.len() == 15);
        assert(fields@[4].0@.len() == 14 && fields@[5].0@.len() == 16);
        assert(fields@[6].0@.len() == 14 && fields@[7].0@.len() == 11);
        assert(fields@[8].0@.len() == 17);
        assert(is_last_of_name(fields@, 0));
        assert(is_last_of_name(fields@, 1));
        assert(is_last_of_name(fields@, 2));
        assert(is_last_of_name(fields@, 3));
        assert(fields@[4].0@[5] == 'p' && fields@[6].0@[5] == 'b');
        assert(is_last_of_name(fields@, 4));
        assert(value_text(fields@[0].1) == ctx.req.method@);
        assert(value_text(fields@[1].1) == ctx.req.path@);
        assert(value_returns(fields@[2].1) == pairs_map(ctx.req@.headers));
        assert(value_returns(fields@[3].1) == pairs_map(ctx.req@.query_args));
        assert(value_returns(fields@[4].1) == pairs_map(ctx.req@.path_args));
    }
    let inner = value_of_entries(fields);
    let mut top: Vec<(String, minijinja::Value)> = Vec::new();
    push_entry(
        &mut top,
        "force_response_code",
        function_force_response_code(mjctx.ctx.response_code.clone()),
    );
    push_entry(&mut top, "ctx", inner);
    assert(is_last_of_name(top@, 1));
    assert(top@[1].1 == inner);
    value_of_entries(top)
}

/// A name for the templates that an environment holds: the source of each by
/// its name.
pub uninterp spec fn env_templates(env: minijinja::Environment<'static>) -> Map<
    Seq<char>,
    Seq<char>,
>;

/// No templates.
pub open spec fn no_templates() -> Map<Seq<char>, Seq<char>> {
    Map::empty()
}

/// A name for an environment as `Environment::new` makes it, but for
/// globals and owned templates added since: it has no loader, it borrows no
/// template, and its syntax is the default one.
pub uninterp spec fn env_is_plain(env: minijinja::Environment<'static>) -> bool;

/// A name for whether a plain environment compiles the source as the
/// template of this name.
pub uninterp spec fn template_compiles(name: Seq<char>, source: Seq<char>) -> bool;

/// `Environment::new`: a plain environment without templates.
#[verifier::external_body]
fn new_environment() -> (env: minijinja::Environment<'static>)
    ensures
        env_templates(env) == no_templates(),
        env_is_plain(env),
{
    minijinja::Environment::new()
}

/// A name for the names of the global functions and variables that the
/// templates of an environment can use.
pub uninterp spec fn env_globals(env: minijinja::Environment<'static>) -> Set<Seq<char>>;

/// The names of the helpers that have no effect on the response.
pub open spec fn clean_names() -> Set<Seq<char>> {
    set!["random_num"@, "random_hex"@, "uuid_v4"@]
}

/// `Environment::add_function` for the helpers `random_num`, `random_hex`
/// and `uuid_v4`: they are among the globals afterwards, with what was there
/// before. The templates stay as they are.
#[verifier::external_body]
fn add_helper_functions(env: &mut minijinja::Environment<'static>)
    ensures
        env_templates(*final(env)) == env_templates(*old(env)),
        env_globals(*final(env)) == env_globals(*old(env)).union(clean_names()),
        env_is_plain(*old(env)) ==> env_is_plain(*final(env)),
{
    env.add_function("random_num", ctx_random_num);
    env.add_function("random_hex", |n: Option<u64>| {
        ctx_random_hex(n).map_err(|_| minijinja::Error::from(minijinja::ErrorKind::InvalidOperation))
    });
    env.add_function("uuid_v4", ctx_uuid_v4);
}

/// `Environment::add_template_owned`: where the source compiles it takes the
/// place under the name. A plain environment compiles it exactly where
/// [`template_compiles`] says so, stays plain, and stays as it was where the
/// source does not compile. The error is handed on as its text.
#[verifier::external_body]
fn add_template(env: &mut minijinja::Environment<'static>, name: &str, source: &str) -> (r: Result<
    (),
    String,
>)
    ensures
        r is Ok ==> env_templates(*final(env)) == env_templates(*old(env)).insert(name@, source@),
        env_is_plain(*old(env)) ==> (r is Ok <==> template_compiles(name@, source@)),
        env_is_plain(*old(env)) && r is Err ==> env_templates(*final(env)) == env_templates(
            *old(env),
        ),
        env_is_plain(*old(env)) ==> env_is_plain(*final(env)),
{
    env.add_template_owned(name.to_string(), source.to_string()).map_err(|e| e.to_string())
}

/// `Environment::get_template` and `Template::render`. It fails where a
/// plain environment holds no template under the name. A template may call helpers
/// that draw random numbers, so nothing is stated of the text; the error is
/// handed on as its text.
#[verifier::external_body]
fn render_template(env: &minijinja::Environment<'static>, name: &str, ctx: minijinja::Value) -> (r:
    Result<String, String>)
    ensures
        env_is_plain(*env) && !env_templates(*env).dom().contains(name@) ==> r is Err,
{
    env.get_template(name).and_then(|t| t.render(ctx)).map_err(|e| e.to_string())
}

/// The environment in which templates are rendered: the built-in helpers and
/// no templates.
pub fn init_minijinja() -> (env: minijinja::Environment<'static>)
    ensures
        env_templates(env) == no_templates(),
        env_is_plain(env),
        clean_names().subset_of(env_globals(env)),
{
    let mut env = new_environment();
    add_clean_functions(&mut env);
    env
}

/// Adds the helpers that have no effect on the response: `random_num`,
/// `random_hex` and `uuid_v4`. The globals that were there stay, and so do
/// the templates.
pub fn add_clean_functions(env: &mut minijinja::Environment<'static>)
    ensures
        env_templates(*final(env)) == env_templates(*old(env)),
        env_globals(*final(env)) == env_globals(*old(env)).union(clean_names()),
        env_is_plain(*old(env)) ==> env_is_plain(*final(env)),
{
    add_helper_functions(env);
}

/// The template cache: the environment, made when it is first needed, and
/// the source of each template that it holds, by name.
pub struct MiniJinjaState {
    pub env: Option<minijinja::Environment<'static>>,
    pub templates: KeyedList<String>,
}

impl MiniJinjaState {
    /// The cache is in order: no name stands in the list twice, every
    /// template of the list compiles, and the environment is plain and holds
    /// each template of the list under its name and no other template.
    pub open spec fn wf(&self) -> bool {
        &&& self.templates.wf()
        &&& forall|i: int|
            0 <= i < self.templates.keys@.len() ==> template_compiles(
                (#[trigger] self.templates.keys@[i])@,
                self.templates.values@[i]@,
            )
        &&& match self.env {
            Some(env) => {
                &&& env_is_plain(env)
                &&& forall|i: int|
                    0 <= i < self.templates.keys@.len() ==> env_templates(env).dom().contains(
                        (#[trigger] self.templates.keys@[i])@,
                    ) && env_templates(env)[self.templates.keys@[i]@] == self.templates.values@[i]@
                &&& forall|n: Seq<char>|
                    env_templates(env).dom().contains(n) ==> #[trigger] self.is_cached(n)
            },
            None => self.templates.keys@.len() == 0,
        }
    }

    /// Whether the cache holds a template under `name`.
    pub open spec fn is_cached(&self, name: Seq<char>) -> bool {
        self.templates.has(name)
    }

    /// The source of the template that the cache holds under `name`.
    pub open spec fn cached_source(&self, name: Seq<char>) -> Option<Seq<char>> {
        if self.templates.has(name) {
            Some(self.templates.value(name)@)
        } else {
            None
        }
    }

    /// A cache that holds nothing.
    pub fn new() -> (r: Self)
        ensures
            r.wf(),
            r.env is None,
            r.templates.keys@.len() == 0,
    {
        MiniJinjaState { env: None, templates: KeyedList::new() }
    }

    /// Makes the environment where there is none.
    pub fn init_minijinja_if_not(&mut self)
        requires
            old(self).wf(),
        ensures
            final(self).wf(),
            final(self).env is Some,
            final(self).templates == old(self).templates,
    {
        if self.env.is_none() {
            self.env = Some(init_minijinja());
        }
    }

    /// Puts the template `source` under `name`. Where the cache holds that
    /// source under that name nothing is compiled; else the source is compiled
    /// and takes the place under the name. So it succeeds exactly where the
    /// source compiles. Either way the cache then holds `source` under `name`,
    /// so a rendering gives the same whether the cache was warm or cold. A
    /// source that does not compile leaves the cache as it was. The other
    /// templates stay.
    pub fn add_minijinja_template(&mut self, name: &str, source: &str) -> (r: Result<(), String>)
        requires
            old(self).wf(),
        ensures
            final(self).wf(),
            final(self).env is Some,
            r is Ok <==> template_compiles(name@, source@),
            r is Ok ==> final(self).cached_source(name@) == Some(source@),
            r is Err ==> final(self).templates == old(self).templates,
            old(self).cached_source(name@) == Some(source@) ==> r is Ok && final(self).templates
                == old(self).templates,
            forall|other: Seq<char>|
                other != name@ ==> final(self).cached_source(other) == old(self).cached_source(
                    other,
                ),
    {
        self.init_minijinja_if_not();
        let ghost ready = *self;
        match self.templates.position(name) {
            Some(i) => {
                if str_eq(self.templates.at(i).as_str(), source) {
                    return Ok(());
                }
            },
            None => {},
        }
        let mut env = self.env.take().unwrap();
        let r = add_template(&mut env, name, source);
        self.env = Some(env);
        assert(self.templates == ready.templates);
        match r {
            Err(e) => {
                assert forall|n: Seq<char>|
                    env_templates(self.env->0).dom().contains(n) implies #[trigger] self.is_cached(
                    n,
                ) by {
                    assert(ready.is_cached(n));
                }
                Err(e)
            },
            Ok(()) => {
                let slot = self.templates.put(name, source.to_owned());
                proof {
                    let before = ready.templates;
                    let after = self.templates;
                    assert forall|i: int| 0 <= i < after.keys@.len() && i != slot implies (
                    #[trigger] after.keys@[i]) == before.keys@[i] && after.values@[i]
                        == before.values@[i] && after.keys@[i]@ != name@ by {
                        if before.has(name@) {
                        } else {
                            assert(after.keys@.drop_last()[i] == before.keys@[i]);
                        }
                        after.lemma_slot(i);
                    }
                    assert forall|n: Seq<char>|
                        env_templates(self.env->0).dom().contains(n) implies #[trigger] self.is_cached(
                        n,
                    ) by {
                        if n != name@ {
                            assert(ready.is_cached(n));
                        }
                    }
                }
                Ok(())
            },
        }
    }

    /// Renders the template kept under `name` with `ctx`. It fails where the
    /// cache holds no such template, or where the rendering fails; the text of
    /// a rendering that succeeds is the template engine's.
    pub fn render(&self, name: &str, ctx: minijinja::Value) -> (r: Result<String, String>)
        ensures
            self.env is None ==> r is Err,
            self.wf() && !self.is_cached(name@) ==> r is Err,
    {
        match &self.env {
            Some(env) => render_template(env, name, ctx),
            None => Err("no template environment".to_owned()),
        }
    }

    /// Forgets the environment and with it every template.
    pub fn clear(&mut self)
        ensures
            final(self).wf(),
            final(self).env is None,
            final(self).templates.keys@.len() == 0,
    {
        self.env = None;
        self.templates.clear();
    }
}

impl Default for MiniJinjaState {
    fn default() -> (r: Self)
        ensures
            r.wf(),
            r.env is None,
            r.templates.keys@.len() == 0,
    {
        MiniJinjaState::new()
    }
}

} // verus!
