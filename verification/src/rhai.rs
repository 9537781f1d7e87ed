//! The script runtime: scripts are compiled once, kept by key, and run with
//! the request in scope as `ctx`.

use vstd::prelude::*;
use crate::cell::{load_code, store_code};
use crate::counters::CounterError;
use crate::deceit::DeceitResponseContext;
use crate::codec::hex_encoded;
use crate::random::{
    random_hex_text, script_random_number, uuid_text, DEFAULT_RANDOM_BYTES, MAX_RANDOM_BYTES,
};
use crate::request::{lookup, pairs_map, pairs_view, RequestContext};
use crate::keyed::KeyedList;
use crate::printed::ScriptOutput;
use crate::storage::ScriptStorage;
use crate::text::str_eq;
use vstd::string::StringExecFns;

verus! {

/// The script engine of `rhai`. The verifier sees nothing inside it.
#[verifier::external_type_specification]
#[verifier::external_body]
pub struct ExEngine(::rhai::Engine);

/// A compiled script of `rhai`. The verifier sees nothing inside it.
#[verifier::external_type_specification]
#[verifier::external_body]
pub struct ExAst(::rhai::AST);

/// A value of the script language of `rhai`. The verifier sees nothing
/// inside it.
#[verifier::external_type_specification]
#[verifier::external_body]
pub struct ExDynamic(::rhai::Dynamic);

/// The most operations that one run of a script may take before it is
/// stopped with an error. Without a limit a script that loops would never
/// hand the request back.
pub const MAX_SCRIPT_OPERATIONS: u64 = 100_000_000;

/// A script of the configuration's list of scripts.
#[derive(Clone, Debug)]
pub struct RhaiScript {
    pub id: String,
    pub source: String,
}

/// Why a script gave no result.
#[derive(Debug)]
pub enum ScriptError {
    /// There is no script with this id.
    Missing(String),
    /// The script does not compile; the text is the parser's.
    Parse(String),
    /// The run ended in an error; the text is the engine's.
    Run(String),
    /// The script returned a value of a type that is not accepted here; the
    /// text is the value as it prints.
    WrongType(String),
}

impl ScriptError {
    /// The error as a text for the body of an error response.
    pub fn message(&self) -> (r: String)
        ensures
            r@ == script_error_text(*self),
    {
        match self {
            ScriptError::Missing(id) => String::from_str("No Rhai script with id: ").concat(
                id.as_str(),
            ),
            ScriptError::Parse(text) => String::from_str("Can't compile Rhai script: ").concat(
                text.as_str(),
            ),
            ScriptError::Run(text) => String::from_str("Can't execute Rhai script: ").concat(
                text.as_str(),
            ),
            ScriptError::WrongType(text) => String::from_str("Wrong Rhai return value: ").concat(
                text.as_str(),
            ),
        }
    }
}

/// The text that stands for a script error in an error response.
pub open spec fn script_error_text(e: ScriptError) -> Seq<char> {
    match e {
        ScriptError::Missing(id) => "No Rhai script with id: "@ + id@,
        ScriptError::Parse(text) => "Can't compile Rhai script: "@ + text@,
        ScriptError::Run(text) => "Can't execute Rhai script: "@ + text@,
        ScriptError::WrongType(text) => "Wrong Rhai return value: "@ + text@,
    }
}

/// What a script that makes or changes a body returned.
#[derive(Debug)]
pub enum ScriptValue {
    /// The unit value: the body stays as it is.
    Unit,
    /// A sequence of bytes: the new body.
    Blob(Vec<u8>),
    /// A value of another type, as it prints.
    Other(String),
}

/// What the scripts that decide on a request see as `ctx`.
#[derive(Clone, Debug)]
pub struct RhaiRequestContext {
    pub req: RequestContext,
}

/// What the scripts that make or change a body see as `ctx`.
#[derive(Clone)]
pub struct RhaiResponseContext {
    pub ctx: DeceitResponseContext,
}

/// A name for the texts that an object map of the script language holds, by
/// the names of its properties.
pub uninterp spec fn dynamic_pairs(value: ::rhai::Dynamic) -> Map<Seq<char>, Seq<char>>;

/// Makes of the pairs the object map of the script language, with
/// `Dynamic::from_map`: it holds each value under its name, and a later pair
/// replaces an earlier one of the same name.
#[verifier::external_body]
fn pairs_to_map(pairs: &Vec<(String, String)>) -> (r: ::rhai::Dynamic)
    ensures
        dynamic_pairs(r) == pairs_map(pairs_view(pairs@)),
{
    let map: ::rhai::Map = pairs.iter().map(|(k, v)| (k.into(), v.into())).collect();
    ::rhai::Dynamic::from_map(map)
}

impl RhaiRequestContext {
    /// The context for `ctx`.
    pub fn from(ctx: RequestContext) -> (r: Self)
        ensures
            r.req == ctx,
    {
        RhaiRequestContext { req: ctx }
    }

    /// `ctx.method`: the request method.
    pub fn get_method(&mut self) -> (r: String)
        ensures
            r@ == old(self).req.method@,
            *final(self) == *old(self),
    {
        self.req.method.clone()
    }

    /// `ctx.path`: the request path.
    pub fn get_path(&mut self) -> (r: String)
        ensures
            r@ == old(self).req.path@,
            *final(self) == *old(self),
    {
        self.req.path.clone()
    }

    /// `ctx.load_headers()`: the headers as a map from name to value.
    pub fn load_headers(&mut self) -> (r: ::rhai::Dynamic)
        ensures
            *final(self) == *old(self),
            dynamic_pairs(r) == pairs_map(old(self).req@.headers),
    {
        pairs_to_map(&self.req.headers)
    }

    /// `ctx.load_path_args()`: the arguments captured from the path as a map.
    pub fn load_path_args(&mut self) -> (r: ::rhai::Dynamic)
        ensures
            *final(self) == *old(self),
            dynamic_pairs(r) == pairs_map(old(self).req@.path_args),
    {
        pairs_to_map(&self.req.path_args)
    }

    /// `ctx.load_query_args()`: the query arguments as a map.
    pub fn load_query_args(&mut self) -> (r: ::rhai::Dynamic)
        ensures
            *final(self) == *old(self),
            dynamic_pairs(r) == pairs_map(old(self).req@.query_args),
    {
        pairs_to_map(&self.req.query_args)
    }

    /// `ctx.load_body()`: the bytes of the request body.
    pub fn load_body(&mut self) -> (r: Vec<u8>)
        ensures
            r@ == old(self).req.body@,
            *final(self) == *old(self),
    {
        self.req.body.clone()
    }
}

impl RhaiResponseContext {
    /// The context for `ctx`.
    pub fn from(ctx: DeceitResponseContext) -> (r: Self)
        ensures
            r.ctx == ctx,
    {
        RhaiResponseContext { ctx }
    }

    /// `ctx.method`: the request method.
    pub fn get_method(&mut self) -> (r: String)
        ensures
            r@ == old(self).ctx.req.method@,
            *final(self) == *old(self),
    {
        self.ctx.req.method.clone()
    }

    /// `ctx.path`: the request path.
    pub fn get_path(&mut self) -> (r: String)
        ensures
            r@ == old(self).ctx.req.path@,
            *final(self) == *old(self),
    {
        self.ctx.req.path.clone()
    }

    /// `ctx.response_code`: the status code asked for so far, 0 for none.
    pub fn get_response_code(&mut self) -> (r: i64)
        ensures
            0 <= r <= u16::MAX,
            *final(self) == *old(self),
    {
        let code: u16 = load_code(&self.ctx.response_code);
        code as i64
    }

    /// `ctx.response_code = value`: asks for a status code. Of a value that
    /// does not fit in 16 bits the low 16 bits count.
    pub fn set_response_code(&mut self, value: i64)
        ensures
            *final(self) == *old(self),
    {
        let code: u16 = #[verifier::truncate]
        (value as u16);
        store_code(&self.ctx.response_code, code);
    }

    /// `ctx.inc_counter(key)`: adds one to a counter and returns the value it
    /// had before.
    pub fn inc_counter(&mut self, key: &str) -> (r: Result<u64, CounterError>)
        ensures
            *final(self) == *old(self),
    {
        self.ctx.counters.get_and_increment(key)
    }

    /// `ctx.load_headers()`: the headers as a map from name to value.
    pub fn load_headers(&mut self) -> (r: ::rhai::Dynamic)
        ensures
            *final(self) == *old(self),
            dynamic_pairs(r) == pairs_map(old(self).ctx.req@.headers),
    {
        pairs_to_map(&self.ctx.req.headers)
    }

    /// `ctx.load_path_args()`: the arguments captured from the path as a map.
    pub fn load_path_args(&mut self) -> (r: ::rhai::Dynamic)
        ensures
            *final(self) == *old(self),
            dynamic_pairs(r) == pairs_map(old(self).ctx.req@.path_args),
    {
        pairs_to_map(&self.ctx.req.path_args)
    }

    /// `ctx.load_query_args()`: the query arguments as a map.
    pub fn load_query_args(&mut self) -> (r: ::rhai::Dynamic)
        ensures
            *final(self) == *old(self),
            dynamic_pairs(r) == pairs_map(old(self).ctx.req@.query_args),
    {
        pairs_to_map(&self.ctx.req.query_args)
    }

    /// `ctx.load_body()`: the bytes of the request body.
    pub fn load_body(&mut self) -> (r: Vec<u8>)
        ensures
            r@ == old(self).ctx.req.body@,
            *final(self) == *old(self),
    {
        self.ctx.req.body.clone()
    }
}

/// Serialises a script value with `serde_json::to_string`; the error text is
/// that of the serialiser.
#[verifier::external_body]
fn dynamic_to_json(value: &::rhai::Dynamic) -> Result<Vec<u8>, String> {
    serde_json::to_string(value).map(String::into_bytes).map_err(|e| e.to_string())
}

/// Reads a script value with `serde_json::from_slice`; the error text is that
/// of the parser.
#[verifier::external_body]
fn json_to_dynamic(bytes: &Vec<u8>) -> Result<::rhai::Dynamic, String> {
    serde_json::from_slice::<::rhai::Dynamic>(bytes).map_err(|e| e.to_string())
}

/// A name for the most operations that the engine lets one run of a script
/// take before it stops the run with an error; 0 stands for no limit.
pub uninterp spec fn engine_operations_limit(engine: ::rhai::Engine) -> u64;

/// A name for the functions that were registered with the engine: the names
/// under which scripts find them. A getter of a property is registered under
/// `get$` and the property's name, a setter under `set$` and the name.
pub uninterp spec fn engine_functions(engine: ::rhai::Engine) -> Set<Seq<char>>;

/// The names of the helpers that every script can call.
pub open spec fn helper_names() -> Set<Seq<char>> {
    set![
        "to_json_blob"@,
        "from_json_blob"@,
        "random_num"@,
        "uuid_v4"@,
        "random_hex"@,
        "storage_read"@,
        "storage_write"@,
    ]
}

/// The names under which the parts of a request are registered for `ctx`.
pub open spec fn context_names() -> Set<Seq<char>> {
    set![
        "get$method"@,
        "get$path"@,
        "load_headers"@,
        "load_query_args"@,
        "load_path_args"@,
        "load_body"@,
    ]
}

/// The names that are registered for the `ctx` of a script that makes or
/// changes a body, beside those of [`context_names`].
pub open spec fn response_names() -> Set<Seq<char>> {
    set!["get$response_code"@, "set$response_code"@, "inc_counter"@]
}

/// The names of the two helpers for JSON.
pub open spec fn json_names() -> Set<Seq<char>> {
    set!["to_json_blob"@, "from_json_blob"@]
}

/// The names of the helpers for random numbers and identifiers.
pub open spec fn number_names() -> Set<Seq<char>> {
    set!["random_num"@, "uuid_v4"@]
}

/// The name of the helper for random bytes.
pub open spec fn hex_names() -> Set<Seq<char>> {
    set!["random_hex"@]
}

/// The names of the two helpers for the store.
pub open spec fn storage_names() -> Set<Seq<char>> {
    set!["storage_read"@, "storage_write"@]
}

/// The names of the methods that load a part of the request.
pub open spec fn loader_names() -> Set<Seq<char>> {
    set!["load_headers"@, "load_query_args"@, "load_path_args"@, "load_body"@]
}

/// The names that are registered with the type of the `ctx` of a script that
/// makes or changes a body.
pub open spec fn response_surface() -> Set<Seq<char>> {
    set!["get$method"@, "get$path"@, "get$response_code"@, "set$response_code"@, "inc_counter"@]
}

/// Every name that a script runtime registers.
pub open spec fn script_names() -> Set<Seq<char>> {
    helper_names().union(context_names()).union(response_names())
}

/// A name for an engine in which no function lets a script wait: `sleep`,
/// the one function of the standard packages that does, is replaced by one
/// that returns at once.
pub uninterp spec fn engine_cannot_wait(engine: ::rhai::Engine) -> bool;

/// A name for whether the engine compiles the script.
pub uninterp spec fn script_compiles(engine: ::rhai::Engine, script: Seq<char>) -> bool;

/// A name for what the engine makes of a script that it compiles.
pub uninterp spec fn compiled_script(engine: ::rhai::Engine, script: Seq<char>) -> ::rhai::AST;

/// `Engine::new`, with `set_max_operations` for the limit, with `sleep`
/// registered anew for both kinds of number so that it returns at once, and
/// with `on_print` and `on_debug` set so that what scripts print or debug
/// goes to `output`.
#[verifier::external_body]
fn new_engine(max_operations: u64, output: ScriptOutput) -> (engine: ::rhai::Engine)
    ensures
        engine_operations_limit(engine) == max_operations,
        engine_cannot_wait(engine),
{
    let mut engine = ::rhai::Engine::new();
    engine.set_max_operations(max_operations);
    engine.register_fn("sleep", |_: ::rhai::INT| ());
    engine.register_fn("sleep", |_: ::rhai::FLOAT| ());
    let printed = output.clone();
    engine.on_print(move |s| printed.print(s));
    engine.on_debug(move |s, _, _| output.print(s));
    engine
}

/// The limit on the operations of one run for a number that was asked for:
/// that number, and [`MAX_SCRIPT_OPERATIONS`] where 0 was asked for, which
/// would stand for no limit.
pub open spec fn chosen_limit(asked: u64) -> u64 {
    if asked == 0 {
        MAX_SCRIPT_OPERATIONS
    } else {
        asked
    }
}

/// `Engine::register_fn` for `to_json_blob` and `from_json_blob`.
#[verifier::external_body]
fn register_json_functions(engine: &mut ::rhai::Engine)
    ensures
        engine_operations_limit(*final(engine)) == engine_operations_limit(*old(engine)),
        engine_cannot_wait(*old(engine)) ==> engine_cannot_wait(*final(engine)),
        engine_functions(*old(engine)).subset_of(engine_functions(*final(engine))),
        json_names().subset_of(engine_functions(*final(engine))),
{
    engine.register_fn("to_json_blob", |v: &mut ::rhai::Dynamic| {
        dynamic_to_json(v).map_err(Box::<::rhai::EvalAltResult>::from)
    });
    engine.register_fn("from_json_blob", |b: &mut ::rhai::Blob| {
        json_to_dynamic(b).map_err(Box::<::rhai::EvalAltResult>::from)
    });
}

/// A name for whether a script value is the unit value, as
/// `Dynamic::is_unit` tells.
pub uninterp spec fn dynamic_is_unit(value: ::rhai::Dynamic) -> bool;

/// `Dynamic::UNIT`: the unit value of the script language.
#[verifier::external_body]
fn unit_value() -> (r: ::rhai::Dynamic)
    ensures
        dynamic_is_unit(r),
{
    ::rhai::Dynamic::UNIT
}

/// The script value for what the store holds under a key: the unit value
/// where it holds nothing, else the value read back from the JSON text, which
/// fails where the text cannot be read back.
pub fn stored_value(kept: Option<Vec<u8>>) -> (r: Result<::rhai::Dynamic, String>)
    ensures
        kept is None ==> r is Ok && dynamic_is_unit(r->Ok_0),
{
    match kept {
        Some(text) => json_to_dynamic(&text),
        None => Ok(unit_value()),
    }
}

/// What `storage_read(key)` gives a script: [`stored_value`] of what the
/// store holds under the key at that moment.
pub fn storage_read(storage: &ScriptStorage, key: &str) -> (r: Result<::rhai::Dynamic, String>) {
    stored_value(storage.read(key))
}

/// What `storage_write(key, value)` does for a script: it keeps the value
/// under the key as JSON text. It fails where the value cannot be serialised
/// or the store cannot be written.
pub fn storage_write(storage: &ScriptStorage, key: &str, value: ::rhai::Dynamic) -> (r: Result<
    (),
    String,
>) {
    let text = match dynamic_to_json(&value) {
        Ok(text) => text,
        Err(e) => {
            return Err(e);
        },
    };
    if storage.write(key, text) {
        Ok(())
    } else {
        Err("Can't write to the script storage".to_owned())
    }
}

/// The number of random bytes that a script gets for this argument: the
/// number asked for, 32 where none is.
pub open spec fn script_hex_count(length: Option<i64>) -> int {
    match length {
        Some(n) => n as int,
        None => DEFAULT_RANDOM_BYTES as int,
    }
}

/// What `random_hex(n)` gives a script: `n` random bytes in hexadecimal
/// digits. It fails where `n` is negative or more than
/// [`crate::random::MAX_RANDOM_BYTES`].
pub fn script_random_hex(length: Option<i64>) -> (r: Result<String, String>)
    ensures
        r is Err <==> (length matches Some(n) && (n < 0 || n > MAX_RANDOM_BYTES)),
        r is Ok ==> exists|bytes: Seq<u8>|
            bytes.len() == script_hex_count(length) && r->Ok_0@ == hex_encoded(bytes),
{
    let count: Option<u64> = match length {
        Some(n) => {
            if n < 0 {
                return Err("random_hex: the number of bytes is negative".to_owned());
            }
            Some(n as u64)
        },
        None => None,
    };
    match random_hex_text(count) {
        Ok(text) => Ok(text),
        Err(_) => Err("random_hex: too many bytes".to_owned()),
    }
}

/// `Engine::register_fn` for `random_num` with no, one and two arguments and
/// for `uuid_v4`.
#[verifier::external_body]
fn register_random_numbers(engine: &mut ::rhai::Engine)
    ensures
        engine_operations_limit(*final(engine)) == engine_operations_limit(*old(engine)),
        engine_cannot_wait(*old(engine)) ==> engine_cannot_wait(*final(engine)),
        engine_functions(*old(engine)).subset_of(engine_functions(*final(engine))),
        number_names().subset_of(engine_functions(*final(engine))),
{
    engine.register_fn("random_num", || script_random_number(None, None));
    engine.register_fn("random_num", |max: i64| script_random_number(Some(max), None));
    engine.register_fn("random_num", |low: i64, high: i64| {
        script_random_number(Some(low), Some(high))
    });
    engine.register_fn("uuid_v4", uuid_text);
}

/// `Engine::register_fn` for `random_hex` with no and with one argument.
#[verifier::external_body]
fn register_random_hex(engine: &mut ::rhai::Engine)
    ensures
        engine_operations_limit(*final(engine)) == engine_operations_limit(*old(engine)),
        engine_cannot_wait(*old(engine)) ==> engine_cannot_wait(*final(engine)),
        engine_functions(*old(engine)).subset_of(engine_functions(*final(engine))),
        hex_names().subset_of(engine_functions(*final(engine))),
{
    engine.register_fn("random_hex", || {
        script_random_hex(None).map_err(Box::<::rhai::EvalAltResult>::from)
    });
    engine.register_fn("random_hex", |n: i64| {
        script_random_hex(Some(n)).map_err(Box::<::rhai::EvalAltResult>::from)
    });
}

/// `Engine::register_fn` for `storage_read` and `storage_write`, which work
/// on the store behind `storage`.
#[verifier::external_body]
fn register_storage_functions(engine: &mut ::rhai::Engine, storage: ScriptStorage)
    ensures
        engine_operations_limit(*final(engine)) == engine_operations_limit(*old(engine)),
        engine_cannot_wait(*old(engine)) ==> engine_cannot_wait(*final(engine)),
        engine_functions(*old(engine)).subset_of(engine_functions(*final(engine))),
        storage_names().subset_of(engine_functions(*final(engine))),
{
    let reader = storage.clone();
    engine.register_fn("storage_read", move |key: &str| {
        storage_read(&reader, key).map_err(Box::<::rhai::EvalAltResult>::from)
    });
    engine.register_fn("storage_write", move |key: &str, value: ::rhai::Dynamic| {
        storage_write(&storage, key, value).map_err(Box::<::rhai::EvalAltResult>::from)
    });
}

/// `Engine::register_type` for the request context, with its getters and
/// methods under the names that scripts use.
#[verifier::external_body]
fn register_request_context(engine: &mut ::rhai::Engine)
    ensures
        engine_operations_limit(*final(engine)) == engine_operations_limit(*old(engine)),
        engine_cannot_wait(*old(engine)) ==> engine_cannot_wait(*final(engine)),
        engine_functions(*old(engine)).subset_of(engine_functions(*final(engine))),
        context_names().subset_of(engine_functions(*final(engine))),
{
    engine
        .register_type::<RhaiRequestContext>()
        .register_get("method", RhaiRequestContext::get_method)
        .register_get("path", RhaiRequestContext::get_path)
        .register_fn("load_headers", RhaiRequestContext::load_headers)
        .register_fn("load_query_args", RhaiRequestContext::load_query_args)
        .register_fn("load_path_args", RhaiRequestContext::load_path_args)
        .register_fn("load_body", RhaiRequestContext::load_body);
}

/// `Engine::register_type` for the response context, with its getters and
/// its setter under the names that scripts use, and `inc_counter`.
#[verifier::external_body]
fn register_response_context(engine: &mut ::rhai::Engine)
    ensures
        engine_operations_limit(*final(engine)) == engine_operations_limit(*old(engine)),
        engine_cannot_wait(*old(engine)) ==> engine_cannot_wait(*final(engine)),
        engine_functions(*old(engine)).subset_of(engine_functions(*final(engine))),
        response_surface().subset_of(engine_functions(*final(engine))),
{
    engine
        .register_type::<RhaiResponseContext>()
        .register_get("method", RhaiResponseContext::get_method)
        .register_get("path", RhaiResponseContext::get_path)
        .register_get("response_code", RhaiResponseContext::get_response_code)
        .register_set("response_code", RhaiResponseContext::set_response_code)
        .register_fn("inc_counter", |c: &mut RhaiResponseContext, key: &str| {
            c.inc_counter(key).map_err(|_| Box::<::rhai::EvalAltResult>::from("Failed inc_counter"))
        });
}

/// `Engine::register_fn` for the methods of the response context that load a
/// part of the request.
#[verifier::external_body]
fn register_response_loaders(engine: &mut ::rhai::Engine)
    ensures
        engine_operations_limit(*final(engine)) == engine_operations_limit(*old(engine)),
        engine_cannot_wait(*old(engine)) ==> engine_cannot_wait(*final(engine)),
        engine_functions(*old(engine)).subset_of(engine_functions(*final(engine))),
        loader_names().subset_of(engine_functions(*final(engine))),
{
    engine
        .register_fn("load_headers", RhaiResponseContext::load_headers)
        .register_fn("load_query_args", RhaiResponseContext::load_query_args)
        .register_fn("load_path_args", RhaiResponseContext::load_path_args)
        .register_fn("load_body", RhaiResponseContext::load_body);
}

/// The engine that runs the scripts: it stops a run after
/// [`chosen_limit`] of `max_operations` operations, and the helpers and the
/// parts of both kinds of `ctx` are registered with it under the names of
/// [`script_names`]. `storage_read` and `storage_write` work on the store
/// behind `storage`; what scripts print or debug goes to `output`.
pub fn build_rhai_engine(storage: ScriptStorage, output: ScriptOutput, max_operations: u64) -> (engine:
    ::rhai::Engine)
    ensures
        engine_operations_limit(engine) == chosen_limit(max_operations),
        engine_cannot_wait(engine),
        script_names().subset_of(engine_functions(engine)),
{
    let limit: u64 = if max_operations == 0 {
        MAX_SCRIPT_OPERATIONS
    } else {
        max_operations
    };
    let mut engine = new_engine(limit, output);
    register_json_functions(&mut engine);
    register_random_numbers(&mut engine);
    register_random_hex(&mut engine);
    register_storage_functions(&mut engine, storage);
    register_request_context(&mut engine);
    register_response_context(&mut engine);
    register_response_loaders(&mut engine);
    engine
}

/// `Engine::compile`: whether it succeeds, and what it gives, is a matter of
/// the engine and the script alone; the error text is the parser's.
#[verifier::external_body]
fn compile_script(engine: &::rhai::Engine, script: &str) -> (r: Result<::rhai::AST, String>)
    ensures
        r is Ok <==> script_compiles(*engine, script@),
        r is Ok ==> r->Ok_0 == compiled_script(*engine, script@),
{
    engine.compile(script).map_err(|e| e.to_string())
}

/// The name under which a script finds the request.
pub const SCOPE_CTX: &'static str = "ctx";

/// The name under which a script finds its arguments.
pub const SCOPE_ARGS: &'static str = "args";

/// The name under which a script of a processor finds the body as it stands.
pub const SCOPE_BODY: &'static str = "body";

/// `Engine::eval_ast_with_scope` for a `bool`, with the request and the
/// arguments pushed to the scope under their names. A script may read the
/// clock or a file, so nothing is stated of the result.
#[verifier::external_body]
fn eval_predicate(
    engine: &::rhai::Engine,
    ast: &::rhai::AST,
    ctx_name: &str,
    ctx: RhaiRequestContext,
    args_name: &str,
    args: &Vec<String>,
) -> Result<bool, String>
    requires
        engine_operations_limit(*engine) != 0,
        engine_cannot_wait(*engine),
        ctx_name@ == SCOPE_CTX@,
        args_name@ == SCOPE_ARGS@,
{
    let mut scope = ::rhai::Scope::new();
    scope.push(ctx_name, ctx);
    scope.push(args_name, args.iter().map(|a| ::rhai::Dynamic::from(a.clone())).collect::<::rhai::Array>());
    engine.eval_ast_with_scope::<bool>(&mut scope, ast).map_err(|e| e.to_string())
}

/// `Engine::eval_ast_with_scope` for any value, with the request pushed to
/// the scope under its name. Nothing is stated of the result.
#[verifier::external_body]
fn eval_output(
    engine: &::rhai::Engine,
    ast: &::rhai::AST,
    ctx_name: &str,
    ctx: RhaiResponseContext,
) -> Result<::rhai::Dynamic, String>
    requires
        engine_operations_limit(*engine) != 0,
        engine_cannot_wait(*engine),
        ctx_name@ == SCOPE_CTX@,
{
    let mut scope = ::rhai::Scope::new();
    scope.push(ctx_name, ctx);
    engine.eval_ast_with_scope::<::rhai::Dynamic>(&mut scope, ast).map_err(|e| e.to_string())
}

/// `Engine::eval_ast_with_scope` for any value, with the request, the
/// arguments and the body as it stands pushed to the scope under their
/// names. Nothing is stated of the result.
#[verifier::external_body]
fn eval_processor(
    engine: &::rhai::Engine,
    ast: &::rhai::AST,
    ctx_name: &str,
    ctx: RhaiResponseContext,
    args_name: &str,
    args: &Vec<String>,
    body_name: &str,
    body: &Vec<u8>,
) -> Result<::rhai::Dynamic, String>
    requires
        engine_operations_limit(*engine) != 0,
        engine_cannot_wait(*engine),
        ctx_name@ == SCOPE_CTX@,
        args_name@ == SCOPE_ARGS@,
        body_name@ == SCOPE_BODY@,
{
    let mut scope = ::rhai::Scope::new();
    scope.push(ctx_name, ctx);
    scope.push(args_name, args.iter().map(|a| ::rhai::Dynamic::from(a.clone())).collect::<::rhai::Array>());
    scope.push(body_name, body.clone());
    engine.eval_ast_with_scope::<::rhai::Dynamic>(&mut scope, ast).map_err(|e| e.to_string())
}

/// Tells the unit value and a byte sequence from every other script value,
/// with `Dynamic::is_unit`, `is_blob` and `into_blob`; a value of another type
/// is handed on as the text that it prints as.
#[verifier::external_body]
fn script_value(value: ::rhai::Dynamic) -> (r: ScriptValue)
    ensures
        r is Unit <==> dynamic_is_unit(value),
{
    if value.is_unit() {
        ScriptValue::Unit
    } else if value.is_blob() {
        ScriptValue::Blob(value.into_blob().unwrap_or_default())
    } else {
        ScriptValue::Other(value.to_string())
    }
}

/// A compiled script as the cache holds it under its key: the source it was
/// compiled from, and what the engine made of that source.
pub struct CompiledScript {
    pub source: String,
    pub ast: ::rhai::AST,
}

/// The engine, the store that its scripts share, the scripts of the
/// configuration by id, and the cache of compiled scripts by key. A script of the configuration is kept under `global:` and its id,
/// one written inline under the position at which it stands.
pub struct RhaiState {
    pub engine: ::rhai::Engine,
    pub storage: ScriptStorage,
    /// What scripts printed or debugged since it was last taken.
    pub output: ScriptOutput,
    pub scripts: Vec<RhaiScript>,
    pub asts: KeyedList<CompiledScript>,
    /// What went wrong in deciding scripts since the notes were last taken:
    /// such an error counts as `false` and is noted here for whoever logs.
    pub notes: Vec<String>,
}

/// The ids and sources of a list of scripts.
pub open spec fn scripts_view(scripts: Seq<RhaiScript>) -> Seq<(Seq<char>, Seq<char>)> {
    scripts.map_values(|s: RhaiScript| (s.id@, s.source@))
}

/// The key under which the script of the configuration with this id is kept.
pub open spec fn global_key(id: Seq<char>) -> Seq<char> {
    "global:"@ + id
}

/// Whether `after` is `before` with one note added.
pub open spec fn one_noted(before: Seq<String>, after: Seq<String>) -> bool {
    after.len() == before.len() + 1 && after.drop_last() == before
}

impl RhaiState {
    /// The runtime is in order: the engine stops every run after a number of
    /// operations and lets no script wait; no key stands in the cache twice;
    /// and every slot of the cache holds a source that the engine compiles,
    /// with what the engine makes of that source.
    pub open spec fn wf(&self) -> bool {
        &&& engine_operations_limit(self.engine) != 0
        &&& engine_cannot_wait(self.engine)
        &&& self.asts.wf()
        &&& forall|i: int|
            0 <= i < self.asts.values@.len() ==> self.holds_compiled(#[trigger] self.asts.values@[i])
    }

    /// Whether the slot holds a source that the engine compiles, with what
    /// the engine makes of it.
    pub open spec fn holds_compiled(&self, slot: CompiledScript) -> bool {
        script_compiles(self.engine, slot.source@) && slot.ast == compiled_script(
            self.engine,
            slot.source@,
        )
    }

    /// Whether the cache holds a script under `key`.
    pub open spec fn is_cached(&self, key: Seq<char>) -> bool {
        self.asts.has(key)
    }

    /// The source of the script that the cache holds under `key`.
    pub open spec fn cached_source(&self, key: Seq<char>) -> Option<Seq<char>> {
        if self.asts.has(key) {
            Some(self.asts.value(key).source@)
        } else {
            None
        }
    }

    /// A runtime with a fresh engine as [`build_rhai_engine`] makes it with
    /// the limit [`MAX_SCRIPT_OPERATIONS`], no scripts and an empty cache.
    pub fn new() -> (r: Self)
        ensures
            r.wf(),
            r.scripts@.len() == 0,
            r.asts.keys@.len() == 0,
            engine_operations_limit(r.engine) == MAX_SCRIPT_OPERATIONS,
            script_names().subset_of(engine_functions(r.engine)),
    {
        RhaiState::with_limit(MAX_SCRIPT_OPERATIONS)
    }

    /// A runtime whose engine stops a run after [`chosen_limit`] of
    /// `max_operations` operations, with no scripts and an empty cache.
    pub fn with_limit(max_operations: u64) -> (r: Self)
        ensures
            r.wf(),
            r.scripts@.len() == 0,
            r.asts.keys@.len() == 0,
            engine_operations_limit(r.engine) == chosen_limit(max_operations),
            script_names().subset_of(engine_functions(r.engine)),
    {
        let storage = ScriptStorage::new();
        let output = ScriptOutput::new();
        RhaiState {
            engine: build_rhai_engine(storage.clone(), output.clone(), max_operations),
            storage,
            output,
            scripts: Vec::new(),
            asts: KeyedList::new(),
            notes: Vec::new(),
        }
    }

    /// The slot of the compiled script for `script`, kept under `id`. It
    /// succeeds exactly where the engine compiles the script. Where the cache
    /// holds that source under that key it is served from there and nothing
    /// changes; else the source is compiled and takes the place under the
    /// key. Either way the slot holds what the engine makes of `script`, so a
    /// run gives the same whether the cache was warm or cold. A source that
    /// does not compile leaves the cache as it was.
    pub fn get_exec(&mut self, id: String, script: &str) -> (r: Result<usize, ScriptError>)
        requires
            old(self).wf(),
        ensures
            final(self).wf(),
            final(self).scripts == old(self).scripts,
            final(self).engine == old(self).engine,
            final(self).notes == old(self).notes,
            r is Ok <==> script_compiles(old(self).engine, script@),
            match r {
                Ok(slot) => {
                    &&& slot < final(self).asts.keys@.len()
                    &&& final(self).asts.keys@[slot as int]@ == id@
                    &&& final(self).asts.values@[slot as int].source@ == script@
                    &&& final(self).asts.values@[slot as int].ast == compiled_script(
                        old(self).engine,
                        script@,
                    )
                    &&& final(self).cached_source(id@) == Some(script@)
                },
                Err(e) => e is Parse && final(self).asts == old(self).asts,
            },
            old(self).cached_source(id@) == Some(script@) ==> r is Ok && final(self).asts == old(self).asts,
            forall|k: Seq<char>|
                k != id@ ==> final(self).cached_source(k) == old(self).cached_source(k),
    {
        match self.asts.position(id.as_str()) {
            Some(i) => {
                if str_eq(self.asts.at(i).source.as_str(), script) {
                    return Ok(i);
                }
            },
            None => {},
        }
        match compile_script(&self.engine, script) {
            Ok(ast) => {
                let ghost before = self.asts;
                let slot = self.asts.put(id.as_str(), CompiledScript { source: script.to_owned(), ast });
                proof {
                    let after = self.asts;
                    assert forall|i: int| 0 <= i < after.values@.len() implies self.holds_compiled(
                        #[trigger] after.values@[i],
                    ) by {
                        if i != slot {
                            assert(after.values@[i] == before.values@[i]);
                        }
                    }
                }
                Ok(slot)
            },
            Err(msg) => Err(ScriptError::Parse(msg)),
        }
    }

    /// The slot of the compiled script of the configuration with the id
    /// `script_id`, kept under `global:` and the id. It succeeds exactly
    /// where the configuration has a script with that id and the engine
    /// compiles it; the slot then holds what the engine makes of it. It fails
    /// as missing exactly where the configuration has no script with that id;
    /// else it goes as [`RhaiState::get_exec`] does for the last script with
    /// that id.
    pub fn get_exec_global(&mut self, script_id: &str) -> (r: Result<usize, ScriptError>)
        requires
            old(self).wf(),
        ensures
            final(self).wf(),
            final(self).scripts == old(self).scripts,
            final(self).engine == old(self).engine,
            final(self).notes == old(self).notes,
            r is Ok <==> (lookup(scripts_view(old(self).scripts@), script_id@) matches Some(source)
                && script_compiles(old(self).engine, source)),
            match lookup(scripts_view(old(self).scripts@), script_id@) {
                None => r matches Err(ScriptError::Missing(m)) && m@ == script_id@ && final(self).asts
                    == old(self).asts,
                Some(source) => match r {
                    Ok(slot) => slot < final(self).asts.keys@.len() && final(self).asts.keys@[slot as int]@
                        == global_key(script_id@) && final(self).asts.values@[slot as int].source@ == source
                        && final(self).asts.values@[slot as int].ast == compiled_script(
                        old(self).engine,
                        source,
                    ) && final(self).cached_source(global_key(script_id@)) == Some(source),
                    Err(e) => e is Parse && final(self).asts == old(self).asts,
                },
            },
            old(self).cached_source(global_key(script_id@)) == lookup(
                scripts_view(old(self).scripts@),
                script_id@,
            ) ==> final(self).asts == old(self).asts,
            forall|k: Seq<char>|
                k != global_key(script_id@) ==> final(self).cached_source(k) == old(self).cached_source(
                    k,
                ),
    {
        let source = match find_script(&self.scripts, script_id) {
            Some(s) => s.clone(),
            None => {
                return Err(ScriptError::Missing(script_id.to_owned()));
            },
        };
        let mut key = String::from_str("global:");
        key.append(script_id);
        self.get_exec(key, source.as_str())
    }

    /// Notes the error of a deciding script. Nothing else changes.
    pub fn note(&mut self, e: &ScriptError)
        ensures
            one_noted(old(self).notes@, final(self).notes@),
            final(self).notes@.last()@ == script_error_text(*e),
            final(self).engine == old(self).engine,
            final(self).scripts == old(self).scripts,
            final(self).asts == old(self).asts,
    {
        self.notes.push(e.message());
        assert(self.notes@.drop_last() =~= old(self).notes@);
    }

    /// Hands out the notes and forgets them. Nothing else changes.
    pub fn take_notes(&mut self) -> (r: Vec<String>)
        ensures
            r == old(self).notes,
            final(self).notes@.len() == 0,
            final(self).engine == old(self).engine,
            final(self).scripts == old(self).scripts,
            final(self).asts == old(self).asts,
    {
        let mut taken: Vec<String> = Vec::new();
        std::mem::swap(&mut taken, &mut self.notes);
        taken
    }

    /// Forgets every compiled script and takes `scripts` as the scripts of the
    /// configuration.
    pub fn clear_and_update(&mut self, scripts: Vec<RhaiScript>)
        requires
            old(self).wf(),
        ensures
            final(self).wf(),
            final(self).engine == old(self).engine,
            final(self).asts.keys@.len() == 0,
            final(self).scripts == scripts,
    {
        self.clear();
        self.scripts = scripts;
    }

    /// Forgets every compiled script and every script of the configuration.
    pub fn clear(&mut self)
        requires
            old(self).wf(),
        ensures
            final(self).wf(),
            final(self).engine == old(self).engine,
            final(self).asts.keys@.len() == 0,
            final(self).scripts@.len() == 0,
    {
        self.asts.clear();
        self.scripts = Vec::new();
    }

    /// Runs the deciding script in `slot` with `ctx` and `args` in scope. What
    /// the script answers is handed on; a run that fails, or that gives no
    /// boolean, is reported as [`ScriptError::Run`].
    pub fn run_predicate(&self, slot: usize, ctx: RhaiRequestContext, args: &Vec<String>) -> (r:
        Result<bool, ScriptError>)
        requires
            self.wf(),
            slot < self.asts.keys@.len(),
        ensures
            r is Err ==> r->Err_0 is Run,
    {
        match eval_predicate(&self.engine, &self.asts.at(slot).ast, SCOPE_CTX, ctx, SCOPE_ARGS, args) {
            Ok(b) => Ok(b),
            Err(msg) => Err(ScriptError::Run(msg)),
        }
    }

    /// Runs the script in `slot` that makes a body, with `ctx` in scope. The
    /// value that the script returns is handed on; a run that fails is
    /// reported as [`ScriptError::Run`].
    pub fn run_output(&self, slot: usize, ctx: RhaiResponseContext) -> (r: Result<
        ScriptValue,
        ScriptError,
    >)
        requires
            self.wf(),
            slot < self.asts.keys@.len(),
        ensures
            r is Err ==> r->Err_0 is Run,
    {
        match eval_output(&self.engine, &self.asts.at(slot).ast, SCOPE_CTX, ctx) {
            Ok(v) => Ok(script_value(v)),
            Err(msg) => Err(ScriptError::Run(msg)),
        }
    }

    /// Runs the script in `slot` that changes a body, with `ctx`, `args` and
    /// the current `body` in scope.
    pub fn run_processor(
        &self,
        slot: usize,
        ctx: RhaiResponseContext,
        args: &Vec<String>,
        body: &Vec<u8>,
    ) -> (r: Result<ScriptValue, ScriptError>)
        requires
            self.wf(),
            slot < self.asts.keys@.len(),
        ensures
            r is Err ==> r->Err_0 is Run,
    {
        match eval_processor(
            &self.engine,
            &self.asts.at(slot).ast,
            SCOPE_CTX,
            ctx,
            SCOPE_ARGS,
            args,
            SCOPE_BODY,
            body,
        ) {
            Ok(v) => Ok(script_value(v)),
            Err(msg) => Err(ScriptError::Run(msg)),
        }
    }
}

impl Default for RhaiState {
    fn default() -> (r: Self)
        ensures
            r.wf(),
            r.scripts@.len() == 0,
            r.asts.keys@.len() == 0,
            engine_operations_limit(r.engine) == MAX_SCRIPT_OPERATIONS,
            script_names().subset_of(engine_functions(r.engine)),
    {
        RhaiState::new()
    }
}

/// A copy of the scripts, with the same ids and sources in the same order.
pub fn clone_scripts(scripts: &Vec<RhaiScript>) -> (r: Vec<RhaiScript>)
    ensures
        scripts_view(r@) == scripts_view(scripts@),
{
    let mut out: Vec<RhaiScript> = Vec::new();
    let mut i: usize = 0;
    while i < scripts.len()
        invariant
            i <= scripts.len(),
            out@.len() == i,
            forall|j: int|
                0 <= j < i ==> (#[trigger] out@[j]).id@ == scripts@[j].id@ && out@[j].source@
                    == scripts@[j].source@,
        decreases scripts.len() - i,
    {
        out.push(RhaiScript { id: scripts[i].id.clone(), source: scripts[i].source.clone() });
        i += 1;
    }
    assert(scripts_view(out@) =~= scripts_view(scripts@));
    out
}

/// Finds the source of the last script with the id `id`.
pub fn find_script<'a>(scripts: &'a Vec<RhaiScript>, id: &str) -> (r: Option<&'a String>)
    ensures
        match r {
            Some(v) => lookup(scripts_view(scripts@), id@) == Some(v@),
            None => lookup(scripts_view(scripts@), id@) is None,
        },
{
    let ghost all = scripts_view(scripts@);
    let mut i: usize = scripts.len();
    assert(all.subrange(0, i as int) =~= all);
    while i > 0
        invariant
            i <= scripts.len(),
            all == scripts_view(scripts@),
            lookup(all, id@) == lookup(all.subrange(0, i as int), id@),
        decreases i,
    {
        i -= 1;
        proof {
            let head = all.subrange(0, i + 1);
            assert(head.last() == all[i as int]);
            assert(head.drop_last() =~= all.subrange(0, i as int));
            assert(all[i as int] == (scripts@[i as int].id@, scripts@[i as int].source@));
        }
        if str_eq(scripts[i].id.as_str(), id) {
            return Some(&scripts[i].source);
        }
    }
    assert(all.subrange(0, 0).len() == 0);
    None
}

/// What a deciding script's run counts for: its answer, and `false` where it
/// failed or returned no boolean.
pub open spec fn verdict_of(outcome: Result<bool, ScriptError>) -> bool {
    match outcome {
        Ok(b) => b,
        Err(_) => false,
    }
}

/// What a deciding script's run counts for.
pub fn predicate_verdict(outcome: Result<bool, ScriptError>) -> (r: bool)
    ensures
        r == verdict_of(outcome),
{
    match outcome {
        Ok(b) => b,
        Err(_) => false,
    }
}

/// What a body script's value counts for: unit for no change, bytes for a new
/// body, and every other type is an error that shows the value.
pub open spec fn body_of(value: ScriptValue) -> Result<Option<Seq<u8>>, Seq<char>> {
    match value {
        ScriptValue::Unit => Ok(None),
        ScriptValue::Blob(b) => Ok(Some(b@)),
        ScriptValue::Other(name) => Err(name@),
    }
}

/// What a body script's value counts for.
pub fn body_from_value(value: ScriptValue) -> (r: Result<Option<Vec<u8>>, ScriptError>)
    ensures
        match body_of(value) {
            Ok(None) => r matches Ok(None),
            Ok(Some(b)) => r matches Ok(Some(v)) && v@ == b,
            Err(name) => r matches Err(ScriptError::WrongType(n)) && n@ == name,
        },
{
    match value {
        ScriptValue::Unit => Ok(None),
        ScriptValue::Blob(b) => Ok(Some(b)),
        ScriptValue::Other(name) => Err(ScriptError::WrongType(name)),
    }
}

} // verus!
