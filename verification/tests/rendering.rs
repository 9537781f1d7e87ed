use apate::admin::{
    is_admin_path, ADMIN_API,
    specification_append, specification_get, specification_prepend, specification_replace,
    write_specification, AdminWrite,
};
use apate::codec::{decode_base64_output, decode_hex_output};
use apate::counters::CounterTable;
use apate::deceit::{
    create_response_context, Deceit, DeceitBuilder, DeceitResponse, DeceitResponseBuilder,
    DeceitResponseContext,
};
use apate::handlers::{
    deceit_handler, failure_response, insert_response_headers, not_found_response,
    response_status, ApateResponse,
};
use apate::jinja::{ctx_random_hex, ctx_random_num, ctx_uuid_v4, MiniJinjaState};
use apate::output::{output_response_body, OutputType, RenderError};
use apate::processors::{
    apply_processors, find_processor, next_body, ApateProcessor, PostProcessor, Processor,
    ProcessorError,
};
use apate::random::{random_number, script_random_number};
use apate::rhai::{RhaiScript, RhaiState, ScriptError};
use apate::specs::SpecsError;
use apate::state::{parse_port, ConfigError};
use apate::storage::{ScriptStorage, StorageTable};
use apate::{ApateConfigBuilder, ApateCounters, ApateSpecs, ApateState, RequestContext, ResourceRef};

fn req(method: &str, uri: &str, headers: &[(&str, &str)], body: &[u8]) -> RequestContext {
    let (path, query) = match uri.split_once('?') {
        Some((p, q)) => (p, q),
        None => (uri, ""),
    };
    RequestContext::new(
        method.to_string(),
        path.to_string(),
        headers.iter().map(|(k, v)| (k.to_string(), v.to_string())).collect(),
        query,
        body.to_vec(),
    )
}

fn state_of(deceits: Vec<Deceit>) -> ApateState {
    let mut builder = ApateConfigBuilder::default();
    for d in deceits {
        builder = builder.add_deceit(d);
    }
    builder.build().into_state()
}

fn one(uri: &str, response: DeceitResponse) -> ApateState {
    state_of(vec![DeceitBuilder::with_uris(&[uri]).add_response(response).build()])
}

fn typed(tp: OutputType, output: &str) -> DeceitResponse {
    DeceitResponseBuilder::default().with_output_type(tp).with_output(output).build()
}

fn get(state: &mut ApateState, uri: &str) -> ApateResponse {
    deceit_handler(req("GET", uri, &[], b""), state)
}

fn text(r: &ApateResponse) -> String {
    String::from_utf8_lossy(&r.body).into_owned()
}

fn render(tp: OutputType, output: &str) -> Result<Vec<u8>, RenderError> {
    let ctx = create_response_context(req("GET", "/x", &[], b""), ApateCounters::new());
    let mut jinja = MiniJinjaState::new();
    let mut rhai = RhaiState::new();
    output_response_body(&ResourceRef::new(0), tp, output, &ctx, &mut jinja, &mut rhai)
}

#[test]
fn resource_ids() {
    let r = ResourceRef::new(3);
    assert_eq!(r.ids, vec![3]);
    assert_eq!(r.as_string(), "3");
    let deep = r.with_level(0).with_level(12);
    assert_eq!(deep.ids, vec![3, 0, 12]);
    assert_eq!(r.ids, vec![3]);
    assert_eq!(deep.as_string(), "3-0-12");
    assert_eq!(deep.to_resource_id("rhai-output"), "rhai-output:3-0-12");
    assert_eq!(ResourceRef::new(0).to_resource_id(""), ":0");
    assert_eq!(
        ResourceRef::new(usize::MAX).to_resource_id("k"),
        format!("k:{}", usize::MAX)
    );
    assert_eq!(ResourceRef::new(10).with_level(100).as_string(), "10-100");
}

#[test]
fn string_output_is_the_bytes_of_the_text() {
    assert_eq!(render(OutputType::String, "héllo {{ 1 }}").unwrap(), "héllo {{ 1 }}".as_bytes());
    assert_eq!(render(OutputType::String, "").unwrap(), Vec::<u8>::new());
    assert_eq!(OutputType::default(), OutputType::String);
}

#[test]
fn hex_output_is_trimmed_stripped_and_decoded() {
    assert_eq!(render(OutputType::Hex, "48656c6c6f").unwrap(), b"Hello");
    assert_eq!(render(OutputType::Hex, "48656C6C6F").unwrap(), b"Hello");
    assert_eq!(render(OutputType::Hex, "  0x48656c6c6f\n").unwrap(), b"Hello");
    assert_eq!(render(OutputType::Hex, "0x 48656c6c6f ").unwrap(), b"Hello");
    assert_eq!(render(OutputType::Hex, "\u{2003}00ff\u{00a0}").unwrap(), vec![0u8, 255]);
    assert_eq!(render(OutputType::Hex, "").unwrap(), Vec::<u8>::new());
    assert_eq!(render(OutputType::Hex, "0x").unwrap(), Vec::<u8>::new());
    assert_eq!(decode_hex_output("0a0B").unwrap(), vec![10u8, 11]);
}

#[test]
fn hex_output_that_is_no_hex_fails() {
    assert!(matches!(render(OutputType::Hex, "abc"), Err(RenderError::Hex(_))));
    assert!(matches!(render(OutputType::Hex, "zz"), Err(RenderError::Hex(_))));
    assert!(matches!(render(OutputType::Hex, "48 65"), Err(RenderError::Hex(_))));
    assert!(matches!(render(OutputType::Hex, "0X4865"), Err(RenderError::Hex(_))));
    assert!(matches!(render(OutputType::Hex, "0x0x48"), Err(RenderError::Hex(_))));
    assert!(matches!(render(OutputType::Hex, "é1"), Err(RenderError::Hex(_))));
    assert!(decode_hex_output("4").is_err());
}

#[test]
fn base64_output_is_trimmed_and_decoded() {
    assert_eq!(render(OutputType::Base64, "SGVsbG8=").unwrap(), b"Hello");
    assert_eq!(render(OutputType::Base64, "\n  SGVsbG8h \t").unwrap(), b"Hello!");
    assert_eq!(render(OutputType::Base64, "").unwrap(), Vec::<u8>::new());
    assert_eq!(render(OutputType::Base64, "+/8=").unwrap(), vec![0xfb, 0xff]);
    assert_eq!(decode_base64_output("AAEC").unwrap(), vec![0u8, 1, 2]);
}

#[test]
fn base64_output_that_is_no_base64_fails() {
    assert!(matches!(render(OutputType::Base64, "SGVsbG8"), Err(RenderError::Base64(_))));
    assert!(matches!(render(OutputType::Base64, "SGVs bG8="), Err(RenderError::Base64(_))));
    assert!(matches!(render(OutputType::Base64, "-_8="), Err(RenderError::Base64(_))));
    assert!(matches!(render(OutputType::Base64, "****"), Err(RenderError::Base64(_))));
    assert!(decode_base64_output("A").is_err());
}

#[test]
fn codecs_give_back_the_bytes_that_were_encoded() {
    let mut samples: Vec<Vec<u8>> = vec![vec![], vec![0], vec![255], (0..=255u8).collect()];
    samples.push(b"\x00\x01binary\xfe\xff".to_vec());
    samples.push(vec![0x0f; 33]);
    for bytes in samples {
        let hex_text = hex::encode(&bytes);
        assert_eq!(render(OutputType::Hex, &hex_text).unwrap(), bytes);
        assert_eq!(render(OutputType::Hex, &format!(" 0x{hex_text} ")).unwrap(), bytes);
        assert_eq!(render(OutputType::Hex, &hex::encode_upper(&bytes)).unwrap(), bytes);
        let b64 = base64::Engine::encode(&base64::prelude::BASE64_STANDARD, &bytes);
        assert_eq!(render(OutputType::Base64, &b64).unwrap(), bytes);
        let mut state = one("/bin", typed(OutputType::Base64, &b64));
        let r = get(&mut state, "/bin");
        assert_eq!((r.status, r.body), (200, bytes));
    }
}

#[test]
fn status_is_override_then_code_then_200() {
    assert_eq!(response_status(0, None), 200);
    assert_eq!(response_status(0, Some(404)), 404);
    assert_eq!(response_status(201, None), 201);
    assert_eq!(response_status(201, Some(404)), 201);
    // a number that is no status code is passed over
    assert_eq!(response_status(0, Some(0)), 200);
    assert_eq!(response_status(7, Some(404)), 404);
    assert_eq!(response_status(7, Some(99)), 200);
    assert_eq!(response_status(7, None), 200);
    assert_eq!(response_status(99, Some(1000)), 200);
    assert_eq!(response_status(100, Some(404)), 100);
    assert_eq!(response_status(999, None), 999);
    assert_eq!(response_status(1000, Some(999)), 999);
    assert_eq!(response_status(u16::MAX, Some(u16::MAX)), 200);
}

#[test]
fn explicit_code_is_the_status() {
    let mut state = one("/gone", DeceitResponseBuilder::default().code(410).with_output("x").build());
    assert_eq!(get(&mut state, "/gone").status, 410);
    let mut state = one("/ok", DeceitResponseBuilder::default().with_output("x").build());
    assert_eq!(get(&mut state, "/ok").status, 200);
}

#[test]
fn template_can_force_the_status() {
    let mut state = one("/t", typed(OutputType::Jinja, "{% set _ = force_response_code(201) %}made"));
    let r = get(&mut state, "/t");
    assert_eq!((r.status, text(&r)), (201, "made".to_string()));
    // it wins over the code of the response
    let forced = DeceitResponseBuilder::default()
        .code(404)
        .with_output_type(OutputType::Jinja)
        .with_output("{{ ctx.set_response_code(202) }}x")
        .build();
    let mut state = one("/t", forced);
    let r = get(&mut state, "/t");
    assert_eq!((r.status, text(&r)), (202, "x".to_string()));
    // every request starts without an override
    let mixed =
        "{% if ctx.load_query_args().force %}{% set _ = force_response_code(418) %}{% endif %}x";
    let mut state = one("/t", typed(OutputType::Jinja, mixed));
    assert_eq!(get(&mut state, "/t?force=1").status, 418);
    assert_eq!(get(&mut state, "/t").status, 200);
}

#[test]
fn script_can_set_the_status() {
    let script = "ctx.response_code = 203; let c = ctx.response_code; (`code ${c}`).to_blob()";
    let mut state = one("/s", typed(OutputType::Rhai, script));
    let r = get(&mut state, "/s");
    assert_eq!((r.status, text(&r)), (203, "code 203".to_string()));
}

#[test]
fn headers_are_those_of_the_rule_then_those_of_the_response() {
    let d = DeceitBuilder::with_uris(&["/h"])
        .add_header("A", "1")
        .add_header("B", "2")
        .add_response(
            DeceitResponseBuilder::default().add_header("C", "3").add_header("A", "4").build(),
        )
        .build();
    let mut state = state_of(vec![d]);
    let r = get(&mut state, "/h");
    let want: Vec<(String, String)> = [("A", "1"), ("B", "2"), ("C", "3"), ("A", "4")]
        .iter()
        .map(|(k, v)| (k.to_string(), v.to_string()))
        .collect();
    assert_eq!(r.headers, want);
    let a = vec![("x".to_string(), "1".to_string())];
    let b = vec![("y".to_string(), "2".to_string()), ("x".to_string(), "3".to_string())];
    let mut both = a.clone();
    both.extend(b.clone());
    assert_eq!(insert_response_headers(&a, &b), both);
    assert_eq!(insert_response_headers(&vec![], &b), b);
    assert_eq!(insert_response_headers(&a, &vec![]), a);
}

#[test]
fn reports_of_failure_and_of_no_rule() {
    let r = not_found_response("/a/b");
    assert_eq!(r.status, 404);
    assert!(r.headers.is_empty());
    assert_eq!(text(&r), "Nothing can handle your requiest with path: /a/b\n");
    let r = failure_response("It happened! ", "boom");
    assert_eq!(r.status, 500);
    assert!(r.headers.is_empty());
    assert_eq!(text(&r), "It happened! boom\n");
}

#[test]
fn template_sees_the_request() {
    let template = "{{ ctx.method }} {{ ctx.path }} id={{ ctx.load_path_args().id }} \
                    q={{ ctx.load_query_args().q }} ua={{ ctx.load_headers()['user-agent'] }} \
                    body={{ ctx.load_body_string() }}";
    let mut state = one("/user/{id}", typed(OutputType::Jinja, template));
    let r = deceit_handler(
        req("PUT", "/user/1133?q=find", &[("User-Agent", "Apate")], b"payload"),
        &mut state,
    );
    assert_eq!(r.status, 200);
    assert_eq!(text(&r), "PUT /user/1133 id=1133 q=find ua=Apate body=payload");
}

#[test]
fn template_body_helpers() {
    let mut state = one("/b", typed(OutputType::Jinja, "[{{ ctx.load_body_string() }}]"));
    let r = deceit_handler(req("POST", "/b", &[], b" \n\t "), &mut state);
    assert_eq!(text(&r), "[]");
    let r = deceit_handler(req("POST", "/b", &[], b""), &mut state);
    assert_eq!(text(&r), "[]");
    let r = deceit_handler(req("POST", "/b", &[], b" a\xffb "), &mut state);
    assert_eq!(text(&r), "[ a\u{fffd}b ]");
    let mut state = one("/j", typed(OutputType::Jinja, "{{ ctx.load_body_json().user.name }}"));
    let r = deceit_handler(req("POST", "/j", &[], br#"{"user":{"name":"Ignat"}}"#), &mut state);
    assert_eq!((r.status, text(&r)), (200, "Ignat".to_string()));
    let r = deceit_handler(req("POST", "/j", &[], b"no json"), &mut state);
    assert_eq!(r.status, 500);
}

#[test]
fn template_counter_returns_the_value_before() {
    let mut state = one("/c", typed(OutputType::Jinja, "{{ ctx.inc_counter('hits') }}"));
    assert_eq!(text(&get(&mut state, "/c")), "0");
    assert_eq!(text(&get(&mut state, "/c")), "1");
    assert_eq!(text(&get(&mut state, "/c")), "2");
    assert_eq!(state.counters.get_or_default("hits").unwrap(), 3);
    assert_eq!(state.counters.get_or_default("other").unwrap(), 0);
}

#[test]
fn template_random_helpers() {
    let mut state = one(
        "/r",
        typed(OutputType::Jinja, "{{ random_num(42) }} {{ random_num(5, 6) }} {{ random_hex(4) }} {{ random_hex() }} {{ uuid_v4() }} {{ random_num() }}"),
    );
    for _ in 0..20 {
        let r = get(&mut state, "/r");
        assert_eq!(r.status, 200, "{}", text(&r));
        let shown = text(&r);
        let parts: Vec<&str> = shown.split(' ').collect();
        assert_eq!(parts.len(), 6);
        assert!(parts[0].parse::<u128>().unwrap() < 42);
        assert_eq!(parts[1], "5");
        assert_eq!(parts[2].len(), 8);
        assert!(parts[2].chars().all(|c| c.is_ascii_hexdigit() && !c.is_ascii_uppercase()));
        assert_eq!(parts[3].len(), 64);
        assert_eq!(parts[4].len(), 36);
        assert_eq!(parts[4].as_bytes()[14], b'4');
        assert!(parts[5].parse::<u128>().is_ok());
    }
}

#[test]
fn random_helpers_stay_in_their_ranges() {
    for _ in 0..200 {
        assert!(random_number(Some(3), None) < 3);
        assert_eq!(random_number(Some(0), None), 0);
        assert_eq!(random_number(Some(1), None), 0);
        let n = random_number(Some(10), Some(13));
        assert!((10..13).contains(&n));
        assert_eq!(random_number(Some(9), Some(9)), 9);
        assert_eq!(random_number(Some(9), Some(2)), 9);
        assert!(script_random_number(None, None) >= 0);
        assert!((0..7).contains(&script_random_number(Some(7), None)));
        assert_eq!(script_random_number(Some(-7), None), 0);
        assert_eq!(script_random_number(Some(0), None), 0);
        assert!((-5..5).contains(&script_random_number(Some(-5), Some(5))));
        assert_eq!(script_random_number(Some(5), Some(-5)), 5);
        let wide = script_random_number(Some(i64::MIN), Some(i64::MAX));
        assert!(wide < i64::MAX);
    }
    assert_eq!(ctx_random_num(Some(1), None), "0");
    assert_eq!(ctx_random_num(Some(77), Some(78)), "77");
    assert_eq!(ctx_random_num(Some(u128::MAX), Some(0)), u128::MAX.to_string());
    assert_eq!(ctx_random_hex(Some(0)).unwrap(), "");
    assert_eq!(ctx_random_hex(None).unwrap().len(), 64);
    assert_eq!(ctx_random_hex(Some(1_048_576)).unwrap().len(), 2_097_152);
    assert!(ctx_random_hex(Some(1_048_577)).is_err());
    assert!(ctx_random_hex(Some(u64::MAX)).is_err());
    assert_ne!(ctx_uuid_v4(), ctx_uuid_v4());
    assert_ne!(ctx_random_hex(Some(16)).unwrap(), ctx_random_hex(Some(16)).unwrap());
}

#[test]
fn template_that_fails_is_a_failure_of_the_request() {
    for bad in ["{% if %}", "{{ ctx.nope() }}", "{{ random_hex(9999999) }}", "{{ nope(1) }}"] {
        let mut state = one("/t", typed(OutputType::Jinja, bad));
        let r = get(&mut state, "/t");
        assert_eq!(r.status, 500, "{bad}");
        assert!(
            text(&r).starts_with("It happened! Can't render minijinja template: "),
            "{}",
            text(&r)
        );
    }
}

#[test]
fn script_output_is_bytes_or_unit() {
    let mut state = one("/s", typed(OutputType::Rhai, "\"made\".to_blob()"));
    assert_eq!(text(&get(&mut state, "/s")), "made");
    let mut state = one("/s", typed(OutputType::Rhai, "let x = 1;"));
    let r = get(&mut state, "/s");
    assert_eq!((r.status, r.body), (200, vec![]));
    let mut state = one("/s", typed(OutputType::Rhai, "\"text\""));
    let r = get(&mut state, "/s");
    assert_eq!(r.status, 500);
    assert!(text(&r).starts_with("It happened! Wrong Rhai return value: "), "{}", text(&r));
    let mut state = one("/s", typed(OutputType::Rhai, "let x = "));
    let r = get(&mut state, "/s");
    assert_eq!(r.status, 500);
    assert!(text(&r).starts_with("It happened! Can't compile Rhai script: "), "{}", text(&r));
    let mut state = one("/s", typed(OutputType::Rhai, "throw \"stop\""));
    let r = get(&mut state, "/s");
    assert_eq!(r.status, 500);
    assert!(text(&r).starts_with("It happened! Can't execute Rhai script: "), "{}", text(&r));
    assert!(matches!(
        render(OutputType::Rhai, "42"),
        Err(RenderError::Script(ScriptError::WrongType(_)))
    ));
}

#[test]
fn script_sees_the_request() {
    let script = r#"
        let h = ctx.load_headers();
        let q = ctx.load_query_args();
        let p = ctx.load_path_args();
        let b = ctx.load_body().as_string();
        (`${ctx.method} ${ctx.path} ${h["x-k"]} ${q.a} ${p.id} ${b}`).to_blob()
    "#;
    let mut state = one("/s/{id}", typed(OutputType::Rhai, script));
    let r = deceit_handler(req("POST", "/s/9?a=1&a=2", &[("X-K", "v")], b"in"), &mut state);
    assert_eq!((r.status, text(&r)), (200, "POST /s/9 v 2 9 in".to_string()));
}

#[test]
fn script_helpers() {
    let script = r#"
        let n = random_num(10);
        let m = random_num(3, 4);
        let any = random_num();
        let h = random_hex(2);
        let d = random_hex();
        let u = uuid_v4();
        let j = to_json_blob(#{ a: 1 });
        let back = from_json_blob(j);
        (`${n < 10 && n >= 0} ${m} ${any >= 0} ${h.len()} ${d.len()} ${u.len()} ${back.a}`).to_blob()
    "#;
    let mut state = one("/s", typed(OutputType::Rhai, script));
    let r = get(&mut state, "/s");
    assert_eq!((r.status, text(&r)), (200, "true 3 true 4 64 36 1".to_string()));
    let mut state = one("/s", typed(OutputType::Rhai, "random_hex(-1).to_blob()"));
    assert_eq!(get(&mut state, "/s").status, 500);
}

#[test]
fn script_storage_lasts_from_one_request_to_the_next() {
    let write = r#"storage_write("seen", #{ path: ctx.path, n: 7 }); "w".to_blob()"#;
    let read = r#"
        let v = storage_read("seen");
        if v == () { "nothing".to_blob() } else { (`${v.path} ${v.n}`).to_blob() }
    "#;
    let mut state = state_of(vec![
        DeceitBuilder::with_uris(&["/w/{x}"]).add_response(typed(OutputType::Rhai, write)).build(),
        DeceitBuilder::with_uris(&["/r"]).add_response(typed(OutputType::Rhai, read)).build(),
    ]);
    assert_eq!(text(&get(&mut state, "/r")), "nothing");
    assert_eq!(text(&get(&mut state, "/w/1")), "w");
    assert_eq!(text(&get(&mut state, "/r")), "/w/1 7");
    assert_eq!(text(&get(&mut state, "/w/2")), "w");
    assert_eq!(text(&get(&mut state, "/r")), "/w/2 7");
}

#[test]
fn storage_table_keeps_the_last_value_of_each_key() {
    let mut t = StorageTable::new();
    assert_eq!(t.read("a"), None);
    t.write("a", b"1".to_vec());
    t.write("b", b"2".to_vec());
    assert_eq!(t.read("a"), Some(b"1".to_vec()));
    t.write("a", b"3".to_vec());
    assert_eq!(t.read("a"), Some(b"3".to_vec()));
    assert_eq!(t.read("b"), Some(b"2".to_vec()));
    assert_eq!(t.read(""), None);
    let shared = ScriptStorage::new();
    let other = shared.clone();
    assert!(shared.write("k", b"{}".to_vec()));
    assert_eq!(other.read("k"), Some(b"{}".to_vec()));
    assert_eq!(other.read("missing"), None);
}

#[test]
fn counters_count_from_zero_and_return_the_value_before() {
    let mut t = CounterTable::new();
    assert_eq!(t.get_or_default("a"), 0);
    assert_eq!(t.get_and_increment("a"), 0);
    assert_eq!(t.get_and_increment("a"), 1);
    assert_eq!(t.get_and_increment("b"), 0);
    assert_eq!(t.get_and_increment("a"), 2);
    assert_eq!(t.get_or_default("a"), 3);
    assert_eq!(t.get_or_default("b"), 1);
    assert_eq!(t.get_or_default("c"), 0);
    let mut last = None;
    for n in 0..1000u64 {
        let v = t.get_and_increment("many");
        assert_eq!(v, n);
        assert!(last.map_or(true, |l| v > l));
        last = Some(v);
    }
    assert_eq!(t.get_or_default("many"), 1000);
}

#[test]
fn counters_are_shared_by_the_clones_of_a_handle() {
    let counters = ApateCounters::new();
    let handles: Vec<ApateCounters> = (0..8).map(|_| counters.clone()).collect();
    for round in 0..250u64 {
        for (i, mine) in handles.iter().enumerate() {
            assert_eq!(mine.get_and_increment("hits").unwrap(), round * 8 + i as u64);
        }
    }
    assert_eq!(counters.get_or_default("hits").unwrap(), 2000);
    assert_eq!(counters.get_and_increment("hits").unwrap(), 2000);
    assert_eq!(ApateCounters::default().get_or_default("hits").unwrap(), 0);
}

struct Append;

impl PostProcessor for Append {
    fn process(
        &self,
        input: &[&str],
        _context: &DeceitResponseContext,
        response: &[u8],
    ) -> Result<Option<Vec<u8>>, String> {
        match input.first() {
            None => Ok(None),
            Some(&"fail") => Err("asked to fail".to_string()),
            Some(tail) => {
                let mut out = response.to_vec();
                out.extend(tail.as_bytes());
                Ok(Some(out))
            }
        }
    }
}

fn embedded(id: &str, args: &[&str]) -> Processor {
    Processor::Embedded { id: id.to_string(), args: args.iter().map(|a| a.to_string()).collect() }
}

fn inline(script: &str) -> Processor {
    Processor::Rhai { script: script.to_string() }
}

fn run_chain(processors: Vec<Processor>, body: &[u8]) -> Result<Option<Vec<u8>>, ProcessorError> {
    let registry = vec![ApateProcessor::post("append", Box::new(Append))];
    let refs: Vec<&Processor> = processors.iter().collect();
    let ctx = create_response_context(req("GET", "/x", &[], b""), ApateCounters::new());
    let mut rhai = RhaiState::new();
    rhai.clear_and_update(vec![RhaiScript {
        id: "upper".to_string(),
        source: "let t = body.as_string().to_upper(); (t + args[0]).to_blob()".to_string(),
    }]);
    apply_processors(&ResourceRef::new(0), &registry, &refs, &ctx, &body.to_vec(), &mut rhai)
}

#[test]
fn each_processor_gets_what_the_one_before_left() {
    assert_eq!(run_chain(vec![], b"x").unwrap(), None);
    assert_eq!(run_chain(vec![embedded("append", &[])], b"x").unwrap(), None);
    assert_eq!(run_chain(vec![embedded("append", &["_a"])], b"x").unwrap(), Some(b"x_a".to_vec()));
    let chain = vec![
        embedded("append", &["_a"]),
        embedded("append", &[]),
        inline("(body.as_string() + \"_b\").to_blob()"),
        inline("()"),
        Processor::RhaiRef { id: "upper".to_string(), args: vec!["!".to_string()] },
        embedded("append", &["_c"]),
    ];
    assert_eq!(run_chain(chain, b"x").unwrap(), Some(b"X_A_B!_c".to_vec()));
    assert_eq!(next_body(None, None), None);
    assert_eq!(next_body(Some(vec![1]), None), Some(vec![1]));
    assert_eq!(next_body(None, Some(vec![2])), Some(vec![2]));
    assert_eq!(next_body(Some(vec![1]), Some(vec![2])), Some(vec![2]));
}

#[test]
fn processor_errors() {
    assert!(matches!(
        run_chain(vec![embedded("missing", &["_a"])], b"x"),
        Err(ProcessorError::Unknown(id)) if id == "missing"
    ));
    assert!(matches!(
        run_chain(vec![embedded("append", &["_a"]), embedded("append", &["fail"])], b"x"),
        Err(ProcessorError::Failed(text)) if text == "asked to fail"
    ));
    assert!(matches!(
        run_chain(vec![Processor::RhaiRef { id: "none".to_string(), args: vec![] }], b"x"),
        Err(ProcessorError::Script(ScriptError::Missing(id))) if id == "none"
    ));
    assert!(matches!(
        run_chain(vec![inline("let = ;")], b"x"),
        Err(ProcessorError::Script(ScriptError::Parse(_)))
    ));
    assert!(matches!(
        run_chain(vec![inline("throw 1")], b"x"),
        Err(ProcessorError::Script(ScriptError::Run(_)))
    ));
    assert!(matches!(
        run_chain(vec![inline("42")], b"x"),
        Err(ProcessorError::Script(ScriptError::WrongType(_)))
    ));
    assert_eq!(
        ProcessorError::Unknown("p".to_string()).message(),
        "Can't get processor by id \"p\""
    );
    assert_eq!(
        ProcessorError::Failed("why".to_string()).message(),
        "Post processor execution failed: why"
    );
    assert_eq!(
        ProcessorError::Script(ScriptError::Missing("s".to_string())).message(),
        "No Rhai script with id: s"
    );
    assert_eq!(RenderError::Hex("h".to_string()).message(), "Can't decode hex output: h");
    assert_eq!(RenderError::Base64("b".to_string()).message(), "Can't decode base64 output: b");
    assert_eq!(
        RenderError::Template("t".to_string()).message(),
        "Can't render minijinja template: t"
    );
    assert_eq!(
        RenderError::Script(ScriptError::Run("r".to_string())).message(),
        "Can't execute Rhai script: r"
    );
}

#[test]
fn processors_of_the_rule_run_before_those_of_the_response() {
    let config = ApateConfigBuilder::default()
        .register_processor(ApateProcessor::post("append", Box::new(Append)))
        .add_deceit(
            DeceitBuilder::with_uris(&["/p"])
                .add_processor(embedded("append", &["_rule1"]))
                .add_processor(embedded("append", &["_rule2"]))
                .add_response(
                    DeceitResponseBuilder::default()
                        .with_output("simple")
                        .add_processor(embedded("append", &["_resp"]))
                        .build(),
                )
                .build(),
        )
        .add_deceit(
            DeceitBuilder::with_uris(&["/unknown"])
                .add_processor(embedded("nobody", &[]))
                .add_response(DeceitResponseBuilder::default().with_output("simple").build())
                .build(),
        )
        .build();
    let mut state = config.into_state();
    let r = get(&mut state, "/p");
    assert_eq!((r.status, text(&r)), (200, "simple_rule1_rule2_resp".to_string()));
    let r = get(&mut state, "/unknown");
    assert_eq!(r.status, 500);
    assert_eq!(
        text(&r),
        "Can't apply post processors! Can't get processor by id \"nobody\"\n"
    );
}

#[test]
fn later_registration_under_one_id_counts() {
    struct Fixed(&'static str);
    impl PostProcessor for Fixed {
        fn process(
            &self,
            _input: &[&str],
            _context: &DeceitResponseContext,
            _response: &[u8],
        ) -> Result<Option<Vec<u8>>, String> {
            Ok(Some(self.0.as_bytes().to_vec()))
        }
    }
    let registry = vec![
        ApateProcessor::post("p", Box::new(Fixed("first"))),
        ApateProcessor::post("q", Box::new(Fixed("other"))),
        ApateProcessor::post("p", Box::new(Fixed("second"))),
    ];
    let ctx = create_response_context(req("GET", "/x", &[], b""), ApateCounters::new());
    let found = find_processor(&registry, "p").expect("registered");
    assert_eq!(found.id, "p");
    assert_eq!(found.apply_post(&[], &ctx, b"").unwrap(), Some(b"second".to_vec()));
    assert!(find_processor(&registry, "r").is_none());
    assert!(find_processor(&vec![], "p").is_none());
}

#[test]
fn compiled_scripts_are_kept_by_key_and_checked_against_the_source() {
    let mut rhai = RhaiState::new();
    let a = rhai.get_exec("k1".to_string(), "1 + 1").unwrap();
    let b = rhai.get_exec("k2".to_string(), "2 + 2").unwrap();
    assert_ne!(a, b);
    assert_eq!(rhai.asts.len(), 2);
    // served from the cache
    assert_eq!(rhai.get_exec("k1".to_string(), "1 + 1").unwrap(), a);
    assert_eq!(rhai.asts.len(), 2);
    // another source under the key takes the place
    assert_eq!(rhai.get_exec("k1".to_string(), "3 + 3").unwrap(), a);
    assert_eq!(rhai.asts.len(), 2);
    assert_eq!(rhai.asts.values[a].source, "3 + 3");
    assert_eq!(rhai.asts.values[b].source, "2 + 2");
    // a source that does not compile leaves the cache
    assert!(matches!(rhai.get_exec("k1".to_string(), "let"), Err(ScriptError::Parse(_))));
    assert_eq!(rhai.asts.values[a].source, "3 + 3");
    assert!(matches!(rhai.get_exec("k3".to_string(), "let"), Err(ScriptError::Parse(_))));
    assert_eq!(rhai.asts.len(), 2);
    // scripts of the configuration
    assert!(matches!(rhai.get_exec_global("g"), Err(ScriptError::Missing(id)) if id == "g"));
    rhai.clear_and_update(vec![
        RhaiScript { id: "g".to_string(), source: "true".to_string() },
        RhaiScript { id: "g".to_string(), source: "false".to_string() },
    ]);
    assert_eq!(rhai.asts.len(), 0);
    let g = rhai.get_exec_global("g").unwrap();
    assert_eq!(rhai.asts.keys[g], "global:g");
    assert_eq!(rhai.asts.values[g].source, "false");
    assert_eq!(rhai.get_exec_global("g").unwrap(), g);
    assert_eq!(rhai.asts.len(), 1);
}

#[test]
fn templates_are_kept_by_name_and_checked_against_the_source() {
    let mut jinja = MiniJinjaState::new();
    assert!(jinja.env.is_none());
    jinja.add_minijinja_template("a", "A{{ 1 + 1 }}").unwrap();
    jinja.add_minijinja_template("b", "B").unwrap();
    let ctx = || apate::jinja::build_tpl_context(create_response_context(
        req("GET", "/x", &[], b""),
        ApateCounters::new(),
    ));
    assert_eq!(jinja.render("a", ctx()).unwrap(), "A2");
    jinja.add_minijinja_template("a", "A{{ 1 + 1 }}").unwrap();
    assert_eq!(jinja.templates.len(), 2);
    jinja.add_minijinja_template("a", "C").unwrap();
    assert_eq!(jinja.templates.len(), 2);
    assert_eq!(jinja.render("a", ctx()).unwrap(), "C");
    assert_eq!(jinja.render("b", ctx()).unwrap(), "B");
    assert!(jinja.add_minijinja_template("a", "{% if %}").is_err());
    assert_eq!(jinja.render("a", ctx()).unwrap(), "C");
    assert!(jinja.render("missing", ctx()).is_err());
    jinja.clear();
    assert!(jinja.env.is_none());
    assert!(jinja.templates.is_empty());
    assert!(jinja.render("a", ctx()).is_err());
}

#[test]
fn warm_and_cold_caches_give_the_same() {
    let rule = || {
        DeceitBuilder::with_uris(&["/t/{id}"])
            .add_matcher(apate::matchers::Matcher::Rhai {
                script: "ctx.load_path_args().id != \"no\"".to_string(),
            })
            .add_response(
                DeceitResponseBuilder::default()
                    .require_path_arg("id", "first")
                    .with_output_type(OutputType::Jinja)
                    .with_output("one {{ ctx.path }}")
                    .build(),
            )
            .add_response(
                DeceitResponseBuilder::default()
                    .with_output_type(OutputType::Jinja)
                    .with_output("two {{ ctx.path }}")
                    .add_processor(inline("(body.as_string() + \"!\").to_blob()"))
                    .build(),
            )
            .build()
    };
    let mut warm = state_of(vec![rule()]);
    for path in ["/t/first", "/t/second", "/t/first", "/t/no", "/t/second"] {
        let mut cold = state_of(vec![rule()]);
        let a = get(&mut warm, path);
        let b = get(&mut cold, path);
        assert_eq!((a.status, &a.headers, &a.body), (b.status, &b.headers, &b.body), "{path}");
    }
    assert_eq!(text(&get(&mut warm, "/t/first")), "one /t/first");
    assert_eq!(text(&get(&mut warm, "/t/second")), "two /t/second!");
    assert_eq!(warm.minijinja.templates.len(), 2);
    warm.clear_cache();
    assert_eq!(warm.minijinja.templates.len(), 0);
    assert_eq!(warm.rhai.asts.len(), 0);
    assert_eq!(text(&get(&mut warm, "/t/second")), "two /t/second!");
}

fn specs_with(path: &str, output: &str, script: Option<(&str, &str)>) -> ApateSpecs {
    ApateSpecs {
        scripts: script
            .iter()
            .map(|(id, source)| RhaiScript { id: id.to_string(), source: source.to_string() })
            .collect(),
        deceit: vec![DeceitBuilder::with_uris(&[path])
            .add_response(DeceitResponseBuilder::default().with_output(output).build())
            .build()],
    }
}

#[test]
fn replace_swaps_the_whole_document() {
    let mut state = ApateConfigBuilder::default().build().into_state();
    specification_replace(&mut state, specs_with("/a", "A", Some(("s", "1")))).unwrap();
    assert_eq!(get(&mut state, "/a").status, 200);
    assert_eq!(get(&mut state, "/b").status, 404);
    assert_eq!(state.rhai.asts.len(), 0);
    specification_replace(&mut state, specs_with("/b", "B", Some(("t", "2")))).unwrap();
    assert_eq!(get(&mut state, "/a").status, 404);
    let r = get(&mut state, "/b");
    assert_eq!((r.status, text(&r)), (200, "B".to_string()));
    let now = specification_get(&state);
    assert_eq!(now.deceit.len(), 1);
    assert_eq!(now.deceit[0].uris, vec!["/b".to_string()]);
    assert_eq!(now.scripts.len(), 1);
    assert_eq!(now.scripts[0].id, "t");
    assert_eq!(state.rhai.scripts.len(), 1);
    assert_eq!(state.rhai.scripts[0].id, "t");
}

#[test]
fn replace_forgets_what_was_compiled() {
    let template = |text: &str| ApateSpecs {
        scripts: vec![],
        deceit: vec![DeceitBuilder::with_uris(&["/t"])
            .add_response(typed(OutputType::Jinja, text))
            .add_processor(inline("(body.as_string() + \"!\").to_blob()"))
            .build()],
    };
    let mut state = ApateConfigBuilder::default().build().into_state();
    specification_replace(&mut state, template("old {{ 1 }}")).unwrap();
    assert_eq!(text(&get(&mut state, "/t")), "old 1!");
    assert_eq!((state.minijinja.templates.len(), state.rhai.asts.len()), (1, 1));
    specification_replace(&mut state, template("new {{ 2 }}")).unwrap();
    assert_eq!((state.minijinja.templates.len(), state.rhai.asts.len()), (0, 0));
    assert_eq!(text(&get(&mut state, "/t")), "new 2!");
}

#[test]
fn append_and_prepend_keep_the_order() {
    let mut state = ApateConfigBuilder::default().build().into_state();
    specification_replace(&mut state, specs_with("/x", "middle", Some(("m", "1")))).unwrap();
    specification_append(&mut state, specs_with("/x", "last", Some(("l", "2")))).unwrap();
    specification_prepend(&mut state, specs_with("/y", "first", Some(("f", "3")))).unwrap();
    let outputs: Vec<&str> =
        state.specs.deceit.iter().map(|d| d.responses[0].output.as_str()).collect();
    assert_eq!(outputs, vec!["first", "middle", "last"]);
    let ids: Vec<&str> = state.specs.scripts.iter().map(|s| s.id.as_str()).collect();
    assert_eq!(ids, vec!["f", "m", "l"]);
    let known: Vec<&str> = state.rhai.scripts.iter().map(|s| s.id.as_str()).collect();
    assert_eq!(known, ids);
    assert_eq!(text(&get(&mut state, "/x")), "middle");
    specification_prepend(&mut state, specs_with("/x", "front", None)).unwrap();
    assert_eq!(text(&get(&mut state, "/x")), "front");
    let mut plain = ApateSpecs::default();
    plain.append(specs_with("/a", "1", Some(("a", "x"))));
    plain.append(specs_with("/b", "2", Some(("b", "x"))));
    plain.prepend(specs_with("/c", "3", Some(("c", "x"))));
    let order: Vec<&str> = plain.scripts.iter().map(|s| s.id.as_str()).collect();
    assert_eq!(order, vec!["c", "a", "b"]);
    assert_eq!(plain.deceit[0].uris, vec!["/c".to_string()]);
    assert_eq!(plain.deceit[2].uris, vec!["/b".to_string()]);
}

#[test]
fn write_that_gives_no_valid_document_changes_nothing() {
    let mut state = ApateConfigBuilder::default().build().into_state();
    specification_replace(&mut state, specs_with("/x", "kept", Some(("s", "1")))).unwrap();
    assert_eq!(text(&get(&mut state, "/x")), "kept");
    let twice = ApateSpecs {
        scripts: vec![
            RhaiScript { id: "d".to_string(), source: "1".to_string() },
            RhaiScript { id: "d".to_string(), source: "2".to_string() },
        ],
        deceit: vec![],
    };
    assert_eq!(twice.validate(), Err(SpecsError::DuplicateScriptId));
    let e = specification_replace(&mut state, twice).unwrap_err();
    assert_eq!(e.reason, SpecsError::DuplicateScriptId);
    for write in [AdminWrite::Append, AdminWrite::Prepend] {
        let e = write_specification(&mut state, write, specs_with("/y", "y", Some(("s", "9"))))
            .unwrap_err();
        assert_eq!(e.reason, SpecsError::DuplicateScriptId);
        let e = write_specification(&mut state, write, specs_with("/y/{", "y", None)).unwrap_err();
        assert_eq!(e.reason, SpecsError::InvalidDeceit);
    }
    let no_uri = ApateSpecs { scripts: vec![], deceit: vec![Deceit::default()] };
    assert_eq!(no_uri.validate(), Err(SpecsError::InvalidDeceit));
    assert!(!no_uri.is_valid());
    assert_eq!(state.specs.deceit.len(), 1);
    assert_eq!(state.specs.scripts.len(), 1);
    assert_eq!(state.specs.scripts[0].source, "1");
    assert_eq!(text(&get(&mut state, "/x")), "kept");
    assert_eq!(get(&mut state, "/y").status, 404);
    assert!(specs_with("/ok/{id}", "x", Some(("a", "b"))).is_valid());
    assert_eq!(ApateSpecs::default().validate(), Ok(()));
}

#[test]
fn builder_keeps_script_ids_unique() {
    let config = ApateConfigBuilder::default()
        .with_port(9000)
        .add_script("a", "1")
        .add_script("b", "2")
        .add_script("a", "3")
        .build();
    assert_eq!(config.port, 9000);
    let scripts: Vec<(&str, &str)> =
        config.specs.scripts.iter().map(|s| (s.id.as_str(), s.source.as_str())).collect();
    assert_eq!(scripts, vec![("a", "3"), ("b", "2")]);
    assert!(config.specs.is_valid());
    assert_eq!(ApateConfigBuilder::default().build().port, apate::DEFAULT_PORT);
    assert_eq!(apate::DEFAULT_PORT, 8228);
    assert_eq!(apate::DEFAULT_RUST_LOG, "info,apate=debug");
    let single = DeceitBuilder::with_uris(&["/u"]).to_app_config_with_port(81);
    assert_eq!((single.port, single.specs.deceit.len()), (81, 1));
    assert_eq!(single.specs.deceit[0].uris, vec!["/u".to_string()]);
}

#[test]
fn port_texts() {
    assert_eq!(parse_port("8228"), Some(8228));
    assert_eq!(parse_port("0"), Some(0));
    assert_eq!(parse_port("65535"), Some(65535));
    assert_eq!(parse_port("65536"), None);
    assert_eq!(parse_port("+80"), Some(80));
    assert_eq!(parse_port("00080"), Some(80));
    assert_eq!(parse_port("000000000000000000000080"), Some(80));
    assert_eq!(parse_port("99999999999999999999"), None);
    for bad in ["", "+", "-1", " 80", "80 ", "8o", "++8", "8+", "٣"] {
        assert_eq!(parse_port(bad), None, "{bad}");
        assert!(bad.parse::<u16>().is_err(), "{bad}");
    }
}

#[test]
fn configuration_from_fragments() {
    let config = apate::ApateConfig::try_new_defaults().unwrap();
    assert_eq!((config.port, config.specs.deceit.len(), config.specs.scripts.len()), (8228, 0, 0));
    let fragments = || {
        vec![
            specs_with("/a", "1", Some(("a", "x"))),
            ApateSpecs::default(),
            specs_with("/b", "2", Some(("b", "y"))),
        ]
    };
    let config = apate::ApateConfig::try_new(None, None, fragments()).unwrap();
    assert_eq!(config.port, 8228);
    let ids: Vec<&str> = config.specs.scripts.iter().map(|s| s.id.as_str()).collect();
    assert_eq!(ids, vec!["a", "b"]);
    assert_eq!(config.specs.deceit[0].uris, vec!["/a".to_string()]);
    assert_eq!(config.specs.deceit[1].uris, vec!["/b".to_string()]);
    assert_eq!(apate::ApateConfig::try_new(None, Some("81"), vec![]).unwrap().port, 81);
    assert_eq!(apate::ApateConfig::try_new(Some(82), Some("81"), vec![]).unwrap().port, 82);
    assert_eq!(apate::ApateConfig::try_new(Some(82), Some("bad"), vec![]).unwrap().port, 82);
    assert_eq!(
        apate::ApateConfig::try_new(None, Some("bad"), fragments()).err(),
        Some(ConfigError::BadPort)
    );
    let mut twice = fragments();
    twice.push(specs_with("/c", "3", Some(("a", "z"))));
    assert_eq!(
        apate::ApateConfig::try_new(Some(1), None, twice).err(),
        Some(ConfigError::Specs(SpecsError::DuplicateScriptId))
    );
    assert_eq!(
        apate::ApateConfig::try_new(Some(1), None, vec![specs_with("/c/*", "3", None)]).err(),
        Some(ConfigError::Specs(SpecsError::InvalidDeceit))
    );
}

#[test]
fn administration_is_under_its_prefix() {
    assert_eq!(ADMIN_API, "/apate");
    assert!(is_admin_path(ADMIN_API, "/apate"));
    assert!(is_admin_path(ADMIN_API, "/apate/specs/replace"));
    assert!(is_admin_path(ADMIN_API, "/apate\u{432}\u{441}\u{451}"));
    assert!(!is_admin_path(ADMIN_API, "/apat\u{435}"));
    assert!(!is_admin_path(ADMIN_API, "/apat"));
    assert!(!is_admin_path(ADMIN_API, "/user/apate"));
    assert!(!is_admin_path(ADMIN_API, ""));
    assert!(is_admin_path("", "/x"));
}

#[test]
fn script_context_loads_maps_in_which_the_last_pair_of_a_name_counts() {
    let request = req("GET", "/x?a=1&b=2&a=3", &[("X-K", "v"), ("x-k", "w")], b"");
    let mut ctx = apate::rhai::RhaiRequestContext::from(request.clone());
    let query = ctx.load_query_args().cast::<rhai::Map>();
    assert_eq!(query.len(), 2);
    assert_eq!(query["a"].clone().into_string().unwrap(), "3");
    assert_eq!(query["b"].clone().into_string().unwrap(), "2");
    let headers = ctx.load_headers().cast::<rhai::Map>();
    assert_eq!(headers.len(), 1);
    assert_eq!(headers["x-k"].clone().into_string().unwrap(), "w");
    assert!(ctx.load_path_args().cast::<rhai::Map>().is_empty());
    let mut with_path = request;
    with_path.update_paths("/x".to_string(), vec![("id".to_string(), "7".to_string())]);
    let mut response_ctx = apate::rhai::RhaiResponseContext::from(create_response_context(
        with_path,
        ApateCounters::new(),
    ));
    let path_args = response_ctx.load_path_args().cast::<rhai::Map>();
    assert_eq!(path_args.len(), 1);
    assert_eq!(path_args["id"].clone().into_string().unwrap(), "7");
    assert_eq!(response_ctx.load_query_args().cast::<rhai::Map>().len(), 2);
    assert_eq!(response_ctx.load_headers().cast::<rhai::Map>().len(), 1);
    assert_eq!(response_ctx.get_response_code(), 0);
    response_ctx.set_response_code(65536 + 204);
    assert_eq!(response_ctx.get_response_code(), 204);
    assert_eq!(response_ctx.inc_counter("c").unwrap(), 0);
    assert_eq!(response_ctx.inc_counter("c").unwrap(), 1);
}

#[test]
fn template_context_holds_ctx_and_the_status_function() {
    let mut request = req("PUT", "/t", &[], b"");
    request.update_paths("/t".to_string(), vec![]);
    let value = apate::jinja::build_tpl_context(create_response_context(
        request,
        ApateCounters::new(),
    ));
    let mut top: Vec<String> =
        value.try_iter().unwrap().map(|k| k.as_str().unwrap().to_string()).collect();
    top.sort();
    assert_eq!(top, vec!["ctx", "force_response_code"]);
    let ctx = value.get_attr("ctx").unwrap();
    let mut names: Vec<String> =
        ctx.try_iter().unwrap().map(|k| k.as_str().unwrap().to_string()).collect();
    names.sort();
    assert_eq!(
        names,
        vec![
            "inc_counter",
            "load_body_json",
            "load_body_string",
            "load_headers",
            "load_path_args",
            "load_query_args",
            "method",
            "path",
            "set_response_code"
        ]
    );
    assert_eq!(ctx.get_attr("method").unwrap().as_str(), Some("PUT"));
    assert_eq!(ctx.get_attr("path").unwrap().as_str(), Some("/t"));
}

#[test]
fn script_engine_knows_its_names_and_its_limit() {
    let output = apate::printed::ScriptOutput::new();
    let engine = apate::rhai::build_rhai_engine(ScriptStorage::new(), output.clone(), 0);
    assert_eq!(engine.max_operations(), apate::rhai::MAX_SCRIPT_OPERATIONS);
    let small = apate::rhai::build_rhai_engine(ScriptStorage::new(), output.clone(), 50);
    assert_eq!(small.max_operations(), 50);
    assert!(small.eval::<rhai::Dynamic>("let x = 0; loop { x += 1; }").is_err());
    assert!(engine.eval::<rhai::Dynamic>("print(\"one\"); debug(2); print(`three`)").is_ok());
    assert_eq!(output.take(), vec!["one".to_string(), "2".to_string(), "three".to_string()]);
    assert!(output.take().is_empty());
    for call in [
        "random_num()",
        "random_num(3)",
        "random_num(1, 2)",
        "uuid_v4()",
        "random_hex()",
        "random_hex(1)",
        "storage_read(\"k\")",
        "storage_write(\"k\", 1)",
        "to_json_blob(1)",
        "from_json_blob(to_json_blob(1))",
    ] {
        assert!(engine.eval::<rhai::Dynamic>(call).is_ok(), "{call}");
    }
    assert!(engine.eval::<rhai::Dynamic>("no_such_helper()").is_err());
    let state = RhaiState::new();
    assert_eq!(state.engine.max_operations(), 100_000_000);
    assert_eq!(RhaiState::with_limit(7).engine.max_operations(), 7);
    let configured = ApateConfigBuilder::default().with_script_operations(9).build().into_state();
    assert_eq!(configured.rhai.engine.max_operations(), 9);
}

#[test]
fn script_random_hex_bounds() {
    use_script_random_hex();
}

fn use_script_random_hex() {
    let hex_of = apate::rhai::script_random_hex;
    assert_eq!(hex_of(None).unwrap().len(), 64);
    assert_eq!(hex_of(Some(0)).unwrap(), "");
    assert_eq!(hex_of(Some(3)).unwrap().len(), 6);
    assert!(hex_of(Some(-1)).is_err());
    assert!(hex_of(Some(i64::MIN)).is_err());
    assert_eq!(hex_of(Some(1_048_576)).unwrap().len(), 2_097_152);
    assert!(hex_of(Some(1_048_577)).is_err());
    assert!(hex_of(Some(i64::MAX)).is_err());
}

#[test]
fn finished_and_failed_responses() {
    use_response_parts();
}

fn use_response_parts() {
    let rule = DeceitBuilder::with_uris(&["/x"]).add_header("A", "1").build();
    let response = DeceitResponseBuilder::default().code(404).add_header("B", "2").build();
    let h = |k: &str, v: &str| (k.to_string(), v.to_string());
    let r = apate::handlers::finish_response(&rule, &response, 0, b"rendered".to_vec(), None);
    assert_eq!((r.status, &r.body[..]), (404, &b"rendered"[..]));
    assert_eq!(r.headers, vec![h("A", "1"), h("B", "2")]);
    let r = apate::handlers::finish_response(
        &rule,
        &response,
        201,
        b"rendered".to_vec(),
        Some(b"changed".to_vec()),
    );
    assert_eq!((r.status, &r.body[..]), (201, &b"changed"[..]));
    let plain = DeceitResponseBuilder::default().build();
    let r = apate::handlers::finish_response(&rule, &plain, 0, vec![], Some(vec![]));
    assert_eq!((r.status, r.body.len(), r.headers.len()), (200, 0, 1));
    let r = apate::handlers::render_failure(&RenderError::Hex("odd".to_string()));
    assert_eq!((r.status, text(&r)), (500, "It happened! Can't decode hex output: odd\n".to_string()));
    assert!(r.headers.is_empty());
    let r = apate::handlers::processor_failure(&ProcessorError::Unknown("p".to_string()));
    assert_eq!(
        (r.status, text(&r)),
        (500, "Can't apply post processors! Can't get processor by id \"p\"\n".to_string())
    );
    let first = vec![inline("1"), embedded("a", &[])];
    let second = vec![embedded("b", &["x"])];
    let chained = apate::handlers::chain(&first, &second);
    let shown: Vec<String> = chained.iter().map(|p| format!("{p:?}")).collect();
    let want: Vec<String> = first.iter().chain(second.iter()).map(|p| format!("{p:?}")).collect();
    assert_eq!(shown, want);
    assert!(apate::handlers::chain(&vec![], &vec![]).is_empty());
    let cell = apate::cell::new_code_cell();
    apate::cell::store_code(&cell, 418);
    assert_eq!(apate::handlers::override_code(&rule, &plain, &cell), 0);
    let scripted = DeceitResponseBuilder::default().with_output_type(OutputType::Rhai).build();
    assert_eq!(apate::handlers::override_code(&rule, &scripted, &cell), 418);
    let processed = DeceitResponseBuilder::default().add_processor(inline("()")).build();
    assert_eq!(apate::handlers::override_code(&rule, &processed, &cell), 418);
}

#[test]
fn next_processor_gets_the_body_as_it_stands() {
    let body = b"rendered".to_vec();
    assert_eq!(apate::processors::input_of(&None, &body), &body);
    let changed = Some(b"changed".to_vec());
    assert_eq!(apate::processors::input_of(&changed, &body), &b"changed".to_vec());
    let registry = vec![ApateProcessor::post("append", Box::new(Append))];
    let ctx = create_response_context(req("GET", "/x", &[], b""), ApateCounters::new());
    let mut rhai = RhaiState::new();
    let run = |p: &Processor, current: &[u8], rhai: &mut RhaiState| {
        apate::processors::apply_one(
            p,
            ResourceRef::new(0).with_level(0),
            &registry,
            &ctx,
            &current.to_vec(),
            rhai,
        )
    };
    assert_eq!(run(&embedded("append", &["!"]), b"in", &mut rhai).unwrap(), Some(b"in!".to_vec()));
    assert_eq!(run(&embedded("append", &[]), b"in", &mut rhai).unwrap(), None);
    assert_eq!(
        run(&inline("(body.as_string() + body.as_string()).to_blob()"), b"ab", &mut rhai).unwrap(),
        Some(b"abab".to_vec())
    );
    assert!(matches!(
        run(&embedded("nobody", &[]), b"in", &mut rhai),
        Err(ProcessorError::Unknown(id)) if id == "nobody"
    ));
    assert!(matches!(
        run(&Processor::RhaiRef { id: "none".to_string(), args: vec![] }, b"in", &mut rhai),
        Err(ProcessorError::Script(ScriptError::Missing(id))) if id == "none"
    ));
    // the first processor that cannot run decides the error
    assert!(matches!(
        run_chain(vec![embedded("nobody", &[]), inline("let")], b"x"),
        Err(ProcessorError::Unknown(id)) if id == "nobody"
    ));
}

#[test]
fn numbers_from_what_was_drawn() {
    use_number_parts();
}

fn use_number_parts() {
    let from = apate::random::number_from;
    assert_eq!(from(77, None, None), 77);
    assert_eq!(from(u128::MAX, None, Some(3)), u128::MAX);
    assert_eq!(from(77, Some(10), None), 7);
    assert_eq!(from(77, Some(0), None), 0);
    assert_eq!(from(77, Some(1), None), 0);
    assert_eq!(from(77, Some(70), Some(80)), 77);
    assert_eq!(from(80, Some(70), Some(80)), 70);
    assert_eq!(from(5, Some(70), Some(80)), 70);
    assert_eq!(from(5, Some(9), Some(9)), 9);
    assert_eq!(from(5, Some(9), Some(2)), 9);
    let script = apate::random::script_number_from;
    assert_eq!(script(77, None, None), 77);
    assert_eq!(script(1u128 << 63, None, None), 0);
    assert_eq!(script((1u128 << 63) + 5, None, None), 5);
    assert_eq!(script(77, Some(10), None), 7);
    assert_eq!(script(77, Some(0), None), 0);
    assert_eq!(script(77, Some(-3), None), 0);
    assert_eq!(script(77, Some(-5), Some(5)), 2);
    assert_eq!(script(77, Some(5), Some(5)), 5);
    assert_eq!(script(77, Some(5), Some(-5)), 5);
    assert_eq!(script(0, Some(i64::MIN), Some(i64::MAX)), i64::MIN);
    assert_eq!(script(u128::MAX, Some(i64::MIN), Some(i64::MAX)), i64::MIN);
    assert_eq!(script(u64::MAX as u128 - 1, Some(i64::MIN), Some(i64::MAX)), i64::MAX - 1);
}

#[test]
fn uuid_text_has_the_form_of_version_four() {
    for _ in 0..50 {
        let id = ctx_uuid_v4();
        let bytes = id.as_bytes();
        assert_eq!(bytes.len(), 36);
        for (i, b) in bytes.iter().enumerate() {
            match i {
                8 | 13 | 18 | 23 => assert_eq!(*b, b'-'),
                14 => assert_eq!(*b, b'4'),
                _ => assert!(b.is_ascii_digit() || (b'a'..=b'f').contains(b), "{id}"),
            }
        }
    }
}

#[test]
fn scripts_cannot_wait_and_template_compiling_decides_success() {
    let mut state = one("/s", typed(OutputType::Rhai, "sleep(1000000); sleep(5.5); \"woke\".to_blob()"));
    let r = get(&mut state, "/s");
    assert_eq!((r.status, text(&r)), (200, "woke".to_string()));
    let mut jinja = MiniJinjaState::new();
    assert!(jinja.add_minijinja_template("t", "{% for %}").is_err());
    assert!(jinja.templates.is_empty());
    assert!(jinja.add_minijinja_template("t", "fine").is_ok());
    assert!(jinja.add_minijinja_template("t", "fine").is_ok());
    assert!(jinja.add_minijinja_template("t", "{% for %}").is_err());
    assert_eq!(jinja.templates.len(), 1);
    assert_eq!(jinja.templates.values[0], "fine");
}

#[test]
fn checked_build_refuses_a_document_that_is_not_valid() {
    let good = ApateConfigBuilder::default()
        .with_port(7)
        .add_script("a", "true")
        .add_deceit(DeceitBuilder::with_uris(&["/ok/{id}"]).build())
        .try_build()
        .unwrap();
    assert_eq!((good.port, good.specs.deceit.len(), good.specs.scripts.len()), (7, 1, 1));
    let no_uri = ApateConfigBuilder::default().add_deceit(DeceitBuilder::with_uris(&[]).build());
    assert_eq!(no_uri.try_build().err(), Some(ConfigError::Specs(SpecsError::InvalidDeceit)));
    let bad_pattern =
        ApateConfigBuilder::default().add_deceit(DeceitBuilder::with_uris(&["/a/{b"]).build());
    assert_eq!(bad_pattern.try_build().err(), Some(ConfigError::Specs(SpecsError::InvalidDeceit)));
    // what is built without the check still never matches
    let mut state = ApateConfigBuilder::default()
        .add_deceit(
            DeceitBuilder::with_uris(&[])
                .add_response(DeceitResponseBuilder::default().with_output("x").build())
                .build(),
        )
        .build()
        .into_state();
    assert_eq!(get(&mut state, "/").status, 404);
    let copy = req("GET", "/p?a=1", &[("H", "v")], b"body").clone();
    assert_eq!((copy.method.as_str(), copy.request_path.as_str()), ("GET", "/p"));
    assert_eq!(copy.headers, vec![("h".to_string(), "v".to_string())]);
    assert_eq!(copy.query_args, vec![("a".to_string(), "1".to_string())]);
    assert_eq!(copy.body, b"body".to_vec());
}
