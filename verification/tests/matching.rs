use apate::deceit::{Deceit, DeceitBuilder, DeceitResponse, DeceitResponseBuilder};
use apate::handlers::{deceit_handler, select_response, ApateResponse};
use apate::matchers::{
    fits_depth, is_matcher_approves, match_header, match_json, match_method, match_path_arg,
    match_query_arg, matchers_and, matchers_or, Matcher,
};
use apate::output::OutputType;
use apate::rhai::RhaiState;
use apate::uri::{is_supported_pattern, match_pattern, match_uris};
use apate::{ApateConfigBuilder, ApateState, RequestContext, ResourceRef};

fn req(method: &str, uri: &str, headers: &[(&str, &str)], body: &[u8]) -> RequestContext {
    let (path, query) = match uri.split_once('?') {
        Some((p, q)) => (p, q),
        None => (uri, ""),
    };
    RequestContext::new(
        method.to_string(),
        path.to_string(),
        headers.iter().map(|(k, v)| (k.to_string(), v.to_string())).collect(),
        query,
        body.to_vec(),
    )
}

fn state_of(deceits: Vec<Deceit>) -> ApateState {
    let mut builder = ApateConfigBuilder::default();
    for d in deceits {
        builder = builder.add_deceit(d);
    }
    builder.build().into_state()
}

fn plain(output: &str) -> DeceitResponse {
    DeceitResponseBuilder::default().with_output(output).build()
}

fn body_text(r: &ApateResponse) -> String {
    String::from_utf8_lossy(&r.body).into_owned()
}

fn method(eq: &str, negate: bool) -> Matcher {
    Matcher::Method { eq: eq.to_string(), negate }
}

fn approves(m: &Matcher, ctx: &RequestContext) -> bool {
    let mut rhai = RhaiState::new();
    is_matcher_approves(&ResourceRef::new(0), &mut rhai, ctx, m)
}

#[test]
fn method_matcher_is_upper_case_containment() {
    let post = req("POST", "/x", &[], b"");
    let get = req("GET", "/x", &[], b"");
    assert!(match_method("POST", &post));
    assert!(!match_method("POST", &get));
    // the configured text is put in upper case first
    assert!(match_method("post", &post));
    // a union of methods accepts each of them
    assert!(match_method("GET|POST", &post));
    assert!(match_method("GET|POST", &get));
    // containment, not equality
    assert!(match_method("GETPOST", &get));
    assert!(match_method("GETPOST", &post));
    assert!(!match_method("GE", &get));
    assert!(!match_method("", &get));
}

#[test]
fn negate_turns_a_leaf_around() {
    let post = req("POST", "/x", &[], b"");
    assert!(approves(&method("POST", false), &post));
    assert!(!approves(&method("POST", true), &post));
    assert!(approves(&method("GET", true), &post));
}

#[test]
fn header_matcher_ignores_case_of_the_name_only() {
    let ctx = req("GET", "/x", &[("Content-Type", "application/json")], b"");
    assert_eq!(ctx.headers[0].0, "content-type");
    assert!(match_header("content-type", "application/json", &ctx));
    assert!(match_header("Content-Type", "application/json", &ctx));
    assert!(match_header("CONTENT-TYPE", "application/json", &ctx));
    assert!(!match_header("Content-Type", "Application/Json", &ctx));
    assert!(!match_header("Content-Typ", "application/json", &ctx));
    assert!(!match_header("Accept", "application/json", &ctx));
}

#[test]
fn header_of_two_with_one_name_the_last_counts() {
    let ctx = req("GET", "/x", &[("X-Mode", "a"), ("x-mode", "b")], b"");
    assert!(match_header("X-Mode", "b", &ctx));
    assert!(!match_header("X-Mode", "a", &ctx));
}

#[test]
fn query_arguments_are_decoded_and_the_last_value_wins() {
    let ctx = req("GET", "/x?a=1&b=hello%20world&a=3&c=x+y", &[], b"");
    assert!(match_query_arg("a", "3", &ctx));
    assert!(!match_query_arg("a", "1", &ctx));
    assert!(match_query_arg("b", "hello world", &ctx));
    assert!(match_query_arg("c", "x y", &ctx));
    assert!(!match_query_arg("d", "", &ctx));
    assert_eq!(ctx.query_args.len(), 4);
    assert_eq!(ctx.query_args[1], ("b".to_string(), "hello world".to_string()));
}

#[test]
fn fresh_request_has_root_path_and_no_path_arguments() {
    let ctx = req("GET", "/some/where?x=1", &[], b"abc");
    assert_eq!(ctx.path, "/");
    assert_eq!(ctx.request_path, "/some/where");
    assert!(ctx.path_args.is_empty());
    assert_eq!(ctx.body, b"abc".to_vec());
    assert_eq!(ctx.method, "GET");
}

#[test]
fn path_argument_matcher_reads_the_captures() {
    let mut ctx = req("GET", "/user/7", &[], b"");
    assert!(!match_path_arg("id", "7", &ctx));
    ctx.update_paths("/user/7".to_string(), vec![("id".to_string(), "7".to_string())]);
    assert_eq!(ctx.path, "/user/7");
    assert!(match_path_arg("id", "7", &ctx));
    assert!(!match_path_arg("id", "8", &ctx));
    assert!(!match_path_arg("ID", "7", &ctx));
}

#[test]
fn json_matcher_wants_exactly_one_string() {
    let body = br#"{"user":{"name":"Ignat","age":42,"tags":["a","b"]},"other":{"name":"Ignat"}}"#;
    let ctx = req("POST", "/x", &[], body);
    assert!(match_json("$.user.name", "Ignat", &ctx));
    assert!(!match_json("$.user.name", "ignat", &ctx));
    // a number is no string
    assert!(!match_json("$.user.age", "42", &ctx));
    // two values found
    assert!(!match_json("$..name", "Ignat", &ctx));
    assert!(!match_json("$.user.tags[*]", "a", &ctx));
    // one value of a list
    assert!(match_json("$.user.tags[1]", "b", &ctx));
    // nothing found
    assert!(!match_json("$.user.missing", "Ignat", &ctx));
    // no JSON path
    assert!(!match_json("$$$[", "Ignat", &ctx));
}

#[test]
fn json_matcher_is_false_on_a_body_that_is_no_json() {
    let ctx = req("POST", "/x", &[], b"name=Ignat");
    assert!(!match_json("$.name", "Ignat", &ctx));
    let empty = req("POST", "/x", &[], b"");
    assert!(!match_json("$.name", "Ignat", &empty));
    // negate turns the failure around
    let m = Matcher::Json { path: "$.name".to_string(), eq: "Ignat".to_string(), negate: true };
    assert!(approves(&m, &ctx));
}

#[test]
fn and_needs_all_and_or_needs_one() {
    let post = req("POST", "/x?a=1", &[], b"");
    let yes = || method("POST", false);
    let no = || method("GET", false);
    assert!(approves(&Matcher::And { matchers: vec![] }, &post));
    assert!(!approves(&Matcher::Or { matchers: vec![] }, &post));
    assert!(approves(&Matcher::And { matchers: vec![yes(), yes()] }, &post));
    assert!(!approves(&Matcher::And { matchers: vec![yes(), no()] }, &post));
    assert!(approves(&Matcher::Or { matchers: vec![no(), yes()] }, &post));
    assert!(!approves(&Matcher::Or { matchers: vec![no(), no()] }, &post));
    let nested = Matcher::And {
        matchers: vec![
            Matcher::Or { matchers: vec![no(), yes()] },
            Matcher::QueryArg { name: "a".to_string(), value: "1".to_string(), negate: false },
        ],
    };
    assert!(approves(&nested, &post));
    let mut rhai = RhaiState::new();
    let rref = ResourceRef::new(0);
    assert!(matchers_and(&rref, &mut rhai, &post, &vec![]));
    assert!(!matchers_or(&rref, &mut rhai, &post, &vec![]));
    assert!(matchers_and(&rref, &mut rhai, &post, &vec![yes(), nested.clone()]));
    assert!(matchers_or(&rref, &mut rhai, &post, &vec![no(), nested]));
}

#[test]
fn and_stops_at_the_first_failure_and_or_at_the_first_success() {
    // a script that would fail to compile is never reached, so nothing of it
    // is cached
    let post = req("POST", "/x", &[], b"");
    let script = || Matcher::Rhai { script: "true".to_string() };
    let mut rhai = RhaiState::new();
    let rref = ResourceRef::new(0);
    assert!(!matchers_and(&rref, &mut rhai, &post, &vec![method("GET", false), script()]));
    assert_eq!(rhai.asts.len(), 0);
    assert!(matchers_or(&rref, &mut rhai, &post, &vec![method("POST", false), script()]));
    assert_eq!(rhai.asts.len(), 0);
    assert!(matchers_and(&rref, &mut rhai, &post, &vec![method("POST", false), script()]));
    assert_eq!(rhai.asts.len(), 1);
    assert_eq!(rhai.asts.keys[0], "rhai-matcher:0-1");
    assert_eq!(rhai.asts.values[0].source, "true");
}

#[test]
fn script_matcher_counts_failures_as_false() {
    let post = req("POST", "/x", &[], b"");
    assert!(approves(&Matcher::Rhai { script: "true".to_string() }, &post));
    assert!(!approves(&Matcher::Rhai { script: "false".to_string() }, &post));
    // no boolean
    assert!(!approves(&Matcher::Rhai { script: "42".to_string() }, &post));
    // does not compile
    assert!(!approves(&Matcher::Rhai { script: "if {".to_string() }, &post));
    // fails when it runs
    assert!(!approves(&Matcher::Rhai { script: "throw \"no\"".to_string() }, &post));
    // never ends: the engine stops it
    assert!(!approves(&Matcher::Rhai { script: "loop { }".to_string() }, &post));
    // no script under this id
    assert!(!approves(&Matcher::RhaiRef { id: "nope".to_string(), args: vec![] }, &post));
}

#[test]
fn matcher_kind_names() {
    assert_eq!(method("GET", false).kind_name(), "METHOD");
    assert_eq!(Matcher::And { matchers: vec![] }.kind_name(), "AND");
    assert_eq!(Matcher::Or { matchers: vec![] }.kind_name(), "OR");
    assert_eq!(Matcher::Rhai { script: String::new() }.kind_name(), "RHAI");
    assert_eq!(Matcher::RhaiRef { id: String::new(), args: vec![] }.kind_name(), "RHAI_REF");
    assert_eq!(
        Matcher::Header { key: String::new(), value: String::new(), negate: false }.kind_name(),
        "HEADER"
    );
    assert_eq!(
        Matcher::PathArg { name: String::new(), value: String::new(), negate: false }.kind_name(),
        "PATH_ARG"
    );
    assert_eq!(
        Matcher::QueryArg { name: String::new(), value: String::new(), negate: false }.kind_name(),
        "QUERY_ARG"
    );
    assert_eq!(
        Matcher::Json { path: String::new(), eq: String::new(), negate: false }.kind_name(),
        "JSON"
    );
}

#[test]
fn depth_of_a_tree_is_bounded() {
    let mut tree = method("GET", false);
    assert!(fits_depth(&tree, 0));
    for _ in 0..3 {
        tree = Matcher::And { matchers: vec![tree] };
    }
    assert!(fits_depth(&tree, 3));
    assert!(!fits_depth(&tree, 2));
    let wide = Matcher::Or { matchers: vec![method("A", false), tree.clone()] };
    assert!(fits_depth(&wide, 4));
    assert!(!fits_depth(&wide, 3));
}

#[test]
fn supported_patterns() {
    assert!(is_supported_pattern("/user/check"));
    assert!(is_supported_pattern("/user/{id}"));
    assert!(is_supported_pattern("/v{version}/res/{id_2}"));
    assert!(is_supported_pattern(""));
    assert!(is_supported_pattern("/a}b"));
    // a capture needs a name and a closing brace
    assert!(!is_supported_pattern("/user/{id"));
    assert!(!is_supported_pattern("/user/{}"));
    assert!(!is_supported_pattern("/user/{1d}"));
    assert!(!is_supported_pattern("/user/{a{b}}"));
    // no patterns of the router beyond plain captures
    assert!(!is_supported_pattern("/user/{id:\\d+}"));
    assert!(!is_supported_pattern("/files/{rest}*"));
    assert!(!is_supported_pattern("/files/*"));
    // names differ
    assert!(!is_supported_pattern("/{a}/{a}"));
    assert!(is_supported_pattern("/{a}/{b}"));
    // at most 16 captures
    let many: String = (0..16).map(|i| format!("/{{p{i}}}")).collect();
    assert!(is_supported_pattern(&many));
    let too_many: String = (0..17).map(|i| format!("/{{p{i}}}")).collect();
    assert!(!is_supported_pattern(&too_many));
    // a pattern with captures has at most 4096 bytes, a literal one any length
    let long_literal = "/a".repeat(5000);
    assert!(is_supported_pattern(&long_literal));
    let long_capture = format!("{}/{{id}}", "/a".repeat(2046));
    assert!(!is_supported_pattern(&long_capture));
}

#[test]
fn pattern_matches_the_whole_path() {
    assert_eq!(match_pattern("/home", "/home"), Some(vec![]));
    assert_eq!(match_pattern("/home", "/home/"), None);
    assert_eq!(match_pattern("/home/", "/home"), None);
    assert_eq!(match_pattern("/home", "/home/new"), None);
    assert_eq!(match_pattern("/home", "/homes"), None);
    assert_eq!(match_pattern("/home", "/hom"), None);
}

#[test]
fn capture_is_one_segment_that_is_not_empty() {
    let caught = |v: &str| Some(vec![("id".to_string(), v.to_string())]);
    assert_eq!(match_pattern("/user/{id}", "/user/1133"), caught("1133"));
    assert_eq!(match_pattern("/user/{id}", "/user/a%20b"), caught("a%20b"));
    assert_eq!(match_pattern("/user/{id}", "/user/"), None);
    assert_eq!(match_pattern("/user/{id}", "/user"), None);
    assert_eq!(match_pattern("/user/{id}", "/user/1/2"), None);
    assert_eq!(match_pattern("/user/{id}", "/user/1/"), None);
    assert_eq!(
        match_pattern("/v{version}/res/{id}", "/v151/res/adage32"),
        Some(vec![
            ("version".to_string(), "151".to_string()),
            ("id".to_string(), "adage32".to_string())
        ])
    );
}

#[test]
fn unsupported_pattern_and_long_path_never_match() {
    assert_eq!(match_pattern("/files/{rest}*", "/files/a/b"), None);
    assert_eq!(match_pattern("/user/{id", "/user/{id"), None);
    let long_path = format!("/{}", "a".repeat(65535));
    assert_eq!(match_pattern(&long_path, &long_path), None);
    let fitting = format!("/{}", "a".repeat(65534));
    assert_eq!(match_pattern(&fitting, &fitting), Some(vec![]));
}

#[test]
fn first_pattern_that_matches_counts() {
    let uris = vec!["/a/{x}".to_string(), "/{y}/b".to_string(), "/a/b".to_string()];
    assert_eq!(match_uris(&uris, "/a/b"), Some(vec![("x".to_string(), "b".to_string())]));
    assert_eq!(match_uris(&uris, "/c/b"), Some(vec![("y".to_string(), "c".to_string())]));
    assert_eq!(match_uris(&uris, "/c/d"), None);
    assert_eq!(match_uris(&vec![], "/a/b"), None);
    // a pattern that is not supported is passed over
    let mixed = vec!["/a/{x".to_string(), "/a/{z}".to_string()];
    assert_eq!(match_uris(&mixed, "/a/b"), Some(vec![("z".to_string(), "b".to_string())]));
}

#[test]
fn match_against_uris_hands_out_path_and_captures() {
    let d = DeceitBuilder::with_uris(&["/user/{id}", "/users"]).build();
    let m = d.match_againtst_uris("/user/9").expect("matches");
    assert_eq!(m.path, "/user/9");
    assert_eq!(m.args, vec![("id".to_string(), "9".to_string())]);
    let m = d.match_againtst_uris("/users").expect("matches");
    assert!(m.args.is_empty());
    assert!(d.match_againtst_uris("/other").is_none());
}

#[test]
fn first_response_without_checks_or_with_passing_checks_is_chosen() {
    let d = DeceitBuilder::with_uris(&["/x"])
        .add_response(DeceitResponseBuilder::default().require_method("PUT").with_output("put").build())
        .add_response(DeceitResponseBuilder::default().require_method("POST").with_output("post").build())
        .add_response(plain("any"))
        .add_response(DeceitResponseBuilder::default().require_method("POST").with_output("late").build())
        .build();
    let mut rhai = RhaiState::new();
    let rref = ResourceRef::new(0);
    assert_eq!(d.match_response(&rref, &req("PUT", "/x", &[], b""), &mut rhai), Some(0));
    assert_eq!(d.match_response(&rref, &req("POST", "/x", &[], b""), &mut rhai), Some(1));
    assert_eq!(d.match_response(&rref, &req("GET", "/x", &[], b""), &mut rhai), Some(2));
}

#[test]
fn rule_checks_fail_means_no_response() {
    let d = DeceitBuilder::with_uris(&["/x"]).require_method("POST").add_response(plain("a")).build();
    let mut rhai = RhaiState::new();
    let rref = ResourceRef::new(0);
    assert_eq!(d.match_response(&rref, &req("GET", "/x", &[], b""), &mut rhai), None);
    assert_eq!(d.match_response(&rref, &req("POST", "/x", &[], b""), &mut rhai), Some(0));
    let none = DeceitBuilder::with_uris(&["/x"]).build();
    assert_eq!(none.match_response(&rref, &req("POST", "/x", &[], b""), &mut rhai), None);
}

#[test]
fn failing_rule_checks_hand_the_request_to_the_next_rule() {
    let mut state = state_of(vec![
        DeceitBuilder::with_uris(&["/x"]).require_method("POST").add_response(plain("first")).build(),
        DeceitBuilder::with_uris(&["/x"]).add_response(plain("second")).build(),
    ]);
    let r = deceit_handler(req("POST", "/x", &[], b""), &mut state);
    assert_eq!((r.status, body_text(&r)), (200, "first".to_string()));
    let r = deceit_handler(req("GET", "/x", &[], b""), &mut state);
    assert_eq!((r.status, body_text(&r)), (200, "second".to_string()));
}

#[test]
fn failing_responses_hand_the_request_to_the_next_rule() {
    let mut state = state_of(vec![
        DeceitBuilder::with_uris(&["/x"])
            .add_response(DeceitResponseBuilder::default().require_method("PUT").with_output("a").build())
            .add_response(
                DeceitResponseBuilder::default().require_header("x-k", "v").with_output("b").build(),
            )
            .build(),
        DeceitBuilder::with_uris(&["/{any}"]).add_response(plain("fallback")).build(),
    ]);
    let r = deceit_handler(req("GET", "/x", &[], b""), &mut state);
    assert_eq!((r.status, body_text(&r)), (200, "fallback".to_string()));
    let r = deceit_handler(req("GET", "/x", &[("X-K", "v")], b""), &mut state);
    assert_eq!((r.status, body_text(&r)), (200, "b".to_string()));
}

#[test]
fn no_rule_means_not_found_with_the_path_in_the_text() {
    let mut state = state_of(vec![
        DeceitBuilder::with_uris(&["/x"]).require_method("POST").add_response(plain("first")).build(),
    ]);
    let r = deceit_handler(req("GET", "/x?y=1", &[], b""), &mut state);
    assert_eq!(r.status, 404);
    assert!(r.headers.is_empty());
    assert_eq!(body_text(&r), "Nothing can handle your requiest with path: /x\n");
    let mut empty = state_of(vec![]);
    let r = deceit_handler(req("GET", "/", &[], b""), &mut empty);
    assert_eq!(r.status, 404);
    assert_eq!(body_text(&r), "Nothing can handle your requiest with path: /\n");
}

#[test]
fn selection_is_by_order_of_declaration() {
    let deceits = vec![
        DeceitBuilder::with_uris(&["/a"]).add_response(plain("0")).build(),
        DeceitBuilder::with_uris(&["/{p}"])
            .add_response(DeceitResponseBuilder::default().require_path_arg("p", "b").with_output("1.0").build())
            .add_response(DeceitResponseBuilder::default().require_path_arg("p", "a").with_output("1.1").build())
            .build(),
        DeceitBuilder::with_uris(&["/b", "/c"]).add_response(plain("2")).build(),
    ];
    let mut rhai = RhaiState::new();
    let mut pick = |path: &str| {
        let mut ctx = req("GET", path, &[], b"");
        let chosen = select_response(&deceits, &mut ctx, &mut rhai);
        (chosen, ctx.path.clone(), ctx.path_args.clone())
    };
    assert_eq!(pick("/a"), (Some((0, 0)), "/a".to_string(), vec![]));
    assert_eq!(pick("/b"), (Some((1, 0)), "/b".to_string(), vec![("p".to_string(), "b".to_string())]));
    assert_eq!(pick("/c").0, Some((2, 0)));
    assert_eq!(pick("/d").0, None);
    assert_eq!(pick("/d/e").0, None);
    // the same request is selected the same way again
    assert_eq!(pick("/b").0, Some((1, 0)));
}

#[test]
fn selected_response_that_fails_does_not_fall_through() {
    let mut state = state_of(vec![
        DeceitBuilder::with_uris(&["/x"])
            .add_response(
                DeceitResponseBuilder::default()
                    .with_output_type(OutputType::Hex)
                    .with_output("zz")
                    .build(),
            )
            .add_response(plain("later response"))
            .build(),
        DeceitBuilder::with_uris(&["/x"]).add_response(plain("later rule")).build(),
    ]);
    let r = deceit_handler(req("GET", "/x", &[], b""), &mut state);
    assert_eq!(r.status, 500);
    assert!(r.headers.is_empty());
    assert!(body_text(&r).starts_with("It happened! Can't decode hex output: "), "{}", body_text(&r));
    assert!(body_text(&r).ends_with('\n'));
}

#[test]
fn errors_of_deciding_scripts_are_noted() {
    let post = req("POST", "/x", &[], b"");
    let mut rhai = RhaiState::new();
    let rref = ResourceRef::new(0);
    let script = |text: &str| Matcher::Rhai { script: text.to_string() };
    assert!(is_matcher_approves(&rref, &mut rhai, &post, &script("true")));
    assert!(!is_matcher_approves(&rref, &mut rhai, &post, &script("false")));
    assert!(rhai.notes.is_empty());
    assert!(!is_matcher_approves(&rref, &mut rhai, &post, &script("if {")));
    assert_eq!(rhai.notes.len(), 1);
    assert!(rhai.notes[0].starts_with("Can't compile Rhai script: "), "{}", rhai.notes[0]);
    assert!(!is_matcher_approves(&rref, &mut rhai, &post, &script("throw \"no\"")));
    assert!(!is_matcher_approves(&rref, &mut rhai, &post, &script("42")));
    let missing = Matcher::RhaiRef { id: "nope".to_string(), args: vec![] };
    assert!(!is_matcher_approves(&rref, &mut rhai, &post, &missing));
    assert_eq!(rhai.notes.len(), 4);
    assert!(rhai.notes[1].starts_with("Can't execute Rhai script: "), "{}", rhai.notes[1]);
    assert!(rhai.notes[2].starts_with("Can't execute Rhai script: "), "{}", rhai.notes[2]);
    assert_eq!(rhai.notes[3], "No Rhai script with id: nope");
    let taken = rhai.take_notes();
    assert_eq!(taken.len(), 4);
    assert!(rhai.notes.is_empty());
    assert!(rhai.take_notes().is_empty());
}

#[test]
fn scripts_after_the_deciding_check_are_not_compiled() {
    let post = req("POST", "/x", &[], b"");
    let script = |text: &str| Matcher::Rhai { script: text.to_string() };
    let mut rhai = RhaiState::new();
    let rref = ResourceRef::new(4);
    let list = vec![
        script("true"),
        Matcher::Or { matchers: vec![script("true"), script("1 +")] },
        Matcher::Method { eq: "GET".to_string(), negate: false },
        script("false"),
    ];
    assert!(!matchers_and(&rref, &mut rhai, &post, &list));
    let keys: Vec<&str> = rhai.asts.keys.iter().map(|k| k.as_str()).collect();
    assert_eq!(keys, vec!["rhai-matcher:4-0", "rhai-matcher:4-1-0"]);
    assert!(rhai.notes.is_empty());
    let mut rhai = RhaiState::new();
    assert!(matchers_or(&rref, &mut rhai, &post, &list));
    let keys: Vec<&str> = rhai.asts.keys.iter().map(|k| k.as_str()).collect();
    assert_eq!(keys, vec!["rhai-matcher:4-0"]);
}
