use std::sync::atomic::{AtomicU32, Ordering};
use std::sync::Arc;

use apate::deceit::{
    Deceit, DeceitBuilder, DeceitResponse, DeceitResponseBuilder, DeceitResponseContext,
};
use apate::handlers::{deceit_handler, ApateResponse};
use apate::matchers::Matcher;
use apate::output::OutputType;
use apate::processors::{ApateProcessor, PostProcessor, Processor};
use apate::{ApateConfig, ApateConfigBuilder, ApateSpecs, ApateState, RequestContext};

fn request(method: &str, uri: &str, headers: &[(&str, &str)], body: &[u8]) -> RequestContext {
    let (path, query) = match uri.split_once('?') {
        Some((p, q)) => (p, q),
        None => (uri, ""),
    };
    RequestContext::new(
        method.to_string(),
        path.to_string(),
        headers.iter().map(|(k, v)| (k.to_lowercase(), v.to_string())).collect(),
        query,
        body.to_vec(),
    )
}

fn send(state: &mut ApateState, method: &str, uri: &str) -> ApateResponse {
    deceit_handler(request(method, uri, &[], b""), state)
}

fn header<'a>(response: &'a ApateResponse, name: &str) -> Option<&'a str> {
    response
        .headers
        .iter()
        .rev()
        .find(|(k, _)| k.eq_ignore_ascii_case(name))
        .map(|(_, v)| v.as_str())
}

fn text(response: &ApateResponse) -> String {
    String::from_utf8(response.body.clone()).expect("body is text")
}

struct CustomProcessor {
    counter: Arc<AtomicU32>,
}

impl CustomProcessor {
    fn boxed(counter: Arc<AtomicU32>) -> Box<Self> {
        Box::new(Self { counter })
    }
}

impl PostProcessor for CustomProcessor {
    fn process(
        &self,
        input: &[&str],
        _context: &DeceitResponseContext,
        response: &[u8],
    ) -> Result<Option<Vec<u8>>, String> {
        self.counter.fetch_add(1, Ordering::SeqCst);

        let input = input.concat();
        if input.trim().is_empty() {
            return Ok(None);
        }

        let mut out = Vec::new();

        out.extend(response);
        out.extend(input.as_bytes());

        Ok(Some(out))
    }
}

#[test]
fn test_custom_user_processor() {
    let counter = Arc::new(AtomicU32::new(0));

    let config = ApateConfigBuilder::default()
        .register_processor(ApateProcessor::post(
            "processor_id_1",
            CustomProcessor::boxed(counter.clone()),
        ))
        .add_deceit(
            DeceitBuilder::with_uris(&["/processor/run"])
                .add_processor(Processor::Embedded {
                    id: "processor_id_1".to_string(),
                    args: Default::default(),
                })
                .add_response(
                    DeceitResponseBuilder::default()
                        .with_output(r#"simple_reponse"#)
                        .build(),
                )
                .build(),
        )
        .add_deceit(
            DeceitBuilder::with_uris(&["/processor/append"])
                .add_processor(Processor::Embedded {
                    id: "processor_id_1".to_string(),
                    args: vec!["_TAIL".to_string()],
                })
                .add_response(
                    DeceitResponseBuilder::default()
                        .with_output(r#"simple_reponse"#)
                        .build(),
                )
                .build(),
        )
        .build();

    let mut apate = config.into_state();

    assert_eq!(counter.load(Ordering::SeqCst), 0);

    let response = send(&mut apate, "POST", "/processor/run");

    assert_eq!(response.status, 200);

    let response_text = text(&response);

    assert_eq!(response_text, "simple_reponse");

    assert_eq!(counter.load(Ordering::SeqCst), 1);

    let response = send(&mut apate, "POST", "/processor/append");

    assert_eq!(response.status, 200);

    let response_text = text(&response);

    assert_eq!(response_text, "simple_reponse_TAIL");

    assert_eq!(counter.load(Ordering::SeqCst), 2);
}

const MATCHER_SCRIPT: &str = r#"
if ctx.method == "GET" {
    return true;
}

let headers = ctx.load_headers();
debug!(`headers: ${headers}`);
if headers["user-agent"] == "Apate" {
    return true;
}

let qargs = ctx.load_query_args();
debug!(`qargs: ${qargs}`);
if qargs["library"] == "Apate" {
    return true;
}

let pargs = ctx.load_path_args();
debug!(`pargs: ${pargs}`);
if pargs["name"] == "rhai" {
    return true;
}

let body = ctx.load_body().as_string();
if body.contains("Apate") {
    return true;
}

return false;
"#;

const REF_ID: &str = "rhai-processor";

const REF_SCRIPT: &str = r#"
let body = body.as_string();
let map = #{ 
    output: body,
    path: ctx.path,
    args: args,
    counter: ctx.inc_counter("cnt"),
};

let pargs = ctx.load_path_args();
if "name" in pargs {
    map.pname = pargs["name"];
    if pargs.name == "java" {
        return ();
    }
}

let qargs = ctx.load_query_args();
if "name" in qargs {
    map.qname = qargs.name;
    if qargs.name == "rhai" {
        ctx.response_code = 201;
    }
}

return map.to_json().to_blob();
"#;

fn build_config() -> ApateConfig {
    ApateConfigBuilder::default()
        .add_script(REF_ID, REF_SCRIPT)
        .add_deceit(
            DeceitBuilder::with_uris(&["/match/{name}", "/matcher"])
                .add_matcher(Matcher::Rhai {
                    script: MATCHER_SCRIPT.to_string(),
                })
                .add_response(
                    DeceitResponseBuilder::default()
                        .with_output(r#"It is .k"#)
                        .build(),
                )
                .build(),
        )
        .add_deceit(
            DeceitBuilder::with_uris(&["/process/{name}", "/processor"])
                .add_processor(Processor::RhaiRef {
                    id: REF_ID.to_string(),
                    args: vec!["rhai_arg_1".to_string(), "rhai_arg_2".to_string()],
                })
                .add_response(
                    DeceitResponseBuilder::default()
                        .with_output(r#"It is .k"#)
                        .build(),
                )
                .build(),
        )
        .build()
}

#[test]
fn test_rhai_matcher() {
    let mut apate = build_config().into_state();

    // Method
    let response = send(&mut apate, "POST", "/matcher");
    assert_ne!(response.status, 200, "Error in {response:?}");

    let response = send(&mut apate, "GET", "/matcher");
    assert_eq!(text(&response), "It is .k");

    // Headers
    let response = deceit_handler(
        request("POST", "/matcher", &[("User-Agent", "curl")], b""),
        &mut apate,
    );
    assert_ne!(response.status, 200, "Error in {response:?}");

    let response = deceit_handler(
        request("POST", "/matcher?name=rhai", &[("User-Agent", "Apate")], b""),
        &mut apate,
    );
    assert_eq!(text(&response), "It is .k");

    // Path arg
    let response = send(&mut apate, "POST", "/match/lua");
    assert_ne!(response.status, 200, "Error in {response:?}");

    let response = send(&mut apate, "POST", "/match/rhai");
    assert_eq!(text(&response), "It is .k");

    // Query arg
    let response = send(&mut apate, "POST", "/matcher?library=Postman");
    assert_ne!(response.status, 200, "Error in {response:?}");

    let response = send(&mut apate, "POST", "/matcher?library=Apate");
    assert_eq!(text(&response), "It is .k");

    // Body content
    let response = deceit_handler(
        request("POST", "/matcher", &[], b"This is custom body"),
        &mut apate,
    );
    assert_ne!(response.status, 200, "Error in {response:?}");

    let response = deceit_handler(
        request("POST", "/matcher", &[], b"Valid Apate body"),
        &mut apate,
    );
    assert_eq!(text(&response), "It is .k");
}

fn json_of(response: &ApateResponse) -> serde_json::Value {
    serde_json::from_slice(&response.body).expect("body is JSON")
}

#[test]
fn test_rhai_ref_matcher() {
    let mut apate = build_config().into_state();

    // basic stuff
    let response = send(&mut apate, "POST", "/processor");
    let jval = json_of(&response);
    json_basic_assert(&jval, "/processor", 0);

    // No return
    let response = send(&mut apate, "POST", "/process/java");
    let text = text(&response);
    assert_eq!(text, "It is .k");

    // path args
    let response = send(&mut apate, "POST", "/process/rhai");
    let jval = json_of(&response);
    json_basic_assert(&jval, "/process/rhai", 2);
    assert_eq!(jval.get("pname").unwrap().as_str().unwrap(), "rhai");

    // query args
    let response = send(&mut apate, "POST", "/processor?name=java");
    assert_eq!(response.status, 200);
    let jval = json_of(&response);
    json_basic_assert(&jval, "/processor", 3);
    assert_eq!(jval.get("qname").unwrap().as_str().unwrap(), "java");

    // query args with response code
    let response = send(&mut apate, "POST", "/processor?name=rhai");
    assert_eq!(response.status, 201, "{:?}", response);
    let jval = json_of(&response);
    json_basic_assert(&jval, "/processor", 4);
    assert_eq!(jval.get("qname").unwrap().as_str().unwrap(), "rhai");
}

fn json_basic_assert(v: &serde_json::Value, path: &str, cnt: usize) {
    assert_eq!(v.get("output").unwrap().as_str().unwrap(), "It is .k");
    assert_eq!(v.get("path").unwrap().as_str().unwrap(), path);
    assert_eq!(v.get("counter").unwrap().as_u64().unwrap(), cnt as u64);
    let args: Vec<&str> = v
        .get("args")
        .unwrap()
        .as_array()
        .unwrap()
        .iter()
        .map(|v| v.as_str().unwrap())
        .collect();

    assert_eq!(args.len(), 2);
    assert!(args.contains(&"rhai_arg_1"), "{args:?}");
    assert!(args.contains(&"rhai_arg_2"), "{args:?}");
}

#[test]
fn non_async_test() {
    let config = ApateConfig {
        specs: ApateSpecs {
            deceit: vec![Deceit {
                uris: vec!["/user/check".to_string()],
                matchers: vec![Matcher::Method {
                    eq: "POST".to_string(),
                    negate: false,
                }],
                headers: vec![("Content-Type".to_string(), "application/json".to_string())],
                responses: vec![DeceitResponse {
                    output: r#"{"message":"Success"}"#.to_string(),
                    ..Default::default()
                }],
                ..Default::default()
            }],
            ..Default::default()
        },
        ..Default::default()
    };

    let mut server = config.into_state();

    let response = send(&mut server, "POST", "/user/check");

    assert_eq!(response.status, 200);

    let cth = header(&response, "Content-Type");
    assert!(
        matches!(cth, Some(v) if v == "application/json"),
        "Content-Type header not found"
    );

    let response_json = json_of(&response);

    assert_eq!(response_json["message"], "Success");
}

#[test]
fn async_test() {
    let config = DeceitBuilder::with_uris(&["/user/check"])
        .require_method("POST")
        .add_header("Content-Type", "application/json")
        .add_response(
            DeceitResponseBuilder::default()
                .code(200)
                .with_output(r#"{"message":"Success"}"#)
                .build(),
        )
        .to_app_config();

    let mut server = config.into_state();

    let response = send(&mut server, "POST", "/user/check");

    assert_eq!(response.status, 200);

    let cth = header(&response, "Content-Type");
    assert!(
        matches!(cth, Some(v) if v == "application/json"),
        "Content-Type header not found"
    );

    let response_json = json_of(&response);

    assert_eq!(response_json["message"], "Success");

    // Calling non existing endpoint
    let response = send(&mut server, "POST", "/user/wrong/api");

    assert!(!(200..300).contains(&response.status));
}

#[test]
fn complex_configuration_test() {
    let config = ApateConfigBuilder::default()
        .add_deceit(
            DeceitBuilder::with_uris(&["/user/add"])
                .require_method("POST")
                .add_header("Content-Type", "application/json")
                .add_response(
                    DeceitResponseBuilder::default()
                        .code(200)
                        .with_output(r#"{"message":"Success"}"#)
                        .build(),
                )
                .build(),
        )
        .add_deceit(
            DeceitBuilder::with_uris(&["/user/{id}"])
                .require_method("GET")
                .add_response(
                    DeceitResponseBuilder::default()
                        .code(200)
                        .add_header("Content-Type", "application/json")
                        .with_output_type(OutputType::Jinja)
                        .with_output(r#"{"id": "{{ ctx.load_path_args().id }}", "name":"Ignat"}"#)
                        .build(),
                )
                .build(),
        )
        .build();

    let mut server = config.into_state();

    // POST query to address "/user/add"
    let response = send(&mut server, "POST", "/user/add");

    assert_eq!(response.status, 200);

    assert!(
        matches!(header(&response, "Content-Type"), Some(v) if v == "application/json"),
        "Content-Type header not found"
    );

    let response_json = json_of(&response);

    assert_eq!(response_json["message"], "Success");

    // GET query to address "/user/{id}"
    let response = send(&mut server, "GET", "/user/1133");

    assert_eq!(response.status, 200);
    assert!(
        matches!(header(&response, "Content-Type"), Some(v) if v == "application/json"),
        "Content-Type header not found"
    );

    let response_json = json_of(&response);

    assert_eq!(response_json["name"], "Ignat");
    assert_eq!(response_json["id"], "1133");
}
