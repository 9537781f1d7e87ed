use std::sync::atomic::{AtomicU32, Ordering};
use std::sync::Arc;

use apate::admin::specification_replace;
use apate::deceit::{DeceitBuilder, DeceitResponseBuilder, DeceitResponseContext};
use apate::handlers::{deceit_handler, ApateResponse};
use apate::matchers::Matcher;
use apate::output::OutputType;
use apate::processors::{ApateProcessor, PostProcessor, Processor};
use apate::{ApateConfigBuilder, ApateSpecs, ApateState, RequestContext};

fn call(state: &mut ApateState, method: &str, path: &str, query: &str) -> ApateResponse {
    let req = RequestContext::new(method.to_string(), path.to_string(), vec![], query, vec![]);
    deceit_handler(req, state)
}

fn pair(k: &str, v: &str) -> (String, String) {
    (k.to_string(), v.to_string())
}

#[test]
fn simple_echo() {
    let deceit = DeceitBuilder::with_uris(&["/user/check"])
        .add_matcher(Matcher::Method { eq: "POST".to_string(), negate: false })
        .add_response(
            DeceitResponseBuilder::default()
                .code(200)
                .add_header("Content-Type", "application/json")
                .with_output_type(OutputType::String)
                .with_output(r#"{"message":"Success"}"#)
                .build(),
        )
        .build();
    let mut state = ApateConfigBuilder::default().add_deceit(deceit).build().into_state();
    let r = call(&mut state, "POST", "/user/check", "");
    assert_eq!(r.status, 200);
    assert_eq!(r.body, br#"{"message":"Success"}"#.to_vec());
    assert_eq!(r.headers, vec![pair("Content-Type", "application/json")]);
    let r = call(&mut state, "GET", "/user/check", "");
    assert_eq!(r.status, 404);
    assert_eq!(r.body, b"Nothing can handle your requiest with path: /user/check\n".to_vec());
}

#[test]
fn path_capture_via_template() {
    let deceit = DeceitBuilder::with_uris(&["/user/{id}"])
        .add_response(
            DeceitResponseBuilder::default()
                .add_header("Content-Type", "application/json")
                .with_output_type(OutputType::Jinja)
                .with_output(r#"{"id":"{{ ctx.load_path_args().id }}","name":"Ignat"}"#)
                .build(),
        )
        .build();
    let mut state = ApateConfigBuilder::default().add_deceit(deceit).build().into_state();
    let r = call(&mut state, "GET", "/user/1133", "");
    assert_eq!(r.status, 200);
    assert_eq!(r.body, br#"{"id":"1133","name":"Ignat"}"#.to_vec());
    assert_eq!(r.headers, vec![pair("Content-Type", "application/json")]);
}

#[test]
fn script_matcher_on_a_query_argument() {
    let deceit = DeceitBuilder::with_uris(&["/matcher"])
        .add_matcher(Matcher::Rhai {
            script: r#"let q = ctx.load_query_args(); "library" in q && q.library == "Apate""#
                .to_string(),
        })
        .add_response(DeceitResponseBuilder::default().with_output("ok").build())
        .build();
    let mut state = ApateConfigBuilder::default().add_deceit(deceit).build().into_state();
    assert_eq!(call(&mut state, "POST", "/matcher", "library=Postman").status, 404);
    assert_eq!(call(&mut state, "POST", "/matcher", "library=Apate").status, 200);
    assert_eq!(call(&mut state, "POST", "/matcher", "").status, 404);
    assert_eq!(call(&mut state, "POST", "/matcher", "library=Apate").status, 200);
}

struct Tail {
    calls: Arc<AtomicU32>,
}

impl PostProcessor for Tail {
    fn process(
        &self,
        input: &[&str],
        _context: &DeceitResponseContext,
        response: &[u8],
    ) -> Result<Option<Vec<u8>>, String> {
        self.calls.fetch_add(1, Ordering::SeqCst);
        let mut out = response.to_vec();
        out.extend(input[0].as_bytes());
        Ok(Some(out))
    }
}

#[test]
fn processor_chain_changes_the_body() {
    let calls = Arc::new(AtomicU32::new(0));
    let deceit = DeceitBuilder::with_uris(&["/p"])
        .add_processor(Processor::Embedded {
            id: "append".to_string(),
            args: vec!["_TAIL".to_string()],
        })
        .add_response(DeceitResponseBuilder::default().with_output("simple").build())
        .build();
    let mut state = ApateConfigBuilder::default()
        .register_processor(ApateProcessor::post("append", Box::new(Tail { calls: calls.clone() })))
        .add_deceit(deceit)
        .build()
        .into_state();
    let r = call(&mut state, "GET", "/p", "");
    assert_eq!((r.status, r.body), (200, b"simple_TAIL".to_vec()));
    assert_eq!(calls.load(Ordering::SeqCst), 1);
    let r = call(&mut state, "GET", "/p", "");
    assert_eq!((r.status, r.body), (200, b"simple_TAIL".to_vec()));
    assert_eq!(calls.load(Ordering::SeqCst), 2);
}

#[test]
fn status_from_the_template() {
    let deceit = DeceitBuilder::with_uris(&["/made"])
        .add_response(
            DeceitResponseBuilder::default()
                .with_output_type(OutputType::Jinja)
                .with_output("{% set done = force_response_code(201) %}created")
                .build(),
        )
        .build();
    assert!(deceit.responses[0].code.is_none());
    let mut state = ApateConfigBuilder::default().add_deceit(deceit).build().into_state();
    let r = call(&mut state, "POST", "/made", "");
    assert_eq!((r.status, r.body), (201, b"created".to_vec()));
}

#[test]
fn hot_swap() {
    let document = |path: &str| ApateSpecs {
        scripts: vec![],
        deceit: vec![DeceitBuilder::with_uris(&[path])
            .add_response(DeceitResponseBuilder::default().with_output(path).build())
            .build()],
    };
    let mut state = ApateConfigBuilder::default()
        .add_deceit(document("/a").deceit.remove(0))
        .build()
        .into_state();
    assert_eq!(call(&mut state, "GET", "/a", "").status, 200);
    assert_eq!(call(&mut state, "GET", "/b", "").status, 404);
    specification_replace(&mut state, document("/b")).unwrap();
    assert_eq!(call(&mut state, "GET", "/a", "").status, 404);
    let r = call(&mut state, "GET", "/b", "");
    assert_eq!((r.status, r.body), (200, b"/b".to_vec()));
}
