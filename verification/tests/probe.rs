use openfang_adapters::json::Json;
use openfang_adapters::probe::{
    client_failure, read_reply, success_status, HttpReply, HttpResponse, ProbeReply, ProbeRequest,
    ProbeSession, ProbeStep,
};
use openfang_adapters::provider_health::ProbeResult;

fn ok(body: &str) -> HttpReply {
    HttpReply::Response(HttpResponse {
        status: 200,
        status_text: "200 OK".to_string(),
        body: Some(body.as_bytes().to_vec()),
    })
}

fn not_found() -> HttpReply {
    HttpReply::Response(HttpResponse {
        status: 404,
        status_text: "404 Not Found".to_string(),
        body: None,
    })
}

fn failed(message: &str) -> HttpReply {
    HttpReply::Failed(message.to_string())
}

/// Runs a probe against canned replies and gives its result and the requests it made.
fn probe(provider: &str, base_url: &str, replies: Vec<HttpReply>) -> (ProbeResult, Vec<String>) {
    let mut step = ProbeSession::begin(provider, base_url);
    let mut requests: Vec<String> = Vec::new();
    let mut replies = replies.into_iter();
    let mut elapsed: u128 = 0;
    loop {
        match step {
            ProbeStep::Done(result) => {
                assert!(replies.next().is_none());
                return (result, requests);
            }
            ProbeStep::Request(session, request) => {
                requests.push(match &request {
                    ProbeRequest::Get { url } => url.clone(),
                    ProbeRequest::Post { url, body } => {
                        format!("{} {}", url, body.at("name").as_str().unwrap())
                    }
                });
                elapsed += 10;
                step = session.resume(replies.next().unwrap(), elapsed);
            }
        }
    }
}

fn windows(result: &ProbeResult) -> Vec<(String, Option<u64>)> {
    result.discovered_models.iter().map(|m| (m.id.clone(), m.context_window)).collect()
}

#[test]
fn unreachable_provider_gives_an_error() {
    let (result, requests) =
        probe("ollama", "http://127.0.0.1:19999", vec![failed("timeout"), failed("refused")]);
    assert!(!result.reachable);
    assert_eq!(result.error.as_deref(), Some("refused"));
    assert_eq!(
        requests,
        vec!["http://127.0.0.1:19999/api/tags", "http://127.0.0.1:19999/api/ps"]
    );
    let (result, requests) = probe("vllm", "http://127.0.0.1:19999/v1/", vec![failed("refused")]);
    assert!(!result.reachable);
    assert_eq!(result.latency_ms, 10);
    assert_eq!(result.error.as_deref(), Some("refused"));
    assert_eq!(requests, vec!["http://127.0.0.1:19999/v1/models"]);
}

#[test]
fn openai_listing_is_the_result() {
    let body = r#"{"data": [{"id": "m", "meta": {"n_ctx_train": 4096}}]}"#;
    let (result, requests) = probe("LMStudio", "http://h/v1", vec![ok(body)]);
    assert!(result.reachable);
    assert_eq!(result.latency_ms, 10);
    assert_eq!(windows(&result), vec![("m".to_string(), Some(4096))]);
    assert!(result.error.is_none());
    assert_eq!(requests, vec!["http://h/v1/models"]);

    let (result, _) = probe("vllm", "http://h/v1", vec![not_found()]);
    assert!(!result.reachable);
    assert_eq!(result.error.as_deref(), Some("HTTP 404 Not Found"));
}

#[test]
fn ollama_models_are_asked_about_one_by_one() {
    let (result, requests) = probe(
        "Ollama",
        "http://localhost:11434/v1",
        vec![
            ok(r#"{"models": [{"name": "a"}, {"name": "b"}, {"name": "c"}]}"#),
            not_found(),
            ok(r#"{"parameters": "num_ctx 4096"}"#),
            failed("timeout"),
            ok(r#"{"model_info": {"x.context_length": 32768}}"#),
        ],
    );
    assert!(result.reachable);
    assert_eq!(result.latency_ms, 10);
    assert_eq!(
        windows(&result),
        vec![
            ("a".to_string(), Some(4096)),
            ("b".to_string(), None),
            ("c".to_string(), Some(32768)),
        ]
    );
    assert_eq!(
        requests,
        vec![
            "http://localhost:11434/api/tags",
            "http://localhost:11434/props",
            "http://localhost:11434/api/show a",
            "http://localhost:11434/api/show b",
            "http://localhost:11434/api/show c",
        ]
    );
}

#[test]
fn llama_cpp_is_reached_over_the_fallbacks() {
    let (result, requests) = probe(
        "ollama",
        "http://h/v1/",
        vec![
            not_found(),
            not_found(),
            ok(r#"{"data": [{"id": "big", "meta": {"n_ctx_train": 131072}}, {"id": "new"}]}"#),
            ok(r#"{"default_generation_settings": {"n_ctx": 8192}}"#),
        ],
    );
    assert_eq!(result.latency_ms, 30);
    assert_eq!(
        windows(&result),
        vec![("big".to_string(), Some(8192)), ("new".to_string(), Some(8192))]
    );
    assert_eq!(
        requests,
        vec!["http://h/api/tags", "http://h/api/ps", "http://h/v1/models", "http://h/props"]
    );
}

#[test]
fn models_with_a_window_are_not_asked_about() {
    let (result, requests) = probe(
        "ollama",
        "http://h",
        vec![
            not_found(),
            not_found(),
            ok(r#"{"data": [{"id": "zero", "meta": {"n_ctx_train": 0}}, {"id": "none"}]}"#),
            ok("not json"),
            ok(r#"{"parameters": "num_ctx 12"}"#),
        ],
    );
    assert_eq!(
        windows(&result),
        vec![("zero".to_string(), Some(0)), ("none".to_string(), Some(12))]
    );
    assert_eq!(requests.last().unwrap(), "http://h/api/show none");
}

#[test]
fn all_ollama_endpoints_can_fail() {
    for last in [not_found(), failed("reset")] {
        let (result, _) = probe("ollama", "http://h", vec![not_found(), not_found(), last]);
        assert!(!result.reachable);
        assert_eq!(result.latency_ms, 30);
        assert_eq!(result.error.as_deref(), Some("All Ollama endpoints failed"));
        assert!(result.discovered_models.is_empty());
    }
}

#[test]
fn invalid_json_is_reachable_with_an_error() {
    let message = Some("Server responded but returned invalid JSON");
    let (result, _) = probe("vllm", "http://h", vec![ok("<html>")]);
    assert!(result.reachable);
    assert_eq!(result.error.as_deref(), message);
    for replies in [
        vec![not_found(), ok("[")],
        vec![failed("reset"), ok("[")],
        vec![ok("null"), not_found()],
        vec![ok("["), failed("reset")],
        vec![ok("["), ok("null")],
    ] {
        let (result, _) = probe("ollama", "http://h", replies);
        assert!(result.reachable);
        assert_eq!(result.latency_ms, 20);
        assert_eq!(result.error.as_deref(), message);
        assert!(result.discovered_models.is_empty());
    }
}

#[test]
fn without_a_success_the_provider_is_not_reachable() {
    for replies in [
        vec![not_found(), failed("connection refused")],
        vec![failed("connection refused"), not_found()],
    ] {
        let (result, requests) = probe("ollama", "http://h:1/v1", replies);
        assert!(!result.reachable);
        assert_eq!(result.latency_ms, 20);
        assert_eq!(result.error.as_deref(), Some("connection refused"));
        assert!(result.discovered_models.is_empty());
        assert_eq!(requests, vec!["http://h:1/api/tags", "http://h:1/api/ps"]);
    }
}

#[test]
fn ollama_models_come_from_its_tags() {
    let tags = r#"{"models": [{"name": "a:latest"}, {"name": "b"}]}"#;
    let (result, requests) = probe(
        "ollama",
        "http://h:1/v1",
        vec![ok(tags), not_found(), not_found(), not_found()],
    );
    assert!(result.reachable);
    assert!(result.error.is_none());
    assert_eq!(result.model_ids(), vec!["a:latest".to_string(), "b".to_string()]);
    assert!(!requests.contains(&"http://h:1/api/ps".to_string()));

    // An empty listing is a listing.
    let (result, requests) = probe("ollama", "http://h", vec![ok("{}"), not_found()]);
    assert!(result.reachable && result.error.is_none());
    assert!(result.discovered_models.is_empty());
    assert_eq!(requests, vec!["http://h/api/tags", "http://h/props"]);
}

#[test]
fn running_models_serve_where_there_are_no_tags() {
    for tags in [not_found(), failed("reset"), ok("[")] {
        let (result, requests) = probe(
            "ollama",
            "http://h",
            vec![tags, ok(r#"{"models": [{"name": "r"}]}"#), not_found(), not_found()],
        );
        assert!(result.reachable && result.error.is_none());
        assert_eq!(result.latency_ms, 20);
        assert_eq!(result.model_ids(), vec!["r".to_string()]);
        assert_eq!(requests[1], "http://h/api/ps");
    }
}

#[test]
fn equal_models_are_asked_about_each() {
    let (result, _) = probe(
        "ollama",
        "http://h",
        vec![
            ok(r#"{"models": [{"name": "m"}, {"name": "m"}]}"#),
            not_found(),
            ok(r#"{"parameters": "num_ctx 1"}"#),
            ok(r#"{"parameters": "num_ctx 2"}"#),
        ],
    );
    assert_eq!(windows(&result), vec![("m".to_string(), Some(1)), ("m".to_string(), Some(2))]);
}

#[test]
fn base_urls_lose_their_version() {
    let root = |base_url: &str| match ProbeSession::begin_lower("ollama", base_url) {
        ProbeStep::Request(session, _) => session.root,
        ProbeStep::Done(_) => panic!("a probe begins with a request"),
    };
    for base_url in ["http://h", "http://h/", "http://h/v1", "http://h/v1/", "http://h/v1///"] {
        assert_eq!(root(base_url), "http://h");
    }
    for base_url in ["http://h/v1/v1", "http://h/v1//v1", "http://h/v2", "", "//", "/v1", "é/v1"] {
        let expected = base_url
            .trim_end_matches('/')
            .trim_end_matches("/v1")
            .trim_end_matches("/v1/");
        assert_eq!(root(base_url), expected);
    }
}

#[test]
fn latency_is_cut_to_64_bits() {
    match ProbeSession::begin("vllm", "http://h") {
        ProbeStep::Request(session, _) => {
            match session.resume(failed("late"), (1u128 << 64) + 5) {
                ProbeStep::Done(result) => assert_eq!(result.latency_ms, 5),
                ProbeStep::Request(..) => panic!("the probe is over"),
            }
        }
        ProbeStep::Done(_) => panic!("a probe begins with a request"),
    }
}

#[test]
fn replies_are_read() {
    assert!(success_status(200) && success_status(204) && success_status(299));
    assert!(!success_status(199) && !success_status(300) && !success_status(500));
    assert!(matches!(read_reply(failed("x")), ProbeReply::Failed(m) if m == "x"));
    assert!(matches!(read_reply(not_found()), ProbeReply::Refused(s) if s == "404 Not Found"));
    assert!(matches!(read_reply(ok("[true]")), ProbeReply::Accepted(j) if j == Json::Array(vec![Json::Bool(true)])));
    assert!(matches!(read_reply(ok("[true")), ProbeReply::Accepted(Json::Null)));
    let empty = HttpReply::Response(HttpResponse {
        status: 200,
        status_text: "200 OK".to_string(),
        body: None,
    });
    assert!(matches!(read_reply(empty), ProbeReply::Accepted(Json::Null)));
    let failure = client_failure("no TLS");
    assert!(!failure.reachable);
    assert_eq!(failure.error.as_deref(), Some("Failed to build HTTP client: no TLS"));
}
