use openfang_adapters::discovery::{
    apply_n_ctx, parse_models, parse_ollama_context_window, parse_props_n_ctx, ListingFormat,
};
use openfang_adapters::json::{decode_json, Json};
use openfang_adapters::model_probe::{
    auth_header, chat_completions_url, completion_body, model_probe_outcome, model_probe_request,
    ModelProbeReply,
};
use openfang_adapters::probe_cache::{CachedProbe, ProbeCache};
use openfang_adapters::provider_health::{
    is_local_provider, names_local_provider, DiscoveredModel, ProbeResult, PROBE_CACHE_TTL_SECS,
    PROBE_CONNECT_TIMEOUT_SECS, PROBE_TIMEOUT_SECS,
};
use std::time::Duration;

fn parsed(text: &str) -> Json {
    decode_json(text.as_bytes()).unwrap()
}

fn llama3_result() -> ProbeResult {
    ProbeResult {
        reachable: true,
        latency_ms: 42,
        discovered_models: vec![DiscoveredModel {
            id: "llama3".into(),
            context_window: Some(4096),
        }],
        error: None,
    }
}

#[test]
fn test_is_local_provider_true_for_ollama() {
    assert!(is_local_provider("ollama"));
    assert!(is_local_provider("Ollama"));
    assert!(is_local_provider("OLLAMA"));
    assert!(is_local_provider("vllm"));
    assert!(is_local_provider("lmstudio"));
}

#[test]
fn test_is_local_provider_false_for_openai() {
    assert!(!is_local_provider("openai"));
    assert!(!is_local_provider("anthropic"));
    assert!(!is_local_provider("gemini"));
    assert!(!is_local_provider("groq"));
}

#[test]
fn local_names_are_lower_case() {
    assert!(names_local_provider("lmstudio"));
    assert!(!names_local_provider("LMStudio"));
    assert!(is_local_provider("LMStudio"));
    assert!(!is_local_provider(""));
    assert!(!is_local_provider("\u{130}ollama"));
}

#[test]
fn test_probe_result_default() {
    let result = ProbeResult::default();
    assert!(!result.reachable);
    assert_eq!(result.latency_ms, 0);
    assert!(result.discovered_models.is_empty());
    assert!(result.error.is_none());
}

#[test]
fn test_probe_timeout_value() {
    assert_eq!(PROBE_TIMEOUT_SECS, 2);
    assert_eq!(PROBE_CONNECT_TIMEOUT_SECS, 1);
}

#[test]
fn test_probe_model_url_construction() {
    let url = chat_completions_url("http://localhost:8000/v1");
    assert_eq!(url, "http://localhost:8000/v1/chat/completions");

    let url2 = chat_completions_url("http://localhost:8000/v1/");
    assert_eq!(url2, "http://localhost:8000/v1/chat/completions");
}

#[test]
fn test_probe_cache_miss_returns_none() {
    let mut cache = ProbeCache::new();
    assert!(cache.get("ollama").is_none());
}

#[test]
fn test_probe_cache_hit_returns_result() {
    let mut cache = ProbeCache::new();
    let result = llama3_result();
    cache.insert("ollama", result.clone());
    let cached = cache.get("ollama").expect("should be cached");
    assert!(cached.reachable);
    assert_eq!(cached.latency_ms, 42);
    assert_eq!(cached.discovered_models.len(), 1);
    assert_eq!(cached.discovered_models[0].id, "llama3");
    assert_eq!(cached.discovered_models[0].context_window, Some(4096));
}

#[test]
fn test_probe_cache_default() {
    let mut cache = ProbeCache::default();
    assert!(cache.get("anything").is_none());
    assert_eq!(
        Duration::from_secs(cache.ttl_secs()),
        Duration::from_secs(PROBE_CACHE_TTL_SECS)
    );
    assert_eq!(PROBE_CACHE_TTL_SECS, 60);
}

#[test]
fn test_probe_result_model_ids() {
    let result = ProbeResult {
        reachable: true,
        latency_ms: 10,
        discovered_models: vec![
            DiscoveredModel { id: "a".into(), context_window: Some(4096) },
            DiscoveredModel { id: "b".into(), context_window: None },
        ],
        error: None,
    };
    assert_eq!(result.model_ids(), vec!["a".to_string(), "b".to_string()]);
}

#[test]
fn cache_entries_expire() {
    let mut cache = ProbeCache::new();
    let second: u128 = 1_000_000_000;
    cache.insert_at("ollama", llama3_result(), 5 * second);
    assert!(cache.get_at("ollama", 65 * second - 1).is_some());
    assert!(cache.get_at("vllm", 65 * second - 1).is_none());
    assert!(cache.get_at("ollama", 65 * second).is_none());
    // The expired entry is gone, also for an earlier moment.
    assert!(cache.get_at("ollama", 6 * second).is_none());
}

#[test]
fn cache_counts_the_time_since_it_was_made() {
    let hour: u128 = 3_600_000_000_000;
    let mut cache = ProbeCache::new();
    // Long after the present moment: of the age zero, so it is found now.
    cache.insert_at("ollama", llama3_result(), hour);
    assert!(cache.get("ollama").is_some());
    // Stored now, and an hour has passed.
    cache.insert("ollama", llama3_result());
    assert!(cache.get_at("ollama", hour).is_none());
}

#[test]
fn cache_keeps_the_last_result_of_each_name() {
    let mut cache = ProbeCache::new();
    cache.insert_at("ollama", llama3_result(), 0);
    cache.insert_at("vllm", ProbeResult::default(), 1);
    let mut newer = llama3_result();
    newer.latency_ms = 7;
    cache.insert_at("ollama", newer, 2);
    assert_eq!(cache.get_at("ollama", 3).unwrap().latency_ms, 7);
    assert!(!cache.get_at("vllm", 3).unwrap().reachable);
    // An entry from a later moment has the age zero.
    assert_eq!(cache.get_at("ollama", 0).unwrap().latency_ms, 7);
}

#[test]
fn cached_probe_is_remembered() {
    let mut cache = ProbeCache::new();
    assert!(matches!(cache.begin_probe("Ollama", "http://localhost:11434/v1"), CachedProbe::Miss(_)));
    let result = cache.finish_probe("Ollama", llama3_result());
    assert_eq!(result.latency_ms, 42);
    match cache.begin_probe("Ollama", "http://elsewhere/v1") {
        CachedProbe::Hit(cached) => assert_eq!(cached.model_ids(), vec!["llama3".to_string()]),
        CachedProbe::Miss(_) => panic!("should be cached"),
    }
    // The name is taken as it is written.
    assert!(matches!(cache.begin_probe("ollama", "http://localhost:11434/v1"), CachedProbe::Miss(_)));
}

#[test]
fn test_parse_ollama_num_ctx_from_parameters() {
    let json = Json::object().with(
        "parameters",
        Json::text("num_ctx                        4096\ntemperature                    0.7"),
    );
    assert_eq!(parse_ollama_context_window(&json), Some(4096));
}

#[test]
fn test_parse_ollama_context_length_fallback() {
    let json = Json::object().with(
        "model_info",
        Json::object().with("qwen2.context_length", Json::integer(32768)),
    );
    assert_eq!(parse_ollama_context_window(&json), Some(32768));
}

#[test]
fn test_parse_ollama_num_ctx_takes_priority() {
    let json = Json::object().with("parameters", Json::text("num_ctx 4096")).with(
        "model_info",
        Json::object().with("llama.context_length", Json::integer(131072)),
    );
    // num_ctx (runtime) takes priority over model_info (theoretical max)
    assert_eq!(parse_ollama_context_window(&json), Some(4096));
}

#[test]
fn test_parse_ollama_no_context_info() {
    let json = Json::object().with("parameters", Json::text("temperature 0.7"));
    assert_eq!(parse_ollama_context_window(&json), None);
}

#[test]
fn test_parse_ollama_empty_response() {
    let json = Json::object();
    assert_eq!(parse_ollama_context_window(&json), None);
}

#[test]
fn context_window_from_raw_documents() {
    let window = |text: &str| parse_ollama_context_window(&parsed(text));
    assert_eq!(window(r#"{"parameters": "stop \"x\"\r\n\tnum_ctx +8192 \r\nnum_ctx 1"}"#), Some(8192));
    assert_eq!(window(r#"{"parameters": "num_ctx many\nnum_ctx 2048"}"#), Some(2048));
    assert_eq!(window(r#"{"parameters": "num_ctx", "model_info": {"a.context_length": 5}}"#), Some(5));
    assert_eq!(window(r#"{"parameters": "num_ctx_extra 77"}"#), None);
    assert_eq!(
        window(r#"{"parameters": "num_ctx_train 512", "model_info": {"llama.context_length": 4096}}"#),
        Some(4096)
    );
    assert_eq!(window(r#"{"parameters": "num_ctx_train 512\nnum_ctx 2048"}"#), Some(2048));
    assert_eq!(window(r#"{"parameters": "num_ctx 18446744073709551616"}"#), None);
    assert_eq!(
        window(r#"{"model_info": {"a.context_length": -1, "b.context_length": 2.5, "c.context_length": 9}}"#),
        Some(9)
    );
    assert_eq!(window(r#"{"parameters": 4096, "model_info": [1]}"#), None);
    assert_eq!(window("null"), None);
}

#[test]
fn props_from_raw_documents() {
    let n_ctx = |text: &str| parse_props_n_ctx(&parsed(text));
    assert_eq!(n_ctx(r#"{"default_generation_settings": {"n_ctx": 16384}}"#), Some(16384));
    assert_eq!(n_ctx(r#"{"default_generation_settings": {"n_ctx": -1}}"#), None);
    assert_eq!(n_ctx(r#"{"n_ctx": 16384}"#), None);
}

#[test]
fn listings_from_raw_documents() {
    let openai = parsed(
        r#"{"data": [{"id": "m1", "meta": {"n_ctx_train": 4096}}, {"name": "x"}, {"id": 3}, {"id": "m2"}]}"#,
    );
    let models = parse_models(&openai, ListingFormat::OpenAi);
    assert_eq!(models.len(), 2);
    assert_eq!((models[0].id.as_str(), models[0].context_window), ("m1", Some(4096)));
    assert_eq!((models[1].id.as_str(), models[1].context_window), ("m2", None));
    assert!(parse_models(&openai, ListingFormat::Ollama).is_empty());

    let ollama = parsed(r#"{"models": [{"name": "llama3:latest", "size": 1}, 7, {"name": "phi"}]}"#);
    let models = parse_models(&ollama, ListingFormat::Ollama);
    let ids: Vec<&str> = models.iter().map(|m| m.id.as_str()).collect();
    assert_eq!(ids, vec!["llama3:latest", "phi"]);
    assert!(models.iter().all(|m| m.context_window.is_none()));
    assert!(parse_models(&parsed("[1]"), ListingFormat::OpenAi).is_empty());
}

#[test]
fn server_wide_window_applies_to_all_models() {
    let model = |w: Option<u64>| DiscoveredModel { id: "m".into(), context_window: w };
    let models = apply_n_ctx(vec![model(None), model(Some(0)), model(Some(100)), model(Some(9999))], 4096);
    let windows: Vec<Option<u64>> = models.iter().map(|m| m.context_window).collect();
    assert_eq!(windows, vec![Some(4096), Some(4096), Some(100), Some(4096)]);
}

#[test]
fn model_probe_requests() {
    let request = model_probe_request("OpenAI", "http://h/v1//", "gpt", Some("secret"));
    assert_eq!(request.url, "http://h/v1/chat/completions");
    assert_eq!(
        request.header,
        Some(("Authorization".to_string(), "Bearer secret".to_string()))
    );
    assert_eq!(
        request.body,
        parsed(
            r#"{"model": "gpt", "messages": [{"role": "user", "content": "Hi"}], "max_tokens": 1, "temperature": 0.0}"#
        )
    );
    assert_eq!(request.body, completion_body("gpt"));

    let gemini = model_probe_request("Gemini", "http://h", "m", Some("k"));
    assert_eq!(gemini.header, Some(("x-goog-api-key".to_string(), "k".to_string())));
    assert!(model_probe_request("gemini", "http://h", "m", None).header.is_none());
    assert_eq!(auth_header("Gemini", "k").0, "Authorization");
}

#[test]
fn model_probe_outcomes() {
    let response = |status: u16| ModelProbeReply::Response {
        status,
        elapsed_ms: 17,
        excerpt: "no such model".to_string(),
    };
    assert_eq!(model_probe_outcome(response(200)), Ok(17));
    assert_eq!(model_probe_outcome(response(299)), Ok(17));
    assert_eq!(
        model_probe_outcome(response(404)),
        Err("HTTP 404: no such model".to_string())
    );
    assert_eq!(
        model_probe_outcome(response(300)),
        Err("HTTP 300: no such model".to_string())
    );
    assert_eq!(
        model_probe_outcome(ModelProbeReply::Failed("connection refused".to_string())),
        Err("connection refused".to_string())
    );
    assert_eq!(
        model_probe_outcome(ModelProbeReply::ClientFailed("no TLS".to_string())),
        Err("HTTP client error: no TLS".to_string())
    );
}
