//! Probing one model: a minimal completion request, and what its outcome tells.
use vstd::prelude::*;
use vstd::string::*;

use crate::json::{json_views, lemma_array_view, Json, JsonNumber, JsonNumberView, JsonView};
use crate::probe::{is_success_status, success_status};
use crate::text::{decimal, end_trimmed, joined, lowercase, same_text, trim_end_char, u64_text};

verus! {

/// Overall timeout of a model probe, in seconds.
pub const MODEL_PROBE_TIMEOUT_SECS: u64 = 10;

/// How much of the body of a response that is no success an error message quotes.
pub const MODEL_PROBE_EXCERPT_LEN: usize = 200;

/// The request of a model probe: the JSON document to post, where to, and the header that
/// carries the key, if there is one.
#[derive(Debug)]
pub struct ModelProbeRequest {
    pub url: String,
    pub body: Json,
    pub header: Option<(String, String)>,
}

/// What the request of a model probe is.
pub struct ModelProbeRequestView {
    pub url: Seq<char>,
    pub body: JsonView,
    pub header: Option<(Seq<char>, Seq<char>)>,
}

/// How a model probe went: no HTTP client could be built, no response came, or one came
/// after `elapsed_ms` milliseconds; `excerpt` is then the beginning of the body of one that
/// is no success.
#[derive(Debug)]
pub enum ModelProbeReply {
    ClientFailed(String),
    Failed(String),
    Response { status: u16, elapsed_ms: u128, excerpt: String },
}

/// What an optional header is.
pub open spec fn header_view(header: Option<(String, String)>) -> Option<(Seq<char>, Seq<char>)> {
    match header {
        Some((name, value)) => Some((name@, value@)),
        None => None,
    }
}

impl View for ModelProbeRequest {
    type V = ModelProbeRequestView;

    open spec fn view(&self) -> ModelProbeRequestView {
        ModelProbeRequestView {
            url: self.url@,
            body: self.body@,
            header: header_view(self.header),
        }
    }
}

/// Where completion requests go.
pub open spec fn completions_url(base_url: Seq<char>) -> Seq<char> {
    end_trimmed(base_url, '/') + "/chat/completions"@
}

/// The smallest completion request: one word from the user, one token back.
pub open spec fn minimal_completion(model: Seq<char>) -> JsonView {
    JsonView::Object(
        seq![
            ("max_tokens"@, JsonView::Number(JsonNumberView::PosInt(1))),
            (
                "messages"@,
                JsonView::Array(
                    seq![
                        JsonView::Object(
                            seq![
                                ("content"@, JsonView::Str("Hi"@)),
                                ("role"@, JsonView::Str("user"@)),
                            ],
                        ),
                    ],
                ),
            ),
            ("model"@, JsonView::Str(model)),
            ("temperature"@, JsonView::Number(JsonNumberView::Float("0.0"@))),
        ],
    )
}

/// The header that carries `key` to the provider with the lower-case name `lower`.
pub open spec fn key_header(lower: Seq<char>, key: Seq<char>) -> (Seq<char>, Seq<char>) {
    if lower == "gemini"@ {
        ("x-goog-api-key"@, key)
    } else {
        ("Authorization"@, "Bearer "@ + key)
    }
}

/// The request that probes `model` at the provider with the lower-case name `lower`.
pub open spec fn model_request(
    lower: Seq<char>,
    base_url: Seq<char>,
    model: Seq<char>,
    api_key: Option<&str>,
) -> ModelProbeRequestView {
    ModelProbeRequestView {
        url: completions_url(base_url),
        body: minimal_completion(model),
        header: match api_key {
            Some(key) => Some(key_header(lower, key@)),
            None => None,
        },
    }
}

/// What a model probe comes to: the latency in milliseconds, or a message why it failed.
pub open spec fn model_outcome(reply: ModelProbeReply) -> Result<u64, Seq<char>> {
    match reply {
        ModelProbeReply::ClientFailed(message) => Err("HTTP client error: "@ + message@),
        ModelProbeReply::Failed(message) => Err(message@),
        ModelProbeReply::Response { status, elapsed_ms, excerpt } => if is_success_status(status) {
            Ok(elapsed_ms as u64)
        } else {
            Err("HTTP "@ + decimal(status as nat) + ": "@ + excerpt@)
        },
    }
}

/// Slashes at the end of the base URL make no difference to where completion requests go.
pub proof fn law_completions_url_ignores_slashes(base_url: Seq<char>)
    ensures
        completions_url(base_url.push('/')) == completions_url(base_url),
{
    assert(base_url.push('/').drop_last() =~= base_url);
}

/// Where completion requests go.
pub fn chat_completions_url(base_url: &str) -> (r: String)
    ensures
        r@ == completions_url(base_url@),
{
    joined(trim_end_char(base_url, '/'), "/chat/completions")
}

/// The smallest completion request for `model`.
pub fn completion_body(model: &str) -> (r: Json)
    ensures
        r@ == minimal_completion(model@),
{
    broadcast use lemma_array_view;

    let message = Json::object().with("content", Json::text("Hi")).with(
        "role",
        Json::text("user"),
    );
    assert(message@->Object_0 =~= seq![
        ("content"@, JsonView::Str("Hi"@)),
        ("role"@, JsonView::Str("user"@)),
    ]);
    let mut list: Vec<Json> = Vec::new();
    list.push(message);
    assert(json_views(list@) =~= seq![message@]);
    let messages = Json::Array(list);
    let temperature = Json::Number(JsonNumber::Float("0.0".to_owned()));
    let body = Json::object().with("max_tokens", Json::integer(1)).with("messages", messages).with(
        "model",
        Json::text(model),
    ).with("temperature", temperature);
    assert(body@->Object_0 =~= minimal_completion(model@)->Object_0);
    body
}

/// The header that carries `key` to the provider with the lower-case name `lower`.
pub fn auth_header(lower: &str, key: &str) -> (r: (String, String))
    ensures
        (r.0@, r.1@) == key_header(lower@, key@),
{
    if same_text(lower, "gemini") {
        ("x-goog-api-key".to_owned(), key.to_owned())
    } else {
        ("Authorization".to_owned(), joined("Bearer ", key))
    }
}

/// The request that probes `model` at `provider`: a tiny prompt that shows whether the model
/// can generate completions.
pub fn model_probe_request(
    provider: &str,
    base_url: &str,
    model: &str,
    api_key: Option<&str>,
) -> (r: ModelProbeRequest)
    ensures
        r@ == model_request(lowercase(provider@), base_url@, model@, api_key),
{
    let header = match api_key {
        Some(key) => Some(auth_header(provider.to_lowercase().as_str(), key)),
        None => None,
    };
    ModelProbeRequest {
        url: chat_completions_url(base_url),
        body: completion_body(model),
        header,
    }
}

/// What a model probe comes to: `Ok` with the latency in milliseconds where the model
/// responds, or `Err` with a message where it fails.
pub fn model_probe_outcome(reply: ModelProbeReply) -> (r: Result<u64, String>)
    ensures
        match r {
            Ok(latency_ms) => model_outcome(reply) == Ok::<u64, Seq<char>>(latency_ms),
            Err(message) => model_outcome(reply) == Err::<u64, Seq<char>>(message@),
        },
{
    match reply {
        ModelProbeReply::ClientFailed(message) => Err(
            joined("HTTP client error: ", message.as_str()),
        ),
        ModelProbeReply::Failed(message) => Err(message),
        ModelProbeReply::Response { status, elapsed_ms, excerpt } => if success_status(status) {
            #[verifier::truncate]
            let latency_ms: u64 = elapsed_ms as u64;
            Ok(latency_ms)
        } else {
            let code = u64_text(status as u64);
            Err(joined("HTTP ", code.as_str()).concat(": ").concat(excerpt.as_str()))
        },
    }
}

} // verus!
