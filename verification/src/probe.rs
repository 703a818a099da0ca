//! Probing a provider: which requests are sent, one after the other, and what their answers
//! amount to.
//!
//! The requests themselves are made elsewhere. A [`ProbeSession`] says which one comes next
//! and takes in how it went.
use vstd::prelude::*;
use vstd::string::*;

use crate::discovery::{
    apply_n_ctx, capped_models, listed_models, parse_models, parse_ollama_context_window,
    parse_props_n_ctx, props_window, shown_window, ListingFormat,
};
use crate::json::{decode_json, parsed_json, Json, JsonView};
use crate::provider_health::{
    model_views, DiscoveredModel, ModelView, ProbeResult, ProbeResultView,
};
use crate::text::{
    end_trimmed, end_trimmed_of, joined, lowercase, same_text, trim_end_char, trim_end_str,
};

verus! {

/// A response as it came over the wire: the status code, the status as text, and the body,
/// where it was read and could be.
#[derive(Debug)]
pub struct HttpResponse {
    pub status: u16,
    pub status_text: String,
    pub body: Option<Vec<u8>>,
}

/// How a request went: it failed with a message, or a response came.
#[derive(Debug)]
pub enum HttpReply {
    Failed(String),
    Response(HttpResponse),
}

/// How a request went, as far as a probe cares: no response, a response that is no success,
/// with its status as text, or a success with the document that came.
#[derive(Debug)]
pub enum ProbeReply {
    Failed(String),
    Refused(String),
    Accepted(Json),
}

/// What a reply is.
pub enum ReplyView {
    Failed(Seq<char>),
    Refused(Seq<char>),
    Accepted(JsonView),
}

/// A request to make: fetch `url`, or post `body` to it.
#[derive(Debug)]
pub enum ProbeRequest {
    Get { url: String },
    Post { url: String, body: Json },
}

/// What a request is.
pub enum RequestView {
    Get { url: Seq<char> },
    Post { url: Seq<char>, body: JsonView },
}

/// How the request for `/api/tags` went where it gave no listing: no response, with a message
/// why, a response that is no success, or a success without a JSON document.
#[derive(Debug)]
pub enum TagsReply {
    Failed(String),
    Refused,
    Invalid,
}

/// What such a reply is.
pub enum TagsReplyView {
    Failed(Seq<char>),
    Refused,
    Invalid,
}

/// The request whose reply a session waits for.
#[derive(Debug)]
pub enum ProbePhase {
    /// Ollama's models, `/api/tags`.
    Tags,
    /// Ollama's running models, `/api/ps`, where `/api/tags` gave no listing.
    Running(TagsReply),
    /// The OpenAI-compatible listing of a provider that is configured as Ollama.
    Fallback,
    /// The OpenAI-compatible listing of any other provider.
    Models,
    /// llama.cpp's `/props`.
    Props,
    /// Ollama's `/api/show` for the model with this index.
    Show(usize),
}

/// What a phase is.
pub enum PhaseView {
    Tags,
    Running(TagsReplyView),
    Fallback,
    Models,
    Props,
    Show(int),
}

/// A probe under way.
#[derive(Debug)]
pub struct ProbeSession {
    /// The base URL without its `/v1`.
    pub root: String,
    /// The base URL without the slashes at its end.
    pub base: String,
    pub phase: ProbePhase,
    /// The models found so far.
    pub models: Vec<DiscoveredModel>,
    /// How long the listing took.
    pub latency_ms: u64,
}

/// What a probe under way is.
pub struct SessionView {
    pub root: Seq<char>,
    pub base: Seq<char>,
    pub phase: PhaseView,
    pub models: Seq<ModelView>,
    pub latency_ms: u64,
}

/// What is to be done next: make a request and hand its reply to the session, or nothing,
/// because the result is there.
#[derive(Debug)]
pub enum ProbeStep {
    Request(ProbeSession, ProbeRequest),
    Done(ProbeResult),
}

/// What a step is.
pub enum StepView {
    Request(SessionView, RequestView),
    Done(ProbeResultView),
}

impl View for ProbeReply {
    type V = ReplyView;

    open spec fn view(&self) -> ReplyView {
        match self {
            ProbeReply::Failed(message) => ReplyView::Failed(message@),
            ProbeReply::Refused(status) => ReplyView::Refused(status@),
            ProbeReply::Accepted(body) => ReplyView::Accepted(body@),
        }
    }
}

impl View for ProbeRequest {
    type V = RequestView;

    open spec fn view(&self) -> RequestView {
        match self {
            ProbeRequest::Get { url } => RequestView::Get { url: url@ },
            ProbeRequest::Post { url, body } => RequestView::Post { url: url@, body: body@ },
        }
    }
}

impl View for TagsReply {
    type V = TagsReplyView;

    open spec fn view(&self) -> TagsReplyView {
        match self {
            TagsReply::Failed(message) => TagsReplyView::Failed(message@),
            TagsReply::Refused => TagsReplyView::Refused,
            TagsReply::Invalid => TagsReplyView::Invalid,
        }
    }
}

impl View for ProbePhase {
    type V = PhaseView;

    open spec fn view(&self) -> PhaseView {
        match self {
            ProbePhase::Tags => PhaseView::Tags,
            ProbePhase::Running(tags) => PhaseView::Running(tags@),
            ProbePhase::Fallback => PhaseView::Fallback,
            ProbePhase::Models => PhaseView::Models,
            ProbePhase::Props => PhaseView::Props,
            ProbePhase::Show(i) => PhaseView::Show(*i as int),
        }
    }
}

impl View for ProbeSession {
    type V = SessionView;

    open spec fn view(&self) -> SessionView {
        SessionView {
            root: self.root@,
            base: self.base@,
            phase: self.phase@,
            models: model_views(self.models@),
            latency_ms: self.latency_ms,
        }
    }
}

impl View for ProbeStep {
    type V = StepView;

    open spec fn view(&self) -> StepView {
        match self {
            ProbeStep::Request(session, request) => StepView::Request(session@, request@),
            ProbeStep::Done(result) => StepView::Done(result@),
        }
    }
}

/// Whether an HTTP status code tells of success.
pub open spec fn is_success_status(status: u16) -> bool {
    200 <= status < 300
}

/// The document in a body; null where there is no body or it holds no document.
pub open spec fn document_of(body: Option<Vec<u8>>) -> JsonView {
    match body {
        Some(bytes) => match parsed_json(bytes@) {
            Ok(json) => json,
            Err(_) => JsonView::Null,
        },
        None => JsonView::Null,
    }
}

/// What a probe sees of how a request went.
pub open spec fn reply_seen(reply: HttpReply) -> ReplyView {
    match reply {
        HttpReply::Failed(message) => ReplyView::Failed(message@),
        HttpReply::Response(response) => if is_success_status(response.status) {
            ReplyView::Accepted(document_of(response.body))
        } else {
            ReplyView::Refused(response.status_text@)
        },
    }
}

/// The base URL without the slashes at its end.
pub open spec fn api_base(base_url: Seq<char>) -> Seq<char> {
    end_trimmed(base_url, '/')
}

/// The base URL without the slashes and the `/v1` at its end.
pub open spec fn api_root(base_url: Seq<char>) -> Seq<char> {
    end_trimmed_of(end_trimmed_of(end_trimmed(base_url, '/'), "/v1"@), "/v1/"@)
}

/// A request that fetches `path` below `prefix`.
pub open spec fn get_below(prefix: Seq<char>, path: Seq<char>) -> RequestView {
    RequestView::Get { url: prefix + path }
}

/// The request that asks Ollama about the model `id`.
pub open spec fn show_request(root: Seq<char>, id: Seq<char>) -> RequestView {
    RequestView::Post {
        url: root + "/api/show"@,
        body: JsonView::Object(seq![("name"@, JsonView::Str(id))]),
    }
}

/// The step with which a probe of the provider with the lower-case name `lower` begins.
pub open spec fn first_step(lower: Seq<char>, base_url: Seq<char>) -> StepView {
    let session = SessionView {
        root: api_root(base_url),
        base: api_base(base_url),
        phase: PhaseView::Models,
        models: Seq::empty(),
        latency_ms: 0,
    };
    if lower == "ollama"@ {
        StepView::Request(
            SessionView { phase: PhaseView::Tags, ..session },
            get_below(session.root, "/api/tags"@),
        )
    } else {
        StepView::Request(session, get_below(session.base, "/models"@))
    }
}

impl ProbeResultView {
    /// The result of a probe whose listing was no JSON document.
    pub open spec fn invalid_listing(latency_ms: u64) -> ProbeResultView {
        ProbeResultView {
            reachable: true,
            latency_ms,
            discovered_models: Seq::empty(),
            error: Some("Server responded but returned invalid JSON"@),
        }
    }

    /// The result of a probe that found `models`.
    pub open spec fn success(latency_ms: u64, models: Seq<ModelView>) -> ProbeResultView {
        ProbeResultView { reachable: true, latency_ms, discovered_models: models, error: None }
    }
}

impl SessionView {
    /// Whether the session waits for a reply that it can use: the model that it asked about
    /// is there, and its context window is unknown.
    pub open spec fn wf(self) -> bool {
        match self.phase {
            PhaseView::Show(i) => 0 <= i < self.models.len() && self.models[i].context_window is None,
            _ => true,
        }
    }

    /// The step once the listing `body` has come: its models, and for Ollama a look at their
    /// context windows.
    pub open spec fn listed(
        self,
        body: JsonView,
        format: ListingFormat,
        ollama: bool,
        elapsed_ms: u128,
    ) -> StepView {
        let latency_ms = elapsed_ms as u64;
        if body == JsonView::Null {
            StepView::Done(ProbeResultView::invalid_listing(latency_ms))
        } else if ollama {
            StepView::Request(
                SessionView {
                    phase: PhaseView::Props,
                    models: listed_models(body, format),
                    latency_ms,
                    ..self
                },
                get_below(self.root, "/props"@),
            )
        } else {
            StepView::Done(ProbeResultView::success(latency_ms, listed_models(body, format)))
        }
    }

    /// The step once the context windows of the models before the index `from` are settled:
    /// the next model without one is asked about.
    pub open spec fn show_from(self, from: int) -> StepView
        decreases self.models.len() - from,
    {
        if from >= self.models.len() {
            StepView::Done(ProbeResultView::success(self.latency_ms, self.models))
        } else if self.models[from].context_window is None {
            StepView::Request(
                SessionView { phase: PhaseView::Show(from), ..self },
                show_request(self.root, self.models[from].id),
            )
        } else {
            self.show_from(from + 1)
        }
    }

    /// The session with `window` as the context window of the model with the index `i`.
    pub open spec fn with_window(self, i: int, window: Option<u64>) -> SessionView {
        if 0 <= i < self.models.len() {
            SessionView {
                models: self.models.update(
                    i,
                    ModelView { id: self.models[i].id, context_window: window },
                ),
                ..self
            }
        } else {
            self
        }
    }

    /// The step once `/api/tags` has given no listing: the running models are asked for.
    pub open spec fn without_tags(self, tags: TagsReplyView) -> StepView {
        StepView::Request(
            SessionView { phase: PhaseView::Running(tags), ..self },
            get_below(self.root, "/api/ps"@),
        )
    }

    /// The step that follows when `reply` has come after `elapsed_ms` milliseconds.
    pub open spec fn next(self, reply: ReplyView, elapsed_ms: u128) -> StepView {
        let latency_ms = elapsed_ms as u64;
        match self.phase {
            PhaseView::Tags => match reply {
                ReplyView::Failed(message) => self.without_tags(TagsReplyView::Failed(message)),
                ReplyView::Refused(_) => self.without_tags(TagsReplyView::Refused),
                ReplyView::Accepted(body) => if body == JsonView::Null {
                    self.without_tags(TagsReplyView::Invalid)
                } else {
                    self.listed(body, ListingFormat::Ollama, true, elapsed_ms)
                },
            },
            PhaseView::Running(tags) => match reply {
                ReplyView::Failed(message) => match tags {
                    TagsReplyView::Invalid => StepView::Done(
                        ProbeResultView::invalid_listing(latency_ms),
                    ),
                    _ => StepView::Done(ProbeResultView::failure(latency_ms, message)),
                },
                ReplyView::Refused(_) => match tags {
                    TagsReplyView::Failed(message) => StepView::Done(
                        ProbeResultView::failure(latency_ms, message),
                    ),
                    TagsReplyView::Refused => StepView::Request(
                        SessionView { phase: PhaseView::Fallback, ..self },
                        get_below(self.base, "/models"@),
                    ),
                    TagsReplyView::Invalid => StepView::Done(
                        ProbeResultView::invalid_listing(latency_ms),
                    ),
                },
                ReplyView::Accepted(body) => self.listed(
                    body,
                    ListingFormat::Ollama,
                    true,
                    elapsed_ms,
                ),
            },
            PhaseView::Fallback => match reply {
                ReplyView::Accepted(body) => self.listed(
                    body,
                    ListingFormat::OpenAi,
                    true,
                    elapsed_ms,
                ),
                _ => StepView::Done(
                    ProbeResultView::failure(latency_ms, "All Ollama endpoints failed"@),
                ),
            },
            PhaseView::Models => match reply {
                ReplyView::Failed(message) => StepView::Done(
                    ProbeResultView::failure(latency_ms, message),
                ),
                ReplyView::Refused(status) => StepView::Done(
                    ProbeResultView::failure(latency_ms, "HTTP "@ + status),
                ),
                ReplyView::Accepted(body) => self.listed(
                    body,
                    ListingFormat::OpenAi,
                    false,
                    elapsed_ms,
                ),
            },
            PhaseView::Props => match props_reply_window(reply) {
                Some(n_ctx) => StepView::Done(
                    ProbeResultView::success(self.latency_ms, capped_models(self.models, n_ctx)),
                ),
                None => self.show_from(0),
            },
            PhaseView::Show(i) => self.with_window(i, show_reply_window(reply)).show_from(i + 1),
        }
    }
}

/// The server-wide context window that a reply to the `/props` request tells.
pub open spec fn props_reply_window(reply: ReplyView) -> Option<u64> {
    match reply {
        ReplyView::Accepted(body) => props_window(body),
        _ => None,
    }
}

/// The context window that a reply to an `/api/show` request tells.
pub open spec fn show_reply_window(reply: ReplyView) -> Option<u64> {
    match reply {
        ReplyView::Accepted(body) => shown_window(body),
        _ => None,
    }
}

/// Whether an HTTP status code tells of success.
pub fn success_status(status: u16) -> (r: bool)
    ensures
        r == is_success_status(status),
{
    200 <= status && status < 300
}

/// What a probe sees of how a request went. The body of a success is read as JSON; null
/// stands for one that is missing or no JSON document.
pub fn read_reply(reply: HttpReply) -> (r: ProbeReply)
    ensures
        r@ == reply_seen(reply),
{
    match reply {
        HttpReply::Failed(message) => ProbeReply::Failed(message),
        HttpReply::Response(response) => if success_status(response.status) {
            let document = match &response.body {
                Some(bytes) => match decode_json(bytes.as_slice()) {
                    Ok(json) => json,
                    Err(_) => Json::Null,
                },
                None => Json::Null,
            };
            ProbeReply::Accepted(document)
        } else {
            ProbeReply::Refused(response.status_text)
        },
    }
}

/// The result of a probe for which no HTTP client could be built.
pub fn client_failure(message: &str) -> (r: ProbeResult)
    ensures
        r@ == ProbeResultView::failure(0, "Failed to build HTTP client: "@ + message@),
{
    ProbeResult::failure(0, joined("Failed to build HTTP client: ", message))
}

/// The result of a probe that found `models`.
fn success(latency_ms: u64, models: Vec<DiscoveredModel>) -> (r: ProbeResult)
    ensures
        r@ == ProbeResultView::success(latency_ms, model_views(models@)),
{
    ProbeResult { reachable: true, latency_ms, discovered_models: models, error: None }
}

/// The result of a probe whose listing was no JSON document.
fn invalid_listing(latency_ms: u64) -> (r: ProbeResult)
    ensures
        r@ == ProbeResultView::invalid_listing(latency_ms),
{
    let nothing = ProbeResult::default();
    ProbeResult {
        reachable: true,
        latency_ms,
        error: Some("Server responded but returned invalid JSON".to_owned()),
        ..nothing
    }
}

/// A request that fetches `path` below `prefix`.
fn fetch(prefix: &str, path: &str) -> (r: ProbeRequest)
    ensures
        r@ == get_below(prefix@, path@),
{
    ProbeRequest::Get { url: joined(prefix, path) }
}

impl ProbeSession {
    /// Begins to probe `provider`, whose base URL the catalog gives as `base_url`.
    pub fn begin(provider: &str, base_url: &str) -> (r: ProbeStep)
        ensures
            r@ == first_step(lowercase(provider@), base_url@),
    {
        ProbeSession::begin_lower(provider.to_lowercase().as_str(), base_url)
    }

    /// Begins to probe the provider with the lower-case name `lower`.
    pub fn begin_lower(lower: &str, base_url: &str) -> (r: ProbeStep)
        ensures
            r@ == first_step(lower@, base_url@),
    {
        let base = trim_end_char(base_url, '/');
        let root = trim_end_str(trim_end_str(base, "/v1"), "/v1/");
        let models: Vec<DiscoveredModel> = Vec::new();
        assert(model_views(models@) =~= Seq::empty());
        if same_text(lower, "ollama") {
            let request = fetch(root, "/api/tags");
            ProbeStep::Request(
                ProbeSession {
                    root: root.to_owned(),
                    base: base.to_owned(),
                    phase: ProbePhase::Tags,
                    models,
                    latency_ms: 0,
                },
                request,
            )
        } else {
            let request = fetch(base, "/models");
            ProbeStep::Request(
                ProbeSession {
                    root: root.to_owned(),
                    base: base.to_owned(),
                    phase: ProbePhase::Models,
                    models,
                    latency_ms: 0,
                },
                request,
            )
        }
    }

    /// Takes in how the last request went, `elapsed_ms` milliseconds after the start.
    pub fn resume(self, reply: HttpReply, elapsed_ms: u128) -> (r: ProbeStep)
        ensures
            r@ == self@.next(reply_seen(reply), elapsed_ms),
    {
        self.advance(read_reply(reply), elapsed_ms)
    }

    /// Takes in the reply to the last request, `elapsed_ms` milliseconds after the start.
    pub fn advance(self, reply: ProbeReply, elapsed_ms: u128) -> (r: ProbeStep)
        ensures
            r@ == self@.next(reply@, elapsed_ms),
    {
        #[verifier::truncate]
        let latency_ms: u64 = elapsed_ms as u64;
        match self.phase {
            ProbePhase::Tags => match reply {
                ProbeReply::Failed(message) => self.ask_running(TagsReply::Failed(message)),
                ProbeReply::Refused(_) => self.ask_running(TagsReply::Refused),
                ProbeReply::Accepted(body) => if body.is_null() {
                    self.ask_running(TagsReply::Invalid)
                } else {
                    self.listing(body, ListingFormat::Ollama, true, elapsed_ms)
                },
            },
            ProbePhase::Running(tags) => {
                let session = ProbeSession { phase: ProbePhase::Fallback, ..self };
                match reply {
                    ProbeReply::Failed(message) => match tags {
                        TagsReply::Invalid => ProbeStep::Done(invalid_listing(latency_ms)),
                        _ => ProbeStep::Done(ProbeResult::failure(latency_ms, message)),
                    },
                    ProbeReply::Refused(_) => match tags {
                        TagsReply::Failed(message) => ProbeStep::Done(
                            ProbeResult::failure(latency_ms, message),
                        ),
                        TagsReply::Refused => {
                            let request = fetch(session.base.as_str(), "/models");
                            ProbeStep::Request(session, request)
                        },
                        TagsReply::Invalid => ProbeStep::Done(invalid_listing(latency_ms)),
                    },
                    ProbeReply::Accepted(body) => session.listing(
                        body,
                        ListingFormat::Ollama,
                        true,
                        elapsed_ms,
                    ),
                }
            },
            ProbePhase::Fallback => match reply {
                ProbeReply::Accepted(body) => self.listing(
                    body,
                    ListingFormat::OpenAi,
                    true,
                    elapsed_ms,
                ),
                _ => ProbeStep::Done(
                    ProbeResult::failure(latency_ms, "All Ollama endpoints failed".to_owned()),
                ),
            },
            ProbePhase::Models => match reply {
                ProbeReply::Failed(message) => ProbeStep::Done(
                    ProbeResult::failure(latency_ms, message),
                ),
                ProbeReply::Refused(status) => ProbeStep::Done(
                    ProbeResult::failure(latency_ms, joined("HTTP ", status.as_str())),
                ),
                ProbeReply::Accepted(body) => self.listing(
                    body,
                    ListingFormat::OpenAi,
                    false,
                    elapsed_ms,
                ),
            },
            ProbePhase::Props => {
                let window = match &reply {
                    ProbeReply::Accepted(body) => parse_props_n_ctx(body),
                    _ => None,
                };
                match window {
                    Some(n_ctx) => ProbeStep::Done(
                        success(self.latency_ms, apply_n_ctx(self.models, n_ctx)),
                    ),
                    None => self.show_next(0),
                }
            },
            ProbePhase::Show(i) => {
                let window = match &reply {
                    ProbeReply::Accepted(body) => parse_ollama_context_window(body),
                    _ => None,
                };
                let session = self.windowed(i, window);
                if i < session.models.len() {
                    session.show_next(i + 1)
                } else {
                    ProbeStep::Done(success(session.latency_ms, session.models))
                }
            },
        }
    }

    /// Asks for the running models, where `/api/tags` has given no listing.
    fn ask_running(self, tags: TagsReply) -> (r: ProbeStep)
        ensures
            r@ == self@.without_tags(tags@),
    {
        let request = fetch(self.root.as_str(), "/api/ps");
        ProbeStep::Request(ProbeSession { phase: ProbePhase::Running(tags), ..self }, request)
    }

    /// Takes in the listing `body`.
    fn listing(
        self,
        body: Json,
        format: ListingFormat,
        ollama: bool,
        elapsed_ms: u128,
    ) -> (r: ProbeStep)
        ensures
            r@ == self@.listed(body@, format, ollama, elapsed_ms),
    {
        #[verifier::truncate]
        let latency_ms: u64 = elapsed_ms as u64;
        if body.is_null() {
            return ProbeStep::Done(invalid_listing(latency_ms));
        }
        let models = parse_models(&body, format);
        if ollama {
            let request = fetch(self.root.as_str(), "/props");
            ProbeStep::Request(
                ProbeSession { phase: ProbePhase::Props, models, latency_ms, ..self },
                request,
            )
        } else {
            ProbeStep::Done(success(latency_ms, models))
        }
    }

    /// Sets the context window of the model with the index `i`.
    fn windowed(self, i: usize, window: Option<u64>) -> (r: ProbeSession)
        ensures
            r@ == self@.with_window(i as int, window),
    {
        let mut models = self.models;
        if i < models.len() {
            let model = DiscoveredModel { id: models[i].id.clone(), context_window: window };
            let ghost before = models@;
            models.set(i, model);
            assert(model_views(models@) =~= model_views(before).update(i as int, model@));
        }
        ProbeSession { models, ..self }
    }

    /// Asks about the next model without a context window, from the index `from` on.
    fn show_next(self, from: usize) -> (r: ProbeStep)
        ensures
            r@ == self@.show_from(from as int),
    {
        let mut i: usize = from;
        while i < self.models.len()
            invariant
                from <= i,
                self@.show_from(from as int) == self@.show_from(i as int),
            decreases self.models@.len() - i,
        {
            if self.models[i].context_window.is_none() {
                let id = self.models[i].id.clone();
                let body = Json::object().with("name", Json::text(id.as_str()));
                assert(body@->Object_0 =~= seq![("name"@, JsonView::Str(id@))]);
                let url = joined(self.root.as_str(), "/api/show");
                return ProbeStep::Request(
                    ProbeSession { phase: ProbePhase::Show(i), ..self },
                    ProbeRequest::Post { url, body },
                );
            }
            i = i + 1;
        }
        ProbeStep::Done(success(self.latency_ms, self.models))
    }
}

} // verus!
