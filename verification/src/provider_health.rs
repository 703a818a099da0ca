//! What is known of a provider's health: the models that it serves and the outcome of
//! probing it.
use vstd::prelude::*;
use vstd::string::*;
use vstd::utf8::is_ascii_chars;

use crate::text::{ascii_lowercase, lowercase, same_text, text_option};

verus! {

/// Overall request timeout for health probes of local providers, in seconds (connect and
/// response).
pub const PROBE_TIMEOUT_SECS: u64 = 2;

/// TCP connect timeout, in seconds: fail fast where nothing listens on the local port.
pub const PROBE_CONNECT_TIMEOUT_SECS: u64 = 1;

/// How long a cached probe result is good for, in seconds.
pub const PROBE_CACHE_TTL_SECS: u64 = 60;

/// A model discovered from a local provider.
#[derive(Debug)]
pub struct DiscoveredModel {
    /// Model identifier (e.g. `"llama3.2:latest"`).
    pub id: String,
    /// Actual runtime context window in tokens, or `None` where the provider does not report
    /// it.
    pub context_window: Option<u64>,
}

/// What a discovered model is.
pub struct ModelView {
    pub id: Seq<char>,
    pub context_window: Option<u64>,
}

/// Result of probing a provider endpoint.
#[derive(Debug)]
pub struct ProbeResult {
    /// Whether the provider responded successfully.
    pub reachable: bool,
    /// Round-trip latency in milliseconds.
    pub latency_ms: u64,
    /// Models discovered from the provider's listing endpoint.
    pub discovered_models: Vec<DiscoveredModel>,
    /// Error message where the probe failed.
    pub error: Option<String>,
}

/// What a probe result is.
pub struct ProbeResultView {
    pub reachable: bool,
    pub latency_ms: u64,
    pub discovered_models: Seq<ModelView>,
    pub error: Option<Seq<char>>,
}

/// What the models in `models` are.
pub open spec fn model_views(models: Seq<DiscoveredModel>) -> Seq<ModelView> {
    Seq::new(models.len(), |i: int| models[i]@)
}

impl View for DiscoveredModel {
    type V = ModelView;

    open spec fn view(&self) -> ModelView {
        ModelView { id: self.id@, context_window: self.context_window }
    }
}

impl View for ProbeResult {
    type V = ProbeResultView;

    open spec fn view(&self) -> ProbeResultView {
        ProbeResultView {
            reachable: self.reachable,
            latency_ms: self.latency_ms,
            discovered_models: model_views(self.discovered_models@),
            error: text_option(self.error),
        }
    }
}

impl ProbeResultView {
    /// The result of a probe that found nothing out.
    pub open spec fn unknown() -> ProbeResultView {
        ProbeResultView {
            reachable: false,
            latency_ms: 0,
            discovered_models: Seq::empty(),
            error: None,
        }
    }

    /// The result of a probe that the provider did not answer as it should.
    pub open spec fn failure(latency_ms: u64, message: Seq<char>) -> ProbeResultView {
        ProbeResultView {
            reachable: false,
            latency_ms,
            discovered_models: Seq::empty(),
            error: Some(message),
        }
    }
}

impl Clone for DiscoveredModel {
    fn clone(&self) -> (r: Self)
        ensures
            r@ == self@,
    {
        DiscoveredModel { id: self.id.clone(), context_window: self.context_window }
    }
}

impl Clone for ProbeResult {
    fn clone(&self) -> (r: Self)
        ensures
            r@ == self@,
    {
        let mut models: Vec<DiscoveredModel> = Vec::new();
        let mut i: usize = 0;
        while i < self.discovered_models.len()
            invariant
                i <= self.discovered_models@.len(),
                model_views(models@) == model_views(self.discovered_models@).take(i as int),
            decreases self.discovered_models@.len() - i,
        {
            let ghost before = models@;
            models.push(self.discovered_models[i].clone());
            assert(model_views(models@) =~= model_views(before).push(
                self.discovered_models@[i as int]@,
            ));
            i = i + 1;
        }
        assert(model_views(models@) =~= model_views(self.discovered_models@));
        let error = match &self.error {
            Some(message) => Some(message.clone()),
            None => None,
        };
        ProbeResult {
            reachable: self.reachable,
            latency_ms: self.latency_ms,
            discovered_models: models,
            error,
        }
    }
}

impl Default for ProbeResult {
    fn default() -> (r: Self)
        ensures
            r@ == ProbeResultView::unknown(),
    {
        let models: Vec<DiscoveredModel> = Vec::new();
        assert(model_views(models@) =~= Seq::empty());
        ProbeResult { reachable: false, latency_ms: 0, discovered_models: models, error: None }
    }
}

impl ProbeResult {
    /// Model IDs as plain strings, in the order of the models.
    pub fn model_ids(&self) -> (r: Vec<String>)
        ensures
            r@.len() == self@.discovered_models.len(),
            forall|i: int| 0 <= i < r@.len() ==> #[trigger] r@[i]@ == self@.discovered_models[i].id,
    {
        let mut ids: Vec<String> = Vec::new();
        let mut i: usize = 0;
        while i < self.discovered_models.len()
            invariant
                i <= self.discovered_models@.len(),
                ids@.len() == i,
                forall|j: int|
                    0 <= j < i ==> #[trigger] ids@[j]@ == self@.discovered_models[j].id,
            decreases self.discovered_models@.len() - i,
        {
            ids.push(self.discovered_models[i].id.clone());
            i = i + 1;
        }
        ids
    }

    /// The result of a probe that the provider did not answer as it should.
    pub fn failure(latency_ms: u64, message: String) -> (r: ProbeResult)
        ensures
            r@ == ProbeResultView::failure(latency_ms, message@),
    {
        let nothing = ProbeResult::default();
        ProbeResult { latency_ms, error: Some(message), ..nothing }
    }
}

/// Whether `lower` names a local provider.
pub open spec fn is_local_name(lower: Seq<char>) -> bool {
    lower == "ollama"@ || lower == "vllm"@ || lower == "lmstudio"@
}

/// Whether the lower-case name `lower` is that of a local provider.
pub fn names_local_provider(lower: &str) -> (r: bool)
    ensures
        r == is_local_name(lower@),
{
    same_text(lower, "ollama") || same_text(lower, "vllm") || same_text(lower, "lmstudio")
}

/// Check if a provider is a local provider (no key required, localhost URL).
///
/// Returns true for `"ollama"`, `"vllm"`, `"lmstudio"`, in upper or lower case.
pub fn is_local_provider(provider: &str) -> (r: bool)
    ensures
        r == is_local_name(lowercase(provider@)),
        is_ascii_chars(provider@) ==> r == is_local_name(ascii_lowercase(provider@)),
{
    names_local_provider(provider.to_lowercase().as_str())
}

} // verus!
