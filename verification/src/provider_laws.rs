//! What holds of probing a provider, for every base URL, listing and response: which requests
//! are made, and what their answers give.
use vstd::prelude::*;

use crate::discovery::{capped_window, listed_models, shown_window, ListingFormat};
use crate::json::{parsed_json, JsonNumberView, JsonView};
use crate::json_laws::law_field_is_found;
use crate::probe::{
    api_base, api_root, document_of, first_step, get_below, is_success_status, reply_seen,
    show_request, HttpReply, HttpResponse, ProbeReply, ProbeRequest, ProbeSession, ProbeStep,
    ReplyView, RequestView, StepView,
};
use crate::probe_laws::{
    enriched_models, law_enrichment_keeps_models, law_probe_outcome, run, unknown_between,
};
use crate::provider_health::{
    is_local_name, model_views, DiscoveredModel, ModelView, ProbeResult, ProbeResultView,
};
use crate::text::{end_trimmed_of, finishes_with, text_option};
use crate::text_laws::{law_end_trimmed, law_end_trimmed_keeps_the_rest, law_end_trimmed_of};

verus! {

/// Ollama is asked about exactly the model that was listed, character for character, at
/// `/api/show` below the root, and about nothing else.
pub proof fn law_show_request_names_the_model(root: Seq<char>, id: Seq<char>)
    ensures
        show_request(root, id) matches RequestView::Post { url, body } && {
            &&& url == root + "/api/show"@
            &&& body matches JsonView::Object(fields) && fields.len() == 1
            &&& body.at("name"@) == JsonView::Str(id)
        },
{
    let body = show_request(root, id)->body;
    law_field_is_found(body->Object_0, "name"@, 0);
}

/// Asking about two different models takes two different requests.
pub proof fn law_shown_models_are_told_apart(root: Seq<char>, one: Seq<char>, other: Seq<char>)
    requires
        one != other,
    ensures
        show_request(root, one) != show_request(root, other),
{
    law_show_request_names_the_model(root, one);
    law_show_request_names_the_model(root, other);
}

/// Paths are fetched below what they stand below.
pub proof fn law_get_below(prefix: Seq<char>, path: Seq<char>)
    ensures
        get_below(prefix, path) == (RequestView::Get { url: prefix + path }),
{
}

/// The base of a URL is the URL without the slashes at its end, however many, and nothing else
/// is taken off.
pub proof fn law_base_of_url(base: Seq<char>, slashes: Seq<char>)
    requires
        base.len() == 0 || base.last() != '/',
        forall|i: int| 0 <= i < slashes.len() ==> slashes[i] == '/',
    ensures
        api_base(base + slashes) == base,
        api_root(base + slashes) == api_root(base),
{
    law_end_trimmed(base, '/', slashes);
    law_end_trimmed(base, '/', Seq::empty());
    assert(base + Seq::<char>::empty() =~= base);
}

/// A URL that ends with neither a slash nor a version is its own root; a version at the end is
/// taken off, once or repeated, and what stands before it is kept.
pub proof fn law_root_of_url(s: Seq<char>)
    ensures
        !finishes_with(s, "/v1"@) && (s.len() == 0 || s.last() != '/') ==> api_root(s) == s,
        api_root(s + "/v1"@ + "/v1"@) == api_root(s + "/v1"@),
        !finishes_with(s, "/v1"@) && !finishes_with(s, "/v1/"@) ==> api_root(s + "/v1"@) == s,
        !finishes_with(s, "/v1"@) ==> api_root(s + "/v1/"@ + "/v1"@) == api_root(s + "/v1"@),
{
    reveal_strlit("/v1");
    reveal_strlit("/v1/");
    let v = "/v1"@;
    let slashed = "/v1/"@;
    law_end_trimmed_of(s, v);
    law_end_trimmed_of(s, slashed);
    law_end_trimmed_of(s + v, v);
    law_end_trimmed_of(s + slashed, v);
    assert((s + v).last() == '1' && (s + v + v).last() == '1');
    lemma_no_slash_at_end(s + v);
    lemma_no_slash_at_end(s + v + v);
    lemma_no_slash_at_end(s + slashed + v);
    if s.len() == 0 || s.last() != '/' {
        lemma_no_slash_at_end(s);
        if finishes_with(s, slashed) {
            assert(s.last() == s.skip(s.len() - 4)[3]);
            assert(slashed[3] == '/');
        }
    }
    let odd = s + slashed;
    if finishes_with(odd, v) {
        assert(odd.last() == odd.skip(odd.len() - 3)[2]);
        assert(v[2] == '1');
        assert(odd.last() == '/');
    }
}

proof fn lemma_no_slash_at_end(s: Seq<char>)
    requires
        s.len() == 0 || s.last() != '/',
    ensures
        api_base(s) == s,
{
    law_end_trimmed(s, '/', Seq::empty());
    assert(s + Seq::<char>::empty() =~= s);
}

/// The root is a beginning of the URL: taking things off its end changes nothing before.
pub proof fn law_root_is_a_beginning(s: Seq<char>)
    ensures
        api_root(s).len() <= api_base(s).len() <= s.len(),
        api_base(s) == s.take(api_base(s).len() as int),
        api_root(s) == s.take(api_root(s).len() as int),
{
    law_end_trimmed_keeps_the_rest(s, '/');
    let base = api_base(s);
    let unversioned = end_trimmed_of(base, "/v1"@);
    lemma_end_trimmed_of_is_a_beginning(base, "/v1"@);
    lemma_end_trimmed_of_is_a_beginning(unversioned, "/v1/"@);
    let root = api_root(s);
    assert(unversioned.take(root.len() as int) =~= s.take(root.len() as int));
}

proof fn lemma_end_trimmed_of_is_a_beginning(s: Seq<char>, suffix: Seq<char>)
    ensures
        end_trimmed_of(s, suffix).len() <= s.len(),
        end_trimmed_of(s, suffix) == s.take(end_trimmed_of(s, suffix).len() as int),
    decreases s.len(),
{
    if suffix.len() > 0 && finishes_with(s, suffix) {
        let head = s.take(s.len() - suffix.len());
        lemma_end_trimmed_of_is_a_beginning(head, suffix);
        let left = end_trimmed_of(head, suffix);
        assert(head.take(left.len() as int) =~= s.take(left.len() as int));
    } else {
        assert(s.take(s.len() as int) =~= s);
    }
}

/// A probe begins with fetching `/api/tags` below the root where the provider is Ollama, and
/// `/models` below the base where it is any other.
pub proof fn law_first_request(lower: Seq<char>, base_url: Seq<char>)
    ensures
        first_step(lower, base_url) matches StepView::Request(_, request) && request == (
        RequestView::Get {
            url: if lower == "ollama"@ {
                api_root(base_url) + "/api/tags"@
            } else {
                api_base(base_url) + "/models"@
            },
        }),
{
}

/// A provider that is not Ollama has exactly the models that the document at `/models` lists;
/// its latency is the time until that came.
pub proof fn law_other_provider(
    lower: Seq<char>,
    base_url: Seq<char>,
    server: spec_fn(nat, RequestView) -> ReplyView,
    clock: spec_fn(nat) -> u128,
    body: JsonView,
)
    requires
        lower != "ollama"@,
        server(0, RequestView::Get { url: api_base(base_url) + "/models"@ })
            == ReplyView::Accepted(body),
        body != JsonView::Null,
    ensures
        ({
            let result = run(first_step(lower, base_url), server, clock, 0);
            &&& result.reachable
            &&& result.error is None
            &&& result.latency_ms == clock(0) as u64
            &&& result.discovered_models == listed_models(body, ListingFormat::OpenAi)
        }),
{
    law_probe_outcome(lower, base_url, server, clock);
}

/// A provider that is not Ollama and gives no listing is not reachable, and the error is the
/// message of the request or the status of the response; one that succeeds without a JSON
/// document is reachable, with an error that says so.
pub proof fn law_other_provider_without_listing(
    lower: Seq<char>,
    base_url: Seq<char>,
    server: spec_fn(nat, RequestView) -> ReplyView,
    clock: spec_fn(nat) -> u128,
)
    requires
        lower != "ollama"@,
    ensures
        ({
            let reply = server(0, RequestView::Get { url: api_base(base_url) + "/models"@ });
            let result = run(first_step(lower, base_url), server, clock, 0);
            &&& !(reply is Accepted && reply->Accepted_0 != JsonView::Null) ==> {
                &&& result.discovered_models.len() == 0
                &&& result.latency_ms == clock(0) as u64
                &&& result.reachable <==> reply is Accepted
            }
            &&& reply matches ReplyView::Failed(message) ==> result.error == Some(message)
            &&& reply matches ReplyView::Refused(status) ==> result.error == Some(
                "HTTP "@ + status,
            )
            &&& reply == ReplyView::Accepted(JsonView::Null) ==> result.error == Some(
                "Server responded but returned invalid JSON"@,
            )
        }),
{
    law_probe_outcome(lower, base_url, server, clock);
}

/// Whether a reply brings a document.
pub open spec fn brings_document(reply: ReplyView) -> bool {
    reply matches ReplyView::Accepted(body) && body != JsonView::Null
}

/// An Ollama has the models of the first document that comes: that of `/api/tags`, else that of
/// `/api/ps`, else, where both were refused, that of `/models`. Its latency is the time until
/// that came, and the windows are looked for from then on.
pub proof fn law_ollama_listing(
    base_url: Seq<char>,
    server: spec_fn(nat, RequestView) -> ReplyView,
    clock: spec_fn(nat) -> u128,
    body: JsonView,
)
    requires
        body != JsonView::Null,
    ensures
        ({
            let root = api_root(base_url);
            let tags = server(0, RequestView::Get { url: root + "/api/tags"@ });
            let running = server(1, RequestView::Get { url: root + "/api/ps"@ });
            let models = server(2, RequestView::Get { url: api_base(base_url) + "/models"@ });
            let result = run(first_step("ollama"@, base_url), server, clock, 0);
            &&& tags == ReplyView::Accepted(body) ==> {
                &&& result.reachable
                &&& result.error is None
                &&& result.latency_ms == clock(0) as u64
                &&& result.discovered_models == enriched_models(
                    listed_models(body, ListingFormat::Ollama),
                    root,
                    server,
                    1,
                )
            }
            &&& !brings_document(tags) && running == ReplyView::Accepted(body) ==> {
                &&& result.reachable
                &&& result.error is None
                &&& result.latency_ms == clock(1) as u64
                &&& result.discovered_models == enriched_models(
                    listed_models(body, ListingFormat::Ollama),
                    root,
                    server,
                    2,
                )
            }
            &&& tags is Refused && running is Refused && models == ReplyView::Accepted(body) ==> {
                &&& result.reachable
                &&& result.error is None
                &&& result.latency_ms == clock(2) as u64
                &&& result.discovered_models == enriched_models(
                    listed_models(body, ListingFormat::OpenAi),
                    root,
                    server,
                    3,
                )
            }
        }),
{
    law_probe_outcome("ollama"@, base_url, server, clock);
}

/// An Ollama that gives no listing has no models. It is reachable exactly where some listing
/// succeeded without a JSON document, and the error tells what went wrong.
pub proof fn law_ollama_without_listing(
    base_url: Seq<char>,
    server: spec_fn(nat, RequestView) -> ReplyView,
    clock: spec_fn(nat) -> u128,
)
    ensures
        ({
            let root = api_root(base_url);
            let tags = server(0, RequestView::Get { url: root + "/api/tags"@ });
            let running = server(1, RequestView::Get { url: root + "/api/ps"@ });
            let models = server(2, RequestView::Get { url: api_base(base_url) + "/models"@ });
            let result = run(first_step("ollama"@, base_url), server, clock, 0);
            let invalid = Some("Server responded but returned invalid JSON"@);
            &&& !brings_document(tags) && !brings_document(running) && (tags is Accepted || running
                is Accepted) ==> {
                &&& result.reachable
                &&& result.error == invalid
                &&& result.discovered_models.len() == 0
                &&& result.latency_ms == clock(1) as u64
            }
            &&& !(tags is Accepted) && running is Failed ==> {
                &&& !result.reachable
                &&& result.error == Some(running->Failed_0)
                &&& result.discovered_models.len() == 0
                &&& result.latency_ms == clock(1) as u64
            }
            &&& tags is Failed && running is Refused ==> {
                &&& !result.reachable
                &&& result.error == Some(tags->Failed_0)
                &&& result.discovered_models.len() == 0
                &&& result.latency_ms == clock(1) as u64
            }
            &&& tags is Refused && running is Refused && !brings_document(models) ==> {
                &&& result.reachable <==> models is Accepted
                &&& result.error == (if models is Accepted {
                    invalid
                } else {
                    Some("All Ollama endpoints failed"@)
                })
                &&& result.discovered_models.len() == 0
                &&& result.latency_ms == clock(2) as u64
            }
        }),
{
    law_probe_outcome("ollama"@, base_url, server, clock);
}

/// Where `/props` tells the server-wide window, it applies to every model, and no model is asked
/// about.
pub proof fn law_props_settle_windows(
    models: Seq<ModelView>,
    root: Seq<char>,
    server: spec_fn(nat, RequestView) -> ReplyView,
    n: nat,
    props: JsonView,
    n_ctx: u64,
    i: int,
)
    requires
        0 <= i < models.len(),
        server(n, RequestView::Get { url: root + "/props"@ }) == ReplyView::Accepted(props),
        props.at("default_generation_settings"@).at("n_ctx"@) == JsonView::Number(
            JsonNumberView::PosInt(n_ctx),
        ),
    ensures
        ({
            let model = enriched_models(models, root, server, n)[i];
            &&& model.id == models[i].id
            &&& model.context_window == capped_window(models[i].context_window, n_ctx)
        }),
{
    law_enrichment_keeps_models(models, root, server, n);
}

/// Where `/props` tells nothing, a model whose window is known keeps it, and every other is asked
/// about under its own ID, in the order of the listing: it has the window that the answer to that
/// request tells, and none where that request fails.
pub proof fn law_show_settles_windows(
    models: Seq<ModelView>,
    root: Seq<char>,
    server: spec_fn(nat, RequestView) -> ReplyView,
    n: nat,
    i: int,
)
    requires
        0 <= i < models.len(),
        server(n, RequestView::Get { url: root + "/props"@ }) matches ReplyView::Accepted(props)
            ==> props.at("default_generation_settings"@).at("n_ctx"@).as_u64() is None,
    ensures
        ({
            let model = enriched_models(models, root, server, n)[i];
            let request = RequestView::Post {
                url: root + "/api/show"@,
                body: JsonView::Object(seq![("name"@, JsonView::Str(models[i].id))]),
            };
            let reply = server(n + 1 + unknown_between(models, 0, i), request);
            &&& model.id == models[i].id
            &&& models[i].context_window is Some ==> model.context_window
                == models[i].context_window
            &&& models[i].context_window is None ==> model.context_window == (match reply {
                ReplyView::Accepted(body) => shown_window(body),
                _ => None,
            })
        }),
{
    law_enrichment_keeps_models(models, root, server, n);
}

/// A request that failed is seen as failed, with its message; a response is seen as a success
/// exactly where its status is 2xx, and then with the document in its body.
pub proof fn law_reply_is_seen(message: String, response: HttpResponse, bytes: Vec<u8>)
    ensures
        reply_seen(HttpReply::Failed(message)) == ReplyView::Failed(message@),
        reply_seen(HttpReply::Response(response)) is Accepted <==> 200 <= response.status <= 299,
        !(200 <= response.status <= 299) ==> reply_seen(HttpReply::Response(response))
            == ReplyView::Refused(response.status_text@),
        200 <= response.status <= 299 ==> reply_seen(HttpReply::Response(response))
            == ReplyView::Accepted(document_of(response.body)),
        is_success_status(response.status) <==> 200 <= response.status <= 299,
        document_of(None) == JsonView::Null,
        parsed_json(bytes@) matches Ok(json) ==> document_of(Some(bytes)) == json,
        parsed_json(bytes@) is Err ==> document_of(Some(bytes)) == JsonView::Null,
{
}

/// A result says what it was made of.
pub proof fn law_results_say_what_happened(
    latency_ms: u64,
    message: Seq<char>,
    models: Seq<ModelView>,
)
    ensures
        ({
            let failure = ProbeResultView::failure(latency_ms, message);
            let success = ProbeResultView::success(latency_ms, models);
            let nothing = ProbeResultView::unknown();
            &&& !failure.reachable && failure.latency_ms == latency_ms
            &&& failure.error == Some(message) && failure.discovered_models.len() == 0
            &&& success.reachable && success.latency_ms == latency_ms
            &&& success.error is None && success.discovered_models == models
            &&& !nothing.reachable && nothing.latency_ms == 0
            &&& nothing.error is None && nothing.discovered_models.len() == 0
        }),
{
}

/// Models, results, replies, requests and steps stand for what they hold.
pub proof fn law_probe_values_stand_for_themselves(
    model: DiscoveredModel,
    models: Seq<DiscoveredModel>,
    result: ProbeResult,
    reply: ProbeReply,
    request: ProbeRequest,
    session: ProbeSession,
    step: ProbeStep,
)
    ensures
        model@.id == model.id@,
        model@.context_window == model.context_window,
        model_views(models).len() == models.len(),
        forall|i: int| 0 <= i < models.len() ==> #[trigger] model_views(models)[i] == models[i]@,
        result@.reachable == result.reachable,
        result@.latency_ms == result.latency_ms,
        result@.discovered_models == model_views(result.discovered_models@),
        result@.error == text_option(result.error),
        reply matches ProbeReply::Failed(message) ==> reply@ == ReplyView::Failed(message@),
        reply matches ProbeReply::Refused(status) ==> reply@ == ReplyView::Refused(status@),
        reply matches ProbeReply::Accepted(body) ==> reply@ == ReplyView::Accepted(body@),
        request matches ProbeRequest::Get { url } ==> request@ == (RequestView::Get { url: url@ }),
        request matches ProbeRequest::Post { url, body } ==> request@ == (RequestView::Post {
            url: url@,
            body: body@,
        }),
        session@.root == session.root@,
        session@.base == session.base@,
        session@.models == model_views(session.models@),
        session@.latency_ms == session.latency_ms,
        step matches ProbeStep::Request(s, r) ==> step@ == StepView::Request(s@, r@),
        step matches ProbeStep::Done(r) ==> step@ == StepView::Done(r@),
{
}

/// The local providers are exactly Ollama, vLLM and LM Studio.
pub proof fn law_local_names(lower: Seq<char>)
    ensures
        is_local_name(lower) <==> seq!["ollama"@, "vllm"@, "lmstudio"@].contains(lower),
{
    let names = seq!["ollama"@, "vllm"@, "lmstudio"@];
    assert(names[0] == "ollama"@ && names[1] == "vllm"@ && names[2] == "lmstudio"@);
}

} // verus!
