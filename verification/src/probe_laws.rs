//! What holds of a probe as a whole, from its first request to its result.
use vstd::prelude::*;

use crate::discovery::{capped_models, listed_models, ListingFormat};
use crate::json::JsonView;
use crate::probe::{
    api_base, api_root, first_step, get_below, props_reply_window, show_reply_window,
    show_request, PhaseView, ReplyView, RequestView, SessionView, StepView, TagsReplyView,
};
use crate::provider_health::{ModelView, ProbeResultView};
use crate::text::{end_trimmed, end_trimmed_of, finishes_with};

verus! {

/// How many kinds of requests may still follow the one of `phase`.
pub open spec fn phase_rank(phase: PhaseView) -> nat {
    match phase {
        PhaseView::Tags => 5,
        PhaseView::Running(_) => 4,
        PhaseView::Fallback => 3,
        PhaseView::Models => 3,
        PhaseView::Props => 2,
        PhaseView::Show(_) => 1,
    }
}

/// The first measure of how far a step is from the result.
pub open spec fn step_rank(step: StepView) -> nat {
    match step {
        StepView::Request(session, _) => phase_rank(session.phase),
        StepView::Done(_) => 0,
    }
}

/// The second measure: how many models have not been asked about.
pub open spec fn step_remaining(step: StepView) -> nat {
    match step {
        StepView::Request(session, _) => match session.phase {
            PhaseView::Show(i) => if 0 <= i <= session.models.len() {
                (session.models.len() - i) as nat
            } else {
                0
            },
            _ => 0,
        },
        StepView::Done(_) => 0,
    }
}

/// `show_from` asks about a model at or after `from` whose window is unknown, or is done.
proof fn lemma_show_from(session: SessionView, from: int)
    requires
        0 <= from,
    ensures
        match session.show_from(from) {
            StepView::Request(next, request) => {
                &&& next.wf()
                &&& next.phase matches PhaseView::Show(i)
                &&& from <= i < session.models.len()
                &&& next == (SessionView { phase: PhaseView::Show(i), ..session })
                &&& request == show_request(session.root, session.models[i].id)
            },
            StepView::Done(result) => result == ProbeResultView::success(
                session.latency_ms,
                session.models,
            ),
        },
    decreases session.models.len() - from,
{
    if from < session.models.len() && session.models[from].context_window is Some {
        lemma_show_from(session, from + 1);
    }
}

/// A probe begins with fetching a listing, and with a session that can use the reply.
pub proof fn law_probe_begins(lower: Seq<char>, base_url: Seq<char>)
    ensures
        first_step(lower, base_url) matches StepView::Request(session, request)
            && session.wf() && request is Get,
{
}

/// A probe comes to an end: with every reply it is done, or goes on to a later kind of
/// request, or asks about a later model. On the way it asks only about models that it found
/// and whose context window is unknown.
pub proof fn law_probe_progress(session: SessionView, reply: ReplyView, elapsed_ms: u128)
    requires
        session.wf(),
    ensures
        match session.next(reply, elapsed_ms) {
            StepView::Request(next, request) => {
                let here = StepView::Request(session, request);
                let there = session.next(reply, elapsed_ms);
                &&& next.wf()
                &&& next.root == session.root
                &&& next.base == session.base
                &&& (step_rank(there) < step_rank(here) || (step_rank(there) == step_rank(here)
                    && step_remaining(there) < step_remaining(here)))
            },
            StepView::Done(_) => true,
        },
{
    match session.phase {
        PhaseView::Props => {
            lemma_show_from(session, 0);
        },
        PhaseView::Show(i) => {
            lemma_show_from(session.with_window(i, show_reply_window(reply)), i + 1);
        },
        _ => {},
    }
}

/// The result of the probe that goes on with `step`, where `server` says how each request
/// goes, by its number, counted from zero, and by what it asks for, and `clock` how many
/// milliseconds have passed when the reply to the request with a number has come; `n` requests
/// have gone before. Equal requests may go differently. A step whose session cannot use the
/// reply comes up in no probe and counts as nothing found out.
pub open spec fn run(
    step: StepView,
    server: spec_fn(nat, RequestView) -> ReplyView,
    clock: spec_fn(nat) -> u128,
    n: nat,
) -> ProbeResultView
    decreases step_rank(step), step_remaining(step),
{
    match step {
        StepView::Done(result) => result,
        StepView::Request(session, request) => if session.wf() {
            proof {
                law_probe_progress(session, server(n, request), clock(n));
            }
            run(session.next(server(n, request), clock(n)), server, clock, n + 1)
        } else {
            ProbeResultView::unknown()
        },
    }
}

/// How the listing of a provider came out: not at all, with a message why, or with a
/// document of some format.
pub enum Listing {
    Missing(Seq<char>),
    Document(JsonView, ListingFormat),
}

/// How the listing comes out of `server`, and how many requests that takes.
///
/// A provider configured as Ollama is asked for its models with `/api/tags`. Where that gives
/// no listing, it is asked for its running models with `/api/ps`, and where both are refused,
/// for the OpenAI-compatible listing. Any other provider is asked for the OpenAI-compatible
/// listing alone.
pub open spec fn listing_of(
    lower: Seq<char>,
    base_url: Seq<char>,
    server: spec_fn(nat, RequestView) -> ReplyView,
) -> (Listing, nat) {
    let root = api_root(base_url);
    let base = api_base(base_url);
    if lower == "ollama"@ {
        let tags = server(0, get_below(root, "/api/tags"@));
        if tags is Accepted && tags->Accepted_0 != JsonView::Null {
            (Listing::Document(tags->Accepted_0, ListingFormat::Ollama), 1)
        } else {
            match server(1, get_below(root, "/api/ps"@)) {
                ReplyView::Accepted(body) => (Listing::Document(body, ListingFormat::Ollama), 2),
                ReplyView::Failed(message) => if tags is Accepted {
                    (Listing::Document(JsonView::Null, ListingFormat::Ollama), 2)
                } else {
                    (Listing::Missing(message), 2)
                },
                ReplyView::Refused(_) => match tags {
                    ReplyView::Accepted(body) => (
                        Listing::Document(body, ListingFormat::Ollama),
                        2,
                    ),
                    ReplyView::Failed(message) => (Listing::Missing(message), 2),
                    ReplyView::Refused(_) => match server(2, get_below(base, "/models"@)) {
                        ReplyView::Accepted(body) => (
                            Listing::Document(body, ListingFormat::OpenAi),
                            3,
                        ),
                        _ => (Listing::Missing("All Ollama endpoints failed"@), 3),
                    },
                },
            }
        }
    } else {
        match server(0, get_below(base, "/models"@)) {
            ReplyView::Failed(message) => (Listing::Missing(message), 1),
            ReplyView::Refused(status) => (Listing::Missing("HTTP "@ + status), 1),
            ReplyView::Accepted(body) => (Listing::Document(body, ListingFormat::OpenAi), 1),
        }
    }
}

/// How many of `models`, from the index `from` to before the index `to`, have no context
/// window.
pub open spec fn unknown_between(models: Seq<ModelView>, from: int, to: int) -> nat
    decreases to - from,
{
    if from >= to {
        0
    } else if models[from].context_window is None {
        1 + unknown_between(models, from + 1, to)
    } else {
        unknown_between(models, from + 1, to)
    }
}

/// `models` with what `/api/show` tells of those from the index `from` on whose context
/// window is unknown: they are asked about in their order, the first with the request number
/// `n`.
pub open spec fn shown_models(
    models: Seq<ModelView>,
    from: int,
    root: Seq<char>,
    server: spec_fn(nat, RequestView) -> ReplyView,
    n: nat,
) -> Seq<ModelView> {
    Seq::new(
        models.len(),
        |i: int|
            if from <= i && models[i].context_window is None {
                ModelView {
                    id: models[i].id,
                    context_window: show_reply_window(
                        server(
                            n + unknown_between(models, from, i),
                            show_request(root, models[i].id),
                        ),
                    ),
                }
            } else {
                models[i]
            },
    )
}

/// The models of an Ollama listing with their context windows: the server-wide one where
/// `/props` tells it, else what `/api/show` tells of each model without one. `n` requests have
/// gone before.
pub open spec fn enriched_models(
    models: Seq<ModelView>,
    root: Seq<char>,
    server: spec_fn(nat, RequestView) -> ReplyView,
    n: nat,
) -> Seq<ModelView> {
    match props_reply_window(server(n, get_below(root, "/props"@))) {
        Some(n_ctx) => capped_models(models, n_ctx),
        None => shown_models(models, 0, root, server, n + 1),
    }
}

/// What a probe finds out, without the steps that it takes.
pub open spec fn probe_outcome(
    lower: Seq<char>,
    base_url: Seq<char>,
    server: spec_fn(nat, RequestView) -> ReplyView,
    clock: spec_fn(nat) -> u128,
) -> ProbeResultView {
    let (listing, requests) = listing_of(lower, base_url, server);
    let latency_ms = clock((requests - 1) as nat) as u64;
    match listing {
        Listing::Missing(message) => ProbeResultView::failure(latency_ms, message),
        Listing::Document(body, format) => if body == JsonView::Null {
            ProbeResultView::invalid_listing(latency_ms)
        } else if lower == "ollama"@ {
            ProbeResultView::success(
                latency_ms,
                enriched_models(
                    listed_models(body, format),
                    api_root(base_url),
                    server,
                    requests,
                ),
            )
        } else {
            ProbeResultView::success(latency_ms, listed_models(body, format))
        },
    }
}

/// Which models are without a window counts only from `from` on.
proof fn lemma_unknown_between(a: Seq<ModelView>, b: Seq<ModelView>, from: int, to: int)
    requires
        forall|i: int| from <= i < to ==> #[trigger] a[i] == b[i],
    ensures
        unknown_between(a, from, to) == unknown_between(b, from, to),
    decreases to - from,
{
    if from < to {
        assert(a[from] == b[from]);
        lemma_unknown_between(a, b, from + 1, to);
    }
}

proof fn lemma_run_show(
    session: SessionView,
    from: int,
    server: spec_fn(nat, RequestView) -> ReplyView,
    clock: spec_fn(nat) -> u128,
    n: nat,
)
    requires
        0 <= from <= session.models.len(),
    ensures
        run(session.show_from(from), server, clock, n) == ProbeResultView::success(
            session.latency_ms,
            shown_models(session.models, from, session.root, server, n),
        ),
    decreases session.models.len() - from,
{
    lemma_show_from(session, from);
    let models = session.models;
    let shown = shown_models(models, from, session.root, server, n);
    if from == models.len() {
        assert(shown =~= models);
    } else if models[from].context_window is Some {
        lemma_run_show(session, from + 1, server, clock, n);
        assert(shown =~= shown_models(models, from + 1, session.root, server, n));
    } else {
        let asking = SessionView { phase: PhaseView::Show(from), ..session };
        let request = show_request(session.root, models[from].id);
        let window = show_reply_window(server(n, request));
        let next = asking.with_window(from, window);
        assert(session.show_from(from) == StepView::Request(asking, request));
        lemma_run_request(asking, request, server, clock, n);
        assert(asking.next(server(n, request), clock(n)) == next.show_from(from + 1));
        lemma_run_show(next, from + 1, server, clock, n + 1);
        let rest = shown_models(next.models, from + 1, session.root, server, n + 1);
        assert forall|i: int| 0 <= i < models.len() implies shown[i] == rest[i] by {
            if from < i {
                lemma_unknown_between(models, next.models, from + 1, i);
            }
        }
        assert(shown =~= rest);
    }
}

/// The steps of a probe, one after the other, come to what `probe_outcome` says without
/// them: which listing is used, when the latency is taken, which models are found, and which
/// context window each of them has.
pub proof fn law_probe_outcome(
    lower: Seq<char>,
    base_url: Seq<char>,
    server: spec_fn(nat, RequestView) -> ReplyView,
    clock: spec_fn(nat) -> u128,
)
    ensures
        run(first_step(lower, base_url), server, clock, 0) == probe_outcome(
            lower,
            base_url,
            server,
            clock,
        ),
{
    let root = api_root(base_url);
    let base = api_base(base_url);
    let listing = listing_of(lower, base_url, server).0;
    let requests = listing_of(lower, base_url, server).1;
    let start = SessionView {
        root,
        base,
        phase: PhaseView::Tags,
        models: Seq::empty(),
        latency_ms: 0,
    };
    let tags_request = get_below(root, "/api/tags"@);
    let ps_request = get_below(root, "/api/ps"@);
    let models_request = get_below(base, "/models"@);
    if lower == "ollama"@ {
        let tags = match server(0, tags_request) {
            ReplyView::Failed(message) => TagsReplyView::Failed(message),
            ReplyView::Refused(_) => TagsReplyView::Refused,
            ReplyView::Accepted(_) => TagsReplyView::Invalid,
        };
        let running = SessionView { phase: PhaseView::Running(tags), ..start };
        let fallback = SessionView { phase: PhaseView::Fallback, ..start };
        lemma_run_request(start, tags_request, server, clock, 0);
        lemma_run_request(running, ps_request, server, clock, 1);
        lemma_run_request(fallback, models_request, server, clock, 2);
        if let Listing::Document(body, format) = listing {
            let at = (requests - 1) as nat;
            lemma_run_listed(start, body, format, server, clock, at);
            lemma_run_listed(running, body, format, server, clock, at);
            lemma_run_listed(fallback, body, format, server, clock, at);
        }
    } else {
        let models = SessionView { phase: PhaseView::Models, ..start };
        lemma_run_request(models, models_request, server, clock, 0);
    }
}

proof fn lemma_run_request(
    session: SessionView,
    request: RequestView,
    server: spec_fn(nat, RequestView) -> ReplyView,
    clock: spec_fn(nat) -> u128,
    n: nat,
)
    requires
        session.wf(),
    ensures
        run(StepView::Request(session, request), server, clock, n) == run(
            session.next(server(n, request), clock(n)),
            server,
            clock,
            n + 1,
        ),
{
}

/// What follows the listing of a provider that is configured as Ollama, where the listing
/// came with the reply to the request number `n`.
proof fn lemma_run_listed(
    session: SessionView,
    body: JsonView,
    format: ListingFormat,
    server: spec_fn(nat, RequestView) -> ReplyView,
    clock: spec_fn(nat) -> u128,
    n: nat,
)
    ensures
        run(session.listed(body, format, true, clock(n)), server, clock, n + 1) == (if body
            == JsonView::Null {
            ProbeResultView::invalid_listing(clock(n) as u64)
        } else {
            ProbeResultView::success(
                clock(n) as u64,
                enriched_models(listed_models(body, format), session.root, server, n + 1),
            )
        }),
{
    if body != JsonView::Null {
        let props = SessionView {
            phase: PhaseView::Props,
            models: listed_models(body, format),
            latency_ms: clock(n) as u64,
            ..session
        };
        lemma_run_request(props, get_below(session.root, "/props"@), server, clock, n + 1);
        lemma_run_show(props, 0, server, clock, n + 2);
    }
}

/// A result that comes out of a probe says why where the provider is not reachable, lists
/// models only without an error, and without an error the provider is reachable.
pub proof fn law_probe_result(session: SessionView, reply: ReplyView, elapsed_ms: u128)
    requires
        session.wf(),
    ensures
        match session.next(reply, elapsed_ms) {
            StepView::Done(result) => {
                &&& !result.reachable ==> result.error is Some
                &&& result.error is Some ==> result.discovered_models.len() == 0
            },
            StepView::Request(..) => true,
        },
{
    match session.phase {
        PhaseView::Props => {
            lemma_show_from(session, 0);
        },
        PhaseView::Show(i) => {
            lemma_show_from(session.with_window(i, show_reply_window(reply)), i + 1);
        },
        _ => {},
    }
}

/// Where no request succeeds, the provider is not reachable, the result says why, and it lists
/// no models: what is reachable has responded successfully.
pub proof fn law_unreachable_provider(
    lower: Seq<char>,
    base_url: Seq<char>,
    server: spec_fn(nat, RequestView) -> ReplyView,
    clock: spec_fn(nat) -> u128,
)
    requires
        forall|n: nat, request: RequestView| !(#[trigger] server(n, request) is Accepted),
    ensures
        ({
            let result = run(first_step(lower, base_url), server, clock, 0);
            !result.reachable && result.error is Some && result.discovered_models.len() == 0
        }),
{
    law_probe_outcome(lower, base_url, server, clock);
    assert(!(server(0, get_below(api_root(base_url), "/api/tags"@)) is Accepted));
    assert(!(server(1, get_below(api_root(base_url), "/api/ps"@)) is Accepted));
    assert(!(server(2, get_below(api_base(base_url), "/models"@)) is Accepted));
    assert(!(server(0, get_below(api_base(base_url), "/models"@)) is Accepted));
}

/// Looking for context windows keeps the listing: the same models, in the same order.
pub proof fn law_enrichment_keeps_models(
    models: Seq<ModelView>,
    root: Seq<char>,
    server: spec_fn(nat, RequestView) -> ReplyView,
    n: nat,
)
    ensures
        enriched_models(models, root, server, n).len() == models.len(),
        forall|i: int|
            0 <= i < models.len() ==> (#[trigger] enriched_models(models, root, server, n)[i]).id
                == models[i].id,
{
}

/// The models of an Ollama are those that `/api/tags` lists, in their order, wherever it
/// answers with a JSON document, whatever else the provider answers.
pub proof fn law_ollama_models_come_from_tags(
    base_url: Seq<char>,
    server: spec_fn(nat, RequestView) -> ReplyView,
    clock: spec_fn(nat) -> u128,
    body: JsonView,
)
    requires
        server(0, get_below(api_root(base_url), "/api/tags"@)) == ReplyView::Accepted(body),
        body != JsonView::Null,
    ensures
        ({
            let result = run(first_step("ollama"@, base_url), server, clock, 0);
            let listed = listed_models(body, ListingFormat::Ollama);
            &&& result.reachable
            &&& result.error is None
            &&& result.discovered_models.len() == listed.len()
            &&& forall|i: int|
                0 <= i < listed.len() ==> (#[trigger] result.discovered_models[i]).id
                    == listed[i].id
        }),
{
    law_probe_outcome("ollama"@, base_url, server, clock);
    let listed = listed_models(body, ListingFormat::Ollama);
    law_enrichment_keeps_models(listed, api_root(base_url), server, 1);
}

/// The server-wide context window bounds that of every model, and where it is not zero no
/// model is left without one.
pub proof fn law_n_ctx_bounds_windows(models: Seq<ModelView>, n_ctx: u64)
    ensures
        forall|i: int|
            0 <= i < models.len() ==> {
                &&& (#[trigger] capped_models(models, n_ctx)[i]).context_window matches Some(w)
                &&& w <= n_ctx
                &&& n_ctx > 0 ==> w > 0
            },
{
}

/// Slashes at the end of the base URL, however many, make no difference to a probe.
pub proof fn law_probe_ignores_slashes(lower: Seq<char>, base_url: Seq<char>, slashes: Seq<char>)
    requires
        forall|i: int| 0 <= i < slashes.len() ==> slashes[i] == '/',
    ensures
        first_step(lower, base_url + slashes) == first_step(lower, base_url),
    decreases slashes.len(),
{
    if slashes.len() == 0 {
        assert(base_url + slashes =~= base_url);
    } else {
        law_probe_ignores_slashes(lower, base_url, slashes.drop_last());
        assert((base_url + slashes).drop_last() =~= base_url + slashes.drop_last());
    }
}

/// The root of a base URL that ends with the API version is what stands before the version,
/// where that does not itself end with a slash or a version.
pub proof fn law_root_of_versioned_url(root: Seq<char>)
    requires
        !finishes_with(root, "/"@),
        !finishes_with(root, "/v1"@),
    ensures
        api_root(root) == root,
        api_root(root + "/v1"@) == root,
        api_root(root + "/v1/"@) == root,
{
    reveal_strlit("/");
    reveal_strlit("/v1");
    reveal_strlit("/v1/");
    if root.len() > 0 && root.last() == '/' {
        assert(root.skip(root.len() - 1) =~= "/"@);
    }
    if finishes_with(root, "/v1/"@) {
        assert(root.last() == root.skip(root.len() - 4)[3]);
    }
    let versioned = root + "/v1"@;
    assert(versioned.skip(versioned.len() - 3) =~= "/v1"@);
    assert(versioned.take(versioned.len() - 3) =~= root);
    assert((root + "/v1/"@).drop_last() =~= versioned);
    assert(end_trimmed(root + "/v1/"@, '/') == end_trimmed(versioned, '/'));
    assert(end_trimmed_of(versioned, "/v1"@) == end_trimmed_of(root, "/v1"@));
}

} // verus!
