//! What providers' answers say: which models are listed and how large their context windows
//! are.
use vstd::prelude::*;
use vstd::string::*;

use crate::json::{field_views, json_views, Json, JsonView};
use crate::provider_health::{model_views, DiscoveredModel, ModelView};
use crate::text::{
    finishes_with, has_suffix, lines, parse_u64, same_text, split_lines, split_words, texts, trim,
    trimmed, u64_written, words,
};

verus! {

/// The shape of a model listing.
#[derive(Clone, Copy, PartialEq, Eq, Structural, Debug)]
pub enum ListingFormat {
    /// `{ "models": [ { "name": .. } ] }`
    Ollama,
    /// `{ "data": [ { "id": .., "meta": { "n_ctx_train": .. } } ] }`
    OpenAi,
}

/// The `num_ctx` that a line of Ollama's parameter text sets: its second word, where its
/// first is `num_ctx` and the second is a number.
pub open spec fn num_ctx_of_line(line: Seq<char>) -> Option<u64> {
    let text = trimmed(line);
    if words(text).len() >= 2 && words(text)[0] == "num_ctx"@ {
        u64_written(words(text)[1])
    } else {
        None
    }
}

/// The `num_ctx` of the first of `all` that sets one.
pub open spec fn num_ctx_of_lines(all: Seq<Seq<char>>) -> Option<u64>
    decreases all.len(),
{
    if all.len() == 0 {
        None
    } else if num_ctx_of_line(all[0]) is Some {
        num_ctx_of_line(all[0])
    } else {
        num_ctx_of_lines(all.skip(1))
    }
}

/// The value of the first field whose name ends with `.context_length` and whose value is an
/// integer that is not negative.
pub open spec fn context_length_of(fields: Seq<(Seq<char>, JsonView)>) -> Option<u64>
    decreases fields.len(),
{
    if fields.len() == 0 {
        None
    } else if finishes_with(fields[0].0, ".context_length"@) && fields[0].1.as_u64() is Some {
        fields[0].1.as_u64()
    } else {
        context_length_of(fields.skip(1))
    }
}

/// The runtime context window that the `parameters` text of an `/api/show` answer sets.
pub open spec fn runtime_window(json: JsonView) -> Option<u64> {
    match json.at("parameters"@).as_str() {
        Some(parameters) => num_ctx_of_lines(lines(parameters)),
        None => None,
    }
}

/// The largest context window of the model, from the `model_info` of an `/api/show` answer.
pub open spec fn model_window(json: JsonView) -> Option<u64> {
    match json.at("model_info"@).as_object() {
        Some(info) => context_length_of(info),
        None => None,
    }
}

/// The context window that an `/api/show` answer tells: the runtime value before the model's
/// own.
pub open spec fn shown_window(json: JsonView) -> Option<u64> {
    match runtime_window(json) {
        Some(n) => Some(n),
        None => model_window(json),
    }
}

/// The context window that a `/props` answer tells.
pub open spec fn props_window(json: JsonView) -> Option<u64> {
    json.at("default_generation_settings"@).at("n_ctx"@).as_u64()
}

/// The model that one item of a listing describes.
pub open spec fn listed_model(item: JsonView, format: ListingFormat) -> Option<ModelView> {
    match format {
        ListingFormat::OpenAi => match item.at("id"@).as_str() {
            Some(id) => Some(
                ModelView { id, context_window: item.at("meta"@).at("n_ctx_train"@).as_u64() },
            ),
            None => None,
        },
        ListingFormat::Ollama => match item.at("name"@).as_str() {
            Some(id) => Some(ModelView { id, context_window: None }),
            None => None,
        },
    }
}

/// The models that `items` describe, in order; what describes none is left out.
pub open spec fn models_in(items: Seq<JsonView>, format: ListingFormat) -> Seq<ModelView>
    decreases items.len(),
{
    if items.len() == 0 {
        Seq::empty()
    } else {
        let before = models_in(items.drop_last(), format);
        match listed_model(items.last(), format) {
            Some(model) => before.push(model),
            None => before,
        }
    }
}

/// The models that a listing describes.
pub open spec fn listed_models(body: JsonView, format: ListingFormat) -> Seq<ModelView> {
    match format {
        ListingFormat::OpenAi => models_in(body.at("data"@).items(), format),
        ListingFormat::Ollama => models_in(body.at("models"@).items(), format),
    }
}

/// A context window once the server-wide `n_ctx` is known: `n_ctx` where the window was
/// unknown or zero, and never more than `n_ctx`.
pub open spec fn capped_window(window: Option<u64>, n_ctx: u64) -> Option<u64> {
    match window {
        None => Some(n_ctx),
        Some(0) => Some(n_ctx),
        Some(w) => if w > n_ctx {
            Some(n_ctx)
        } else {
            Some(w)
        },
    }
}

/// `models` once the server-wide `n_ctx` is known.
pub open spec fn capped_models(models: Seq<ModelView>, n_ctx: u64) -> Seq<ModelView> {
    Seq::new(
        models.len(),
        |i: int|
            ModelView {
                id: models[i].id,
                context_window: capped_window(models[i].context_window, n_ctx),
            },
    )
}

/// The `num_ctx` that a line of parameter text sets.
fn line_num_ctx(line: &str) -> (r: Option<u64>)
    ensures
        r == num_ctx_of_line(line@),
{
    let text = trim(line);
    let parts = split_words(text);
    assert(texts(parts@).len() == parts@.len());
    if parts.len() >= 2 {
        assert(texts(parts@)[0] == parts@[0]@);
        assert(texts(parts@)[1] == parts@[1]@);
        if same_text(parts[0], "num_ctx") {
            return parse_u64(parts[1]);
        }
    }
    None
}

/// The `num_ctx` of the first line of `parameters` that sets one.
fn parameters_num_ctx(parameters: &str) -> (r: Option<u64>)
    ensures
        r == num_ctx_of_lines(lines(parameters@)),
{
    let parts = split_lines(parameters);
    let ghost all = texts(parts@);
    assert(all.skip(0) =~= all);
    let mut i: usize = 0;
    while i < parts.len()
        invariant
            i <= parts@.len(),
            all == texts(parts@),
            all == lines(parameters@),
            num_ctx_of_lines(all) == num_ctx_of_lines(all.skip(i as int)),
        decreases parts@.len() - i,
    {
        assert(all.skip(i as int)[0] == parts@[i as int]@);
        let found = line_num_ctx(parts[i]);
        if found.is_some() {
            return found;
        }
        assert(all.skip(i as int).skip(1) =~= all.skip(i + 1));
        i = i + 1;
    }
    None
}

/// The value of the first field named `<arch>.context_length` that is an integer.
fn info_context_length(info: &Vec<(String, Json)>) -> (r: Option<u64>)
    ensures
        r == context_length_of(field_views(info@)),
{
    let ghost all = field_views(info@);
    assert(all.skip(0) =~= all);
    let mut i: usize = 0;
    while i < info.len()
        invariant
            i <= info@.len(),
            all == field_views(info@),
            context_length_of(all) == context_length_of(all.skip(i as int)),
        decreases info@.len() - i,
    {
        let field = &info[i];
        assert(all.skip(i as int)[0] == (field.0@, field.1@));
        if has_suffix(field.0.as_str(), ".context_length") {
            let found = field.1.as_u64();
            if found.is_some() {
                return found;
            }
        }
        assert(all.skip(i as int).skip(1) =~= all.skip(i + 1));
        i = i + 1;
    }
    None
}

/// Parse the context window from an Ollama `/api/show` response.
///
/// Priority:
/// 1. `parameters` string containing `num_ctx <value>` (runtime config)
/// 2. `model_info.<arch>.context_length` (the model's theoretical maximum)
pub fn parse_ollama_context_window(json: &Json) -> (r: Option<u64>)
    ensures
        r == shown_window(json@),
{
    if let Some(parameters) = json.at("parameters").as_str() {
        let found = parameters_num_ctx(parameters);
        if found.is_some() {
            return found;
        }
    }
    if let Some(info) = json.at("model_info").as_object() {
        return info_context_length(info);
    }
    None
}

/// Parse the runtime context window from a llama.cpp `/props` response.
pub fn parse_props_n_ctx(json: &Json) -> (r: Option<u64>)
    ensures
        r == props_window(json@),
{
    json.at("default_generation_settings").at("n_ctx").as_u64()
}

/// The model that one item of a listing describes.
fn parse_listed_model(item: &Json, format: ListingFormat) -> (r: Option<DiscoveredModel>)
    ensures
        match r {
            Some(model) => listed_model(item@, format) == Some(model@),
            None => listed_model(item@, format) is None,
        },
{
    match format {
        ListingFormat::OpenAi => match item.at("id").as_str() {
            Some(id) => Some(
                DiscoveredModel {
                    id: id.to_owned(),
                    context_window: item.at("meta").at("n_ctx_train").as_u64(),
                },
            ),
            None => None,
        },
        ListingFormat::Ollama => match item.at("name").as_str() {
            Some(name) => Some(DiscoveredModel { id: name.to_owned(), context_window: None }),
            None => None,
        },
    }
}

/// The models that a listing describes, in order. Items that name no model are left out, and
/// a body of another shape lists none.
pub fn parse_models(body: &Json, format: ListingFormat) -> (r: Vec<DiscoveredModel>)
    ensures
        model_views(r@) == listed_models(body@, format),
{
    let listing = match format {
        ListingFormat::OpenAi => body.at("data"),
        ListingFormat::Ollama => body.at("models"),
    };
    let mut models: Vec<DiscoveredModel> = Vec::new();
    assert(model_views(models@) =~= Seq::empty());
    match listing.as_array() {
        Some(items) => {
            let ghost all = json_views(items@);
            assert(all.take(0) =~= Seq::empty());
            let mut i: usize = 0;
            while i < items.len()
                invariant
                    i <= items@.len(),
                    all == json_views(items@),
                    model_views(models@) == models_in(all.take(i as int), format),
                decreases items@.len() - i,
            {
                let ghost before = models@;
                proof {
                    let head = all.take(i + 1);
                    assert(head.drop_last() =~= all.take(i as int));
                    assert(head.last() == items@[i as int]@);
                }
                if let Some(model) = parse_listed_model(&items[i], format) {
                    models.push(model);
                    assert(model_views(models@) =~= model_views(before).push(model@));
                }
                i = i + 1;
            }
            assert(all.take(items@.len() as int) =~= all);
        },
        None => {},
    }
    models
}

/// Applies the server-wide `n_ctx` to every model.
pub fn apply_n_ctx(models: Vec<DiscoveredModel>, n_ctx: u64) -> (r: Vec<DiscoveredModel>)
    ensures
        model_views(r@) == capped_models(model_views(models@), n_ctx),
{
    let mut out: Vec<DiscoveredModel> = Vec::new();
    let mut i: usize = 0;
    while i < models.len()
        invariant
            i <= models@.len(),
            model_views(out@) == capped_models(model_views(models@), n_ctx).take(i as int),
        decreases models@.len() - i,
    {
        let ghost before = out@;
        let mut model = models[i].clone();
        match model.context_window {
            None => {
                model.context_window = Some(n_ctx);
            },
            Some(window) => if window == 0 || window > n_ctx {
                model.context_window = Some(n_ctx);
            },
        }
        out.push(model);
        assert(model_views(out@) =~= model_views(before).push(model@));
        i = i + 1;
    }
    assert(model_views(out@) =~= capped_models(model_views(models@), n_ctx));
    out
}

/// The runtime value that the parameters set takes priority over the model's own window,
/// whatever else the answer says.
pub proof fn law_runtime_window_takes_priority(json: JsonView, n: u64)
    requires
        runtime_window(json) == Some(n),
    ensures
        shown_window(json) == Some(n),
{
}

/// A listing only ever lists what its items describe, in their order: listing `first` and
/// then `second` is listing both together.
pub proof fn law_listing_in_order(
    first: Seq<JsonView>,
    second: Seq<JsonView>,
    format: ListingFormat,
)
    ensures
        models_in(first + second, format) == models_in(first, format) + models_in(second, format),
    decreases second.len(),
{
    if second.len() == 0 {
        assert(first + second =~= first);
        assert(models_in(first, format) + models_in(second, format) =~= models_in(first, format));
    } else {
        law_listing_in_order(first, second.drop_last(), format);
        assert((first + second).drop_last() =~= first + second.drop_last());
        assert((first + second).last() == second.last());
        assert(models_in(first + second, format) =~= models_in(first, format) + models_in(
            second,
            format,
        ));
    }
}

} // verus!
