//! What holds of reading models and context windows out of providers' answers.
use vstd::prelude::*;

use crate::discovery::{
    capped_models, capped_window, context_length_of, law_listing_in_order, listed_model,
    listed_models, model_window, models_in, num_ctx_of_line, num_ctx_of_lines, props_window,
    runtime_window, shown_window, ListingFormat,
};
use crate::json::{JsonNumberView, JsonView};
use crate::provider_health::ModelView;
use crate::text::{
    decimal, finishes_with, is_blank, is_digit, law_decimal_round_trip, lemma_decimal, lines,
    u64_written, words,
};
use crate::text_laws::{blank_free, law_lines, law_suffix, law_words, law_words_of_trimmed};

verus! {

/// Whether a field tells a context length: its name ends with `.context_length`, and its value
/// is an integer that is not negative.
pub open spec fn tells_context_length(field: (Seq<char>, JsonView)) -> bool {
    &&& exists|arch: Seq<char>| field.0 == #[trigger] (arch + ".context_length"@)
    &&& field.1 matches JsonView::Number(JsonNumberView::PosInt(_))
}

proof fn lemma_tells_context_length(field: (Seq<char>, JsonView))
    ensures
        tells_context_length(field) <==> finishes_with(field.0, ".context_length"@)
            && field.1.as_u64() is Some,
{
    let suffix = ".context_length"@;
    if finishes_with(field.0, suffix) {
        law_suffix(field.0, Seq::empty(), suffix);
        assert(field.0 == field.0.take(field.0.len() - suffix.len()) + suffix);
    }
    if exists|arch: Seq<char>| field.0 == #[trigger] (arch + suffix) {
        let arch = choose|arch: Seq<char>| field.0 == #[trigger] (arch + suffix);
        law_suffix(field.0, arch, suffix);
    }
}

proof fn lemma_context_length_of(fields: Seq<(Seq<char>, JsonView)>, i: int)
    requires
        0 <= i <= fields.len(),
        forall|j: int| 0 <= j < i ==> !tells_context_length(#[trigger] fields[j]),
        i < fields.len() ==> tells_context_length(fields[i]),
    ensures
        context_length_of(fields) == (if i < fields.len() {
            fields[i].1.as_u64()
        } else {
            None
        }),
    decreases fields.len(),
{
    if fields.len() > 0 {
        lemma_tells_context_length(fields[0]);
        if i > 0 {
            let rest = fields.skip(1);
            assert(!tells_context_length(fields[0]));
            assert forall|j: int| 0 <= j < i - 1 implies !tells_context_length(
                #[trigger] rest[j],
            ) by {
                assert(rest[j] == fields[j + 1]);
            }
            lemma_context_length_of(rest, i - 1);
        }
    }
}

/// Where the parameters set no `num_ctx`, the context window is the first context length that
/// `model_info` tells, wherever it stands and whatever other fields stand around it.
pub proof fn law_context_length_is_found(
    json: JsonView,
    fields: Seq<(Seq<char>, JsonView)>,
    i: int,
    arch: Seq<char>,
    n: u64,
)
    requires
        runtime_window(json) is None,
        json.at("model_info"@) == JsonView::Object(fields),
        0 <= i < fields.len(),
        fields[i] == (
            arch + ".context_length"@,
            JsonView::Number(JsonNumberView::PosInt(n)),
        ),
        forall|j: int| 0 <= j < i ==> !tells_context_length(#[trigger] fields[j]),
    ensures
        shown_window(json) == Some(n),
        model_window(json) == Some(n),
{
    assert(fields[i].0 == arch + ".context_length"@);
    assert(tells_context_length(fields[i]));
    lemma_context_length_of(fields, i);
}

/// Where the parameters set no `num_ctx` and no field of `model_info` tells a context length,
/// or there is no `model_info`, no context window is found.
pub proof fn law_no_context_window(json: JsonView)
    requires
        runtime_window(json) is None,
        json.at("model_info"@) matches JsonView::Object(fields) ==> forall|j: int|
            0 <= j < fields.len() ==> !tells_context_length(#[trigger] fields[j]),
    ensures
        shown_window(json) is None,
{
    if let JsonView::Object(fields) = json.at("model_info"@) {
        lemma_context_length_of(fields, fields.len() as int);
    }
}

/// A line sets `num_ctx` exactly where its first word is `num_ctx`, and then to the number that
/// its second word writes; blanks around the words make no difference.
pub proof fn law_line_sets_num_ctx(line: Seq<char>)
    ensures
        words(line).len() >= 2 && words(line)[0] == "num_ctx"@ ==> num_ctx_of_line(line)
            == u64_written(words(line)[1]),
        !(words(line).len() >= 2 && words(line)[0] == "num_ctx"@) ==> num_ctx_of_line(line) is None,
{
    law_words_of_trimmed(line);
}

/// Every number can be set: `num_ctx`, any blanks and the number.
pub proof fn law_num_ctx_is_read(blanks: Seq<char>, n: u64)
    requires
        blanks.len() > 0,
        forall|i: int| 0 <= i < blanks.len() ==> is_blank(#[trigger] blanks[i]),
    ensures
        num_ctx_of_line("num_ctx"@ + blanks + decimal(n as nat)) == Some(n),
{
    reveal_strlit("num_ctx");
    let name = "num_ctx"@;
    let digits = decimal(n as nat);
    lemma_decimal(n as nat);
    assert(blank_free(name));
    assert(blank_free(digits)) by {
        assert forall|i: int| 0 <= i < digits.len() implies !is_blank(#[trigger] digits[i]) by {
            assert(is_digit(digits[i]));
        }
    }
    let rest = blanks.skip(1) + digits;
    lemma_words_after_blanks(blanks.skip(1), digits);
    assert(is_blank(blanks[0]));
    law_words(name, blanks[0], rest);
    law_words(digits, blanks[0], rest);
    assert(name + seq![blanks[0]] + rest =~= name + blanks + digits);
    let line = name + blanks + digits;
    assert(words(line) == seq![name] + seq![digits]);
    assert(words(line)[0] == name && words(line)[1] == digits);
    law_line_sets_num_ctx(line);
    law_decimal_round_trip(n);
}

proof fn lemma_words_after_blanks(blanks: Seq<char>, rest: Seq<char>)
    requires
        forall|i: int| 0 <= i < blanks.len() ==> is_blank(#[trigger] blanks[i]),
    ensures
        words(blanks + rest) == words(rest),
    decreases blanks.len(),
{
    if blanks.len() == 0 {
        assert(blanks + rest =~= rest);
    } else {
        assert(is_blank(blanks[0]));
        assert((blanks + rest).skip(1) =~= blanks.skip(1) + rest);
        assert forall|i: int| 0 <= i < blanks.skip(1).len() implies is_blank(
            #[trigger] blanks.skip(1)[i],
        ) by {
            assert(is_blank(blanks[i + 1]));
        }
        lemma_words_after_blanks(blanks.skip(1), rest);
    }
}

proof fn lemma_num_ctx_of_lines(all: Seq<Seq<char>>, i: int)
    requires
        0 <= i <= all.len(),
        forall|j: int| 0 <= j < i ==> num_ctx_of_line(#[trigger] all[j]) is None,
        i < all.len() ==> num_ctx_of_line(all[i]) is Some,
    ensures
        num_ctx_of_lines(all) == (if i < all.len() {
            num_ctx_of_line(all[i])
        } else {
            None
        }),
    decreases all.len(),
{
    if all.len() > 0 && i > 0 {
        let rest = all.skip(1);
        assert(num_ctx_of_line(all[0]) is None);
        assert forall|j: int| 0 <= j < i - 1 implies num_ctx_of_line(#[trigger] rest[j]) is None by {
            assert(rest[j] == all[j + 1]);
        }
        lemma_num_ctx_of_lines(rest, i - 1);
    }
}

/// The first line of the parameters that sets `num_ctx` tells the context window, wherever it
/// stands, whatever the lines around it say, and whatever `model_info` says.
pub proof fn law_first_num_ctx_counts(json: JsonView, parameters: Seq<char>, i: int, n: u64)
    requires
        json.at("parameters"@) == JsonView::Str(parameters),
        0 <= i < lines(parameters).len(),
        num_ctx_of_line(lines(parameters)[i]) == Some(n),
        forall|j: int| 0 <= j < i ==> num_ctx_of_line(#[trigger] lines(parameters)[j]) is None,
    ensures
        runtime_window(json) == Some(n),
        shown_window(json) == Some(n),
{
    lemma_num_ctx_of_lines(lines(parameters), i);
}

/// Where no line of the parameters sets `num_ctx`, or the parameters are no text, there is no
/// runtime value.
pub proof fn law_no_num_ctx(json: JsonView)
    requires
        json.at("parameters"@) matches JsonView::Str(parameters) ==> forall|j: int|
            0 <= j < lines(parameters).len() ==> num_ctx_of_line(
                #[trigger] lines(parameters)[j],
            ) is None,
    ensures
        runtime_window(json) is None,
{
    if let JsonView::Str(parameters) = json.at("parameters"@) {
        lemma_num_ctx_of_lines(lines(parameters), lines(parameters).len() as int);
    }
}

/// Parameters with `num_ctx` and a number on a line of its own, before any other line, give
/// that number.
pub proof fn law_num_ctx_before_other_lines(
    json: JsonView,
    blanks: Seq<char>,
    n: u64,
    rest: Seq<char>,
)
    requires
        blanks.len() > 0,
        forall|i: int| 0 <= i < blanks.len() ==> is_blank(#[trigger] blanks[i]) && blanks[i]
            != '\n',
        json.at("parameters"@) == JsonView::Str(
            "num_ctx"@ + blanks + decimal(n as nat) + seq!['\n'] + rest,
        ),
    ensures
        shown_window(json) == Some(n),
{
    reveal_strlit("num_ctx");
    let line = "num_ctx"@ + blanks + decimal(n as nat);
    lemma_decimal(n as nat);
    assert forall|i: int| 0 <= i < line.len() implies line[i] != '\n' by {
        if i < 7 {
            assert(line[i] == "num_ctx"@[i]);
        } else if i < 7 + blanks.len() {
            assert(line[i] == blanks[i - 7]);
        } else {
            assert(is_digit(decimal(n as nat)[i - 7 - blanks.len()]));
        }
    }
    assert(is_digit(decimal(n as nat)[decimal(n as nat).len() - 1]));
    assert(line.last() == decimal(n as nat)[decimal(n as nat).len() - 1]);
    law_lines(line, rest);
    law_num_ctx_is_read(blanks, n);
    let parameters = line + seq!['\n'] + rest;
    assert(lines(parameters)[0] == line);
    law_first_num_ctx_counts(json, parameters, 0, n);
}

/// The server-wide context window is `n_ctx` of `default_generation_settings`, where that is an
/// integer that is not negative.
pub proof fn law_props_tell_n_ctx(json: JsonView, n: u64)
    ensures
        json.at("default_generation_settings"@).at("n_ctx"@) == JsonView::Number(
            JsonNumberView::PosInt(n),
        ) ==> props_window(json) == Some(n),
        props_window(json) == Some(n) ==> json.at("default_generation_settings"@).at("n_ctx"@)
            == JsonView::Number(JsonNumberView::PosInt(n)),
{
}

/// An item with an ID in an OpenAI-compatible listing is a model with exactly that ID, and with
/// the window that its `meta` tells; an item with a name in an Ollama listing is a model with
/// exactly that name, without a window. Any other item is none.
pub proof fn law_item_is_a_model(item: JsonView, id: Seq<char>, n: u64)
    ensures
        item.at("id"@) == JsonView::Str(id) ==> {
            &&& listed_model(item, ListingFormat::OpenAi) matches Some(model)
            &&& model.id == id
            &&& item.at("meta"@).at("n_ctx_train"@) == JsonView::Number(JsonNumberView::PosInt(n))
                ==> model.context_window == Some(n)
            &&& model.context_window == Some(n) ==> item.at("meta"@).at("n_ctx_train"@)
                == JsonView::Number(JsonNumberView::PosInt(n))
        },
        !(item.at("id"@) is Str) ==> listed_model(item, ListingFormat::OpenAi) is None,
        item.at("name"@) == JsonView::Str(id) ==> {
            &&& listed_model(item, ListingFormat::Ollama) matches Some(model)
            &&& model.id == id
            &&& model.context_window is None
        },
        !(item.at("name"@) is Str) ==> listed_model(item, ListingFormat::Ollama) is None,
{
}

/// Every item that is a model is listed in its place, after the models before it and before
/// those after it; an item that is none leaves the listing as it is without it.
pub proof fn law_every_item_is_listed(
    before: Seq<JsonView>,
    item: JsonView,
    after: Seq<JsonView>,
    format: ListingFormat,
)
    ensures
        listed_model(item, format) matches Some(model) ==> models_in(
            before + seq![item] + after,
            format,
        ) == models_in(before, format) + seq![model] + models_in(after, format),
        listed_model(item, format) is None ==> models_in(before + seq![item] + after, format)
            == models_in(before, format) + models_in(after, format),
        models_in(Seq::empty(), format) == Seq::<ModelView>::empty(),
{
    law_listing_in_order(before + seq![item], after, format);
    law_listing_in_order(before, seq![item], format);
    let alone = models_in(seq![item], format);
    assert(seq![item].drop_last() =~= Seq::empty());
    assert(seq![item].last() == item);
    assert(models_in(seq![item].drop_last(), format) =~= Seq::empty());
    if let Some(model) = listed_model(item, format) {
        assert(alone =~= seq![model]);
    } else {
        assert(alone =~= Seq::empty());
        assert(models_in(before, format) + alone =~= models_in(before, format));
    }
}

/// An OpenAI-compatible listing is read from `data`, an Ollama listing from `models`; where
/// that is no array nothing is listed.
pub proof fn law_listing_is_read(body: JsonView, items: Seq<JsonView>)
    ensures
        body.at("data"@) == JsonView::Array(items) ==> listed_models(body, ListingFormat::OpenAi)
            == models_in(items, ListingFormat::OpenAi),
        body.at("models"@) == JsonView::Array(items) ==> listed_models(body, ListingFormat::Ollama)
            == models_in(items, ListingFormat::Ollama),
        !(body.at("data"@) is Array) ==> listed_models(body, ListingFormat::OpenAi).len() == 0,
        !(body.at("models"@) is Array) ==> listed_models(body, ListingFormat::Ollama).len() == 0,
{
}

/// A window that is known, not zero and not above the server-wide one stays; any other becomes
/// the server-wide one. The models and their order stay.
pub proof fn law_n_ctx_applies(models: Seq<ModelView>, n_ctx: u64, i: int)
    requires
        0 <= i < models.len(),
    ensures
        capped_models(models, n_ctx).len() == models.len(),
        capped_models(models, n_ctx)[i].id == models[i].id,
        models[i].context_window matches Some(w) ==> 0 < w <= n_ctx ==> capped_models(
            models,
            n_ctx,
        )[i].context_window == Some(w),
        !(models[i].context_window matches Some(w) && 0 < w <= n_ctx) ==> capped_models(
            models,
            n_ctx,
        )[i].context_window == Some(n_ctx),
        capped_models(models, n_ctx)[i].context_window == capped_window(
            models[i].context_window,
            n_ctx,
        ),
{
}

} // verus!
