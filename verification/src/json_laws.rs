//! What holds of JSON values: what is found in them, and what a value stands for.
use vstd::prelude::*;

use crate::json::{
    field_named, field_views, json_views, lemma_array_view, lemma_object_view, Json, JsonNumber,
    JsonNumberView, JsonView,
};

verus! {

/// The field that is found under a name is the first one with exactly that name, wherever it
/// stands and whatever stands around it.
pub proof fn law_field_is_found(fields: Seq<(Seq<char>, JsonView)>, key: Seq<char>, i: int)
    requires
        0 <= i < fields.len(),
        fields[i].0 == key,
        forall|j: int| 0 <= j < i ==> (#[trigger] fields[j]).0 != key,
    ensures
        field_named(fields, key) == Some(fields[i].1),
        JsonView::Object(fields).field(key) == Some(fields[i].1),
        JsonView::Object(fields).at(key) == fields[i].1,
    decreases i,
{
    if i > 0 {
        let rest = fields.skip(1);
        assert(fields[0].0 != key);
        assert forall|j: int| 0 <= j < i - 1 implies (#[trigger] rest[j]).0 != key by {
            assert(rest[j] == fields[j + 1]);
        }
        law_field_is_found(rest, key, i - 1);
    }
}

/// Where no field has the name, nothing is found, and what is read there is null.
pub proof fn law_missing_field(fields: Seq<(Seq<char>, JsonView)>, key: Seq<char>)
    requires
        forall|j: int| 0 <= j < fields.len() ==> (#[trigger] fields[j]).0 != key,
    ensures
        field_named(fields, key) is None,
        JsonView::Object(fields).field(key) is None,
        JsonView::Object(fields).at(key) == JsonView::Null,
    decreases fields.len(),
{
    if fields.len() > 0 {
        let rest = fields.skip(1);
        assert(fields[0].0 != key);
        assert forall|j: int| 0 <= j < rest.len() implies (#[trigger] rest[j]).0 != key by {
            assert(rest[j] == fields[j + 1]);
        }
        law_missing_field(rest, key);
    }
}

/// What is no object has no fields.
pub proof fn law_only_objects_have_fields(json: JsonView, key: Seq<char>)
    requires
        !(json is Object),
    ensures
        json.field(key) is None,
        json.at(key) == JsonView::Null,
        json.as_object() is None,
{
}

/// A string is read as its text, character for character, and nothing else is read as a text.
pub proof fn law_text_is_read(json: JsonView, s: Seq<char>, default: Seq<char>)
    ensures
        JsonView::Str(s).as_str() == Some(s),
        JsonView::Str(s).str_or(default) == s,
        !(json is Str) ==> json.as_str() is None,
        !(json is Str) ==> json.str_or(default) == default,
{
}

/// An integer is read as itself wherever it fits, and nothing else is read as one.
pub proof fn law_integer_is_read(n: u64, m: i64, json: JsonView)
    ensures
        JsonView::Number(JsonNumberView::PosInt(n)).as_u64() == Some(n),
        n <= i64::MAX ==> JsonView::Number(JsonNumberView::PosInt(n)).as_i64() == Some(n as i64),
        n > i64::MAX ==> JsonView::Number(JsonNumberView::PosInt(n)).as_i64() is None,
        JsonView::Number(JsonNumberView::NegInt(m)).as_i64() == Some(m),
        json.as_u64() is Some ==> json matches JsonView::Number(JsonNumberView::PosInt(_)),
        json.as_i64() is Some ==> {
            ||| json matches JsonView::Number(JsonNumberView::PosInt(_))
            ||| json matches JsonView::Number(JsonNumberView::NegInt(_))
        },
{
}

/// An array is read as its items and an object as its fields, all of them and in their order,
/// and nothing else is read as either.
pub proof fn law_contents_are_read(
    items: Seq<JsonView>,
    fields: Seq<(Seq<char>, JsonView)>,
    json: JsonView,
)
    ensures
        JsonView::Array(items).as_array() == Some(items),
        JsonView::Array(items).items() == items,
        JsonView::Object(fields).as_object() == Some(fields),
        !(json is Array) ==> json.as_array() is None,
        !(json is Array) ==> json.items().len() == 0,
        !(json is Object) ==> json.as_object() is None,
{
}

/// A field that is added under a new name is found under it, and every other field stays.
pub proof fn law_added_field(
    fields: Seq<(Seq<char>, JsonView)>,
    key: Seq<char>,
    value: JsonView,
    other: Seq<char>,
)
    requires
        forall|j: int| 0 <= j < fields.len() ==> (#[trigger] fields[j]).0 != key,
        other != key,
    ensures
        JsonView::Object(fields).with(key, value).at(key) == value,
        JsonView::Object(fields).with(key, value).at(other) == JsonView::Object(fields).at(other),
{
    let more = fields.push((key, value));
    assert forall|j: int| 0 <= j < fields.len() implies (#[trigger] more[j]).0 != key by {
        assert(more[j] == fields[j]);
    }
    law_field_is_found(more, key, fields.len() as int);
    if exists|i: int| 0 <= i < fields.len() && (#[trigger] fields[i]).0 == other {
        let i = lemma_first_field(fields, other);
        assert forall|j: int| 0 <= j < i implies (#[trigger] more[j]).0 != other by {
            assert(more[j] == fields[j]);
        }
        law_field_is_found(fields, other, i);
        law_field_is_found(more, other, i);
    } else {
        law_missing_field(fields, other);
        assert forall|j: int| 0 <= j < more.len() implies (#[trigger] more[j]).0 != other by {
            if j < fields.len() {
                assert(more[j] == fields[j]);
            }
        }
        law_missing_field(more, other);
    }
}

proof fn lemma_first_field(fields: Seq<(Seq<char>, JsonView)>, key: Seq<char>) -> (i: int)
    requires
        exists|i: int| 0 <= i < fields.len() && (#[trigger] fields[i]).0 == key,
    ensures
        0 <= i < fields.len(),
        fields[i].0 == key,
        forall|j: int| 0 <= j < i ==> (#[trigger] fields[j]).0 != key,
    decreases fields.len(),
{
    if fields[0].0 == key {
        0
    } else {
        let rest = fields.skip(1);
        let at = choose|i: int| 0 <= i < fields.len() && (#[trigger] fields[i]).0 == key;
        assert(rest[at - 1].0 == key);
        let i = lemma_first_field(rest, key) + 1;
        assert forall|j: int| 0 <= j < i implies (#[trigger] fields[j]).0 != key by {
            if j > 0 {
                assert(rest[j - 1] == fields[j]);
            }
        }
        i
    }
}

/// A value stands for what it holds: the same kind, the same text and numbers, the same items
/// and fields in the same order.
pub proof fn law_json_stands_for_itself(
    b: bool,
    n: u64,
    m: i64,
    text: String,
    items: Vec<Json>,
    fields: Vec<(String, Json)>,
)
    ensures
        Json::Null@ == JsonView::Null,
        Json::Bool(b)@ == JsonView::Bool(b),
        Json::Number(JsonNumber::PosInt(n))@ == JsonView::Number(JsonNumberView::PosInt(n)),
        Json::Number(JsonNumber::NegInt(m))@ == JsonView::Number(JsonNumberView::NegInt(m)),
        Json::Number(JsonNumber::Float(text))@ == JsonView::Number(JsonNumberView::Float(text@)),
        Json::Str(text)@ == JsonView::Str(text@),
        Json::Array(items)@ == JsonView::Array(json_views(items@)),
        json_views(items@).len() == items@.len(),
        forall|i: int|
            0 <= i < items@.len() ==> #[trigger] json_views(items@)[i] == items@[i]@,
        Json::Object(fields)@ == JsonView::Object(field_views(fields@)),
        field_views(fields@).len() == fields@.len(),
        forall|i: int|
            0 <= i < fields@.len() ==> #[trigger] field_views(fields@)[i] == (
                fields@[i].0@,
                fields@[i].1@,
            ),
{
    lemma_array_view(items);
    lemma_object_view(fields);
}

} // verus!
