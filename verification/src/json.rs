//! JSON documents: the values that the library reads and builds, and how they are parsed.
use vstd::prelude::*;

use crate::text::same_text;

verus! {

/// A JSON number: an integer that is not negative, a negative integer, or any other number
/// by its text.
#[derive(Debug, PartialEq)]
pub enum JsonNumber {
    PosInt(u64),
    NegInt(i64),
    Float(String),
}

/// A JSON value. The fields of an object stand in the order in which the object gives them.
#[derive(Debug, PartialEq)]
pub enum Json {
    Null,
    Bool(bool),
    Number(JsonNumber),
    Str(String),
    Array(Vec<Json>),
    Object(Vec<(String, Json)>),
}

/// What a JSON number is.
pub enum JsonNumberView {
    PosInt(u64),
    NegInt(i64),
    Float(Seq<char>),
}

/// What a JSON value is.
pub enum JsonView {
    Null,
    Bool(bool),
    Number(JsonNumberView),
    Str(Seq<char>),
    Array(Seq<JsonView>),
    Object(Seq<(Seq<char>, JsonView)>),
}

impl View for JsonNumber {
    type V = JsonNumberView;

    open spec fn view(&self) -> JsonNumberView {
        match self {
            JsonNumber::PosInt(n) => JsonNumberView::PosInt(*n),
            JsonNumber::NegInt(n) => JsonNumberView::NegInt(*n),
            JsonNumber::Float(text) => JsonNumberView::Float(text@),
        }
    }
}

/// What `json` is.
pub open spec fn json_view(json: Json) -> JsonView
    decreases json,
{
    match json {
        Json::Null => JsonView::Null,
        Json::Bool(b) => JsonView::Bool(b),
        Json::Number(n) => JsonView::Number(n@),
        Json::Str(s) => JsonView::Str(s@),
        Json::Array(items) => JsonView::Array(
            Seq::new(
                items@.len(),
                |i: int|
                    if 0 <= i < items@.len() {
                        json_view(items@[i])
                    } else {
                        JsonView::Null
                    },
            ),
        ),
        Json::Object(fields) => JsonView::Object(
            Seq::new(
                fields@.len(),
                |i: int|
                    if 0 <= i < fields@.len() {
                        (fields@[i].0@, json_view(fields@[i].1))
                    } else {
                        (Seq::empty(), JsonView::Null)
                    },
            ),
        ),
    }
}

impl View for Json {
    type V = JsonView;

    open spec fn view(&self) -> JsonView {
        json_view(*self)
    }
}

/// What the values in `items` are.
pub open spec fn json_views(items: Seq<Json>) -> Seq<JsonView> {
    Seq::new(items.len(), |i: int| items[i]@)
}

/// What the fields in `fields` are.
pub open spec fn field_views(fields: Seq<(String, Json)>) -> Seq<(Seq<char>, JsonView)> {
    Seq::new(fields.len(), |i: int| (fields[i].0@, fields[i].1@))
}

/// The value of the first field named `key`.
pub open spec fn field_named(fields: Seq<(Seq<char>, JsonView)>, key: Seq<char>) -> Option<JsonView>
    decreases fields.len(),
{
    if fields.len() == 0 {
        None
    } else if fields[0].0 == key {
        Some(fields[0].1)
    } else {
        field_named(fields.skip(1), key)
    }
}

impl JsonView {
    /// The value of the field `key` of an object.
    pub open spec fn field(self, key: Seq<char>) -> Option<JsonView> {
        match self {
            JsonView::Object(fields) => field_named(fields, key),
            _ => None,
        }
    }

    /// The value of the field `key`, or null where there is none.
    pub open spec fn at(self, key: Seq<char>) -> JsonView {
        match self.field(key) {
            Some(value) => value,
            None => JsonView::Null,
        }
    }

    /// The text of a string.
    pub open spec fn as_str(self) -> Option<Seq<char>> {
        match self {
            JsonView::Str(s) => Some(s),
            _ => None,
        }
    }

    /// The text of a string, or `default` where the value is no string.
    pub open spec fn str_or(self, default: Seq<char>) -> Seq<char> {
        match self {
            JsonView::Str(s) => s,
            _ => default,
        }
    }

    /// The integer that a number is, if it is one from zero to `u64::MAX`.
    pub open spec fn as_u64(self) -> Option<u64> {
        match self {
            JsonView::Number(JsonNumberView::PosInt(n)) => Some(n),
            _ => None,
        }
    }

    /// The integer that a number is, if it is one from `i64::MIN` to `i64::MAX`.
    pub open spec fn as_i64(self) -> Option<i64> {
        match self {
            JsonView::Number(JsonNumberView::PosInt(n)) => if n <= i64::MAX {
                Some(n as i64)
            } else {
                None
            },
            JsonView::Number(JsonNumberView::NegInt(n)) => Some(n),
            _ => None,
        }
    }

    /// The items of an array.
    pub open spec fn as_array(self) -> Option<Seq<JsonView>> {
        match self {
            JsonView::Array(items) => Some(items),
            _ => None,
        }
    }

    /// The items of an array, or none where the value is no array.
    pub open spec fn items(self) -> Seq<JsonView> {
        match self {
            JsonView::Array(items) => items,
            _ => Seq::empty(),
        }
    }

    /// An object with one more field after the ones of `self`; any other value as it is.
    pub open spec fn with(self, key: Seq<char>, value: JsonView) -> JsonView {
        match self {
            JsonView::Object(fields) => JsonView::Object(fields.push((key, value))),
            other => other,
        }
    }

    /// The fields of an object.
    pub open spec fn as_object(self) -> Option<Seq<(Seq<char>, JsonView)>> {
        match self {
            JsonView::Object(fields) => Some(fields),
            _ => None,
        }
    }
}

/// An array is the sequence of what its items are.
pub broadcast proof fn lemma_array_view(items: Vec<Json>)
    ensures
        #[trigger] Json::Array(items)@ == JsonView::Array(json_views(items@)),
{
    let all = Json::Array(items)@->Array_0;
    assert forall|i: int| 0 <= i < all.len() implies all[i] == json_views(items@)[i] by {
        assert(all[i] == items@[i]@);
    }
    assert(all =~= json_views(items@));
}

/// An object is the sequence of what its fields are.
pub broadcast proof fn lemma_object_view(fields: Vec<(String, Json)>)
    ensures
        #[trigger] Json::Object(fields)@ == JsonView::Object(field_views(fields@)),
{
    let all = Json::Object(fields)@->Object_0;
    assert forall|i: int| 0 <= i < all.len() implies all[i] == field_views(fields@)[i] by {
        assert(all[i].1 == fields@[i].1@);
    }
    assert(all =~= field_views(fields@));
}

impl Clone for JsonNumber {
    fn clone(&self) -> (r: Self)
        ensures
            r@ == self@,
    {
        match self {
            JsonNumber::PosInt(n) => JsonNumber::PosInt(*n),
            JsonNumber::NegInt(n) => JsonNumber::NegInt(*n),
            JsonNumber::Float(text) => JsonNumber::Float(text.clone()),
        }
    }
}

impl Clone for Json {
    fn clone(&self) -> (r: Self)
        ensures
            r@ == self@,
        decreases self,
    {
        broadcast use {lemma_array_view, lemma_object_view};

        match self {
            Json::Null => Json::Null,
            Json::Bool(b) => Json::Bool(*b),
            Json::Number(n) => Json::Number(n.clone()),
            Json::Str(s) => Json::Str(s.clone()),
            Json::Array(items) => {
                let mut copy: Vec<Json> = Vec::new();
                let mut i: usize = 0;
                while i < items.len()
                    invariant
                        i <= items@.len(),
                        self == Json::Array(*items),
                        json_views(copy@) == json_views(items@).take(i as int),
                    decreases items@.len() - i,
                {
                    let ghost before = copy@;
                    assert(decreases_to!(*self => self->Array_0@[i as int]));
                    copy.push(items[i].clone());
                    i = i + 1;
                    assert(json_views(copy@) =~= json_views(before).push(items@[i - 1]@));
                }
                assert(json_views(copy@) =~= json_views(items@));
                Json::Array(copy)
            },
            Json::Object(fields) => {
                let mut copy: Vec<(String, Json)> = Vec::new();
                let mut i: usize = 0;
                while i < fields.len()
                    invariant
                        i <= fields@.len(),
                        self == Json::Object(*fields),
                        field_views(copy@) == field_views(fields@).take(i as int),
                    decreases fields@.len() - i,
                {
                    let ghost before = copy@;
                    let field = &fields[i];
                    assert(decreases_to!(*self => self->Object_0@[i as int].1));
                    copy.push((field.0.clone(), field.1.clone()));
                    i = i + 1;
                    assert(field_views(copy@) =~= field_views(before).push(
                        (fields@[i - 1].0@, fields@[i - 1].1@),
                    ));
                }
                assert(field_views(copy@) =~= field_views(fields@));
                Json::Object(copy)
            },
        }
    }
}

impl Json {
    /// The value of the field `key` of an object.
    pub fn get<'a>(&'a self, key: &str) -> (r: Option<&'a Json>)
        ensures
            match r {
                Some(value) => self@.field(key@) == Some(value@),
                None => self@.field(key@) is None,
            },
    {
        broadcast use lemma_object_view;

        match self {
            Json::Object(fields) => {
                let ghost all = field_views(fields@);
                let mut i: usize = 0;
                assert(all.skip(0) =~= all);
                while i < fields.len()
                    invariant
                        i <= fields@.len(),
                        all == field_views(fields@),
                        self@ == JsonView::Object(all),
                        field_named(all, key@) == field_named(all.skip(i as int), key@),
                    decreases fields@.len() - i,
                {
                    let field = &fields[i];
                    if same_text(field.0.as_str(), key) {
                        return Some(&field.1);
                    }
                    assert(all.skip(i as int).skip(1) =~= all.skip(i + 1));
                    i = i + 1;
                }
                None
            },
            _ => None,
        }
    }

    /// The value of the field `key`, or null where there is none.
    pub fn at<'a>(&'a self, key: &str) -> (r: &'a Json)
        ensures
            r@ == self@.at(key@),
    {
        match self.get(key) {
            Some(value) => value,
            None => &Json::Null,
        }
    }

    /// Whether the value is null.
    pub fn is_null(&self) -> (r: bool)
        ensures
            r == (self@ == JsonView::Null),
    {
        match self {
            Json::Null => true,
            _ => false,
        }
    }

    /// The text of a string.
    pub fn as_str<'a>(&'a self) -> (r: Option<&'a str>)
        ensures
            match r {
                Some(s) => self@.as_str() == Some(s@),
                None => self@.as_str() is None,
            },
    {
        match self {
            Json::Str(s) => Some(s.as_str()),
            _ => None,
        }
    }

    /// The text of a string, or `default` where the value is no string.
    pub fn str_or<'a>(&'a self, default: &'a str) -> (r: &'a str)
        ensures
            r@ == self@.str_or(default@),
    {
        match self {
            Json::Str(s) => s.as_str(),
            _ => default,
        }
    }

    /// The integer that a number is, if it is one from zero to `u64::MAX`.
    pub fn as_u64(&self) -> (r: Option<u64>)
        ensures
            r == self@.as_u64(),
    {
        match self {
            Json::Number(JsonNumber::PosInt(n)) => Some(*n),
            _ => None,
        }
    }

    /// The integer that a number is, if it is one from `i64::MIN` to `i64::MAX`.
    pub fn as_i64(&self) -> (r: Option<i64>)
        ensures
            r == self@.as_i64(),
    {
        match self {
            Json::Number(JsonNumber::PosInt(n)) => if *n <= i64::MAX as u64 {
                Some(*n as i64)
            } else {
                None
            },
            Json::Number(JsonNumber::NegInt(n)) => Some(*n),
            _ => None,
        }
    }

    /// The items of an array.
    pub fn as_array<'a>(&'a self) -> (r: Option<&'a Vec<Json>>)
        ensures
            match r {
                Some(items) => self@.as_array() == Some(json_views(items@)),
                None => self@.as_array() is None,
            },
    {
        broadcast use lemma_array_view;

        match self {
            Json::Array(items) => Some(items),
            _ => None,
        }
    }

    /// The fields of an object.
    pub fn as_object<'a>(&'a self) -> (r: Option<&'a Vec<(String, Json)>>)
        ensures
            match r {
                Some(fields) => self@.as_object() == Some(field_views(fields@)),
                None => self@.as_object() is None,
            },
    {
        broadcast use lemma_object_view;

        match self {
            Json::Object(fields) => Some(fields),
            _ => None,
        }
    }

    /// A copy of the items of an array, or nothing where the value is no array.
    pub fn items(&self) -> (r: Vec<Json>)
        ensures
            json_views(r@) == self@.items(),
    {
        broadcast use lemma_array_view;

        match self.clone() {
            Json::Array(items) => items,
            _ => {
                let none: Vec<Json> = Vec::new();
                assert(json_views(none@) =~= Seq::empty());
                none
            },
        }
    }

    /// A string.
    pub fn text(s: &str) -> (r: Json)
        ensures
            r@ == JsonView::Str(s@),
    {
        Json::Str(s.to_owned())
    }

    /// An integer that is not negative.
    pub fn integer(n: u64) -> (r: Json)
        ensures
            r@ == JsonView::Number(JsonNumberView::PosInt(n)),
    {
        Json::Number(JsonNumber::PosInt(n))
    }

    /// An object without fields.
    pub fn object() -> (r: Json)
        ensures
            r@ == JsonView::Object(Seq::empty()),
    {
        broadcast use lemma_object_view;

        let fields: Vec<(String, Json)> = Vec::new();
        assert(field_views(fields@) =~= Seq::empty());
        Json::Object(fields)
    }

    /// An object with one more field after the ones of `self`; any other value as it is.
    pub fn with(self, key: &str, value: Json) -> (r: Json)
        ensures
            r@ == self@.with(key@, value@),
    {
        broadcast use lemma_object_view;

        match self {
            Json::Object(fields) => {
                let mut more = fields;
                more.push((key.to_owned(), value));
                assert(field_views(more@) =~= field_views(fields@).push((key@, value@)));
                Json::Object(more)
            },
            other => other,
        }
    }
}

/// Declares `serde_json::Value`, a JSON document as the parser hands it over.
#[verifier::external_type_specification]
#[verifier::external_body]
pub struct ExValue(serde_json::Value);

/// What a `serde_json::Value` holds.
pub uninterp spec fn json_content(value: serde_json::Value) -> JsonView;

/// What `serde_json::from_slice` makes of `bytes`: the document, or its message why they are
/// none.
pub uninterp spec fn parsed_json(bytes: Seq<u8>) -> Result<JsonView, Seq<char>>;

/// `serde_json::from_slice` reads `bytes` as one JSON document. The outcome depends on the
/// bytes alone and is named `parsed_json`: the content of the document, or the text of the
/// error.
#[verifier::external_body]
fn value_from_slice(bytes: &[u8]) -> (r: Result<serde_json::Value, String>)
    ensures
        match r {
            Ok(value) => parsed_json(bytes@) == Ok::<JsonView, Seq<char>>(json_content(value)),
            Err(message) => parsed_json(bytes@) == Err::<JsonView, Seq<char>>(message@),
        },
{
    serde_json::from_slice(bytes).map_err(|e: serde_json::Error| e.to_string())
}

/// One level of a `serde_json::Value`: its kind, and what stands directly in it.
enum JsonNode<'a> {
    Null,
    Bool(bool),
    Number(JsonNumber),
    Str(&'a String),
    Array(&'a Vec<serde_json::Value>),
    Object(Vec<(&'a String, &'a serde_json::Value)>),
}

/// What the items of an array hold.
spec fn item_contents(items: Seq<serde_json::Value>) -> Seq<JsonView> {
    Seq::new(items.len(), |i: int| json_content(items[i]))
}

/// What the fields of an object hold.
spec fn field_contents(fields: Seq<(&String, &serde_json::Value)>) -> Seq<(Seq<char>, JsonView)> {
    Seq::new(fields.len(), |i: int| (fields[i].0@, json_content(*fields[i].1)))
}

/// What a value holds, from its first level.
spec fn node_content(node: JsonNode) -> JsonView {
    match node {
        JsonNode::Null => JsonView::Null,
        JsonNode::Bool(b) => JsonView::Bool(b),
        JsonNode::Number(n) => JsonView::Number(n@),
        JsonNode::Str(s) => JsonView::Str(s@),
        JsonNode::Array(items) => JsonView::Array(item_contents(items@)),
        JsonNode::Object(fields) => JsonView::Object(field_contents(fields@)),
    }
}

/// A value holds what stands on its first level: the same text, items and fields, in their order.
proof fn law_level_is_kept(node: JsonNode)
    ensures
        node matches JsonNode::Bool(b) ==> node_content(node) == JsonView::Bool(b),
        node matches JsonNode::Number(n) ==> node_content(node) == JsonView::Number(n@),
        node matches JsonNode::Str(s) ==> node_content(node) == JsonView::Str(s@),
        node matches JsonNode::Array(items) ==> node_content(node) matches JsonView::Array(all)
            && all.len() == items@.len() && forall|i: int|
            0 <= i < all.len() ==> #[trigger] all[i] == json_content(items@[i]),
        node matches JsonNode::Object(fields) ==> node_content(node) matches JsonView::Object(all)
            && all.len() == fields@.len() && forall|i: int|
            0 <= i < all.len() ==> #[trigger] all[i] == (
                fields@[i].0@,
                json_content(*fields@[i].1),
            ),
        node is Null ==> node_content(node) == JsonView::Null,
{
}

/// Tells the kinds of `serde_json::Value` apart. A number is told by `Number::as_u64`, then
/// by `Number::as_i64`, and is its text where it is no integer of either kind; the fields of
/// an object come in the order of `Map::iter`. What the value holds is what stands in it.
#[verifier::external_body]
fn open_value<'a>(value: &'a serde_json::Value) -> (r: JsonNode<'a>)
    ensures
        node_content(r) == json_content(*value),
{
    match value {
        serde_json::Value::Null => JsonNode::Null,
        serde_json::Value::Bool(b) => JsonNode::Bool(*b),
        serde_json::Value::Number(n) => JsonNode::Number(match (n.as_u64(), n.as_i64()) {
            (Some(n), _) => JsonNumber::PosInt(n),
            (None, Some(n)) => JsonNumber::NegInt(n),
            (None, None) => JsonNumber::Float(n.to_string()),
        }),
        serde_json::Value::String(s) => JsonNode::Str(s),
        serde_json::Value::Array(items) => JsonNode::Array(items),
        serde_json::Value::Object(fields) => JsonNode::Object(fields.iter().collect()),
    }
}

/// The library's own form of a parsed document.
fn json_of(value: &serde_json::Value) -> (r: Json)
    ensures
        r@ == json_content(*value),
    decreases json_content(*value),
{
    broadcast use {lemma_array_view, lemma_object_view};

    match open_value(value) {
        JsonNode::Null => Json::Null,
        JsonNode::Bool(b) => Json::Bool(b),
        JsonNode::Number(n) => Json::Number(n),
        JsonNode::Str(s) => Json::Str(s.clone()),
        JsonNode::Array(items) => {
            let ghost all = item_contents(items@);
            let mut out: Vec<Json> = Vec::new();
            let mut i: usize = 0;
            while i < items.len()
                invariant
                    i <= items@.len(),
                    all == item_contents(items@),
                    json_content(*value) == JsonView::Array(all),
                    json_views(out@) == all.take(i as int),
                decreases items@.len() - i,
            {
                let ghost before = out@;
                assert(decreases_to!(json_content(*value) => json_content(*value)->Array_0[i as int]));
                out.push(json_of(&items[i]));
                assert(json_views(out@) =~= json_views(before).push(all[i as int]));
                i = i + 1;
            }
            assert(json_views(out@) =~= all);
            Json::Array(out)
        },
        JsonNode::Object(fields) => {
            let ghost all = field_contents(fields@);
            let mut out: Vec<(String, Json)> = Vec::new();
            let mut i: usize = 0;
            while i < fields.len()
                invariant
                    i <= fields@.len(),
                    all == field_contents(fields@),
                    json_content(*value) == JsonView::Object(all),
                    field_views(out@) == all.take(i as int),
                decreases fields@.len() - i,
            {
                let ghost before = out@;
                let field = &fields[i];
                assert(decreases_to!(json_content(*value)
                    => json_content(*value)->Object_0[i as int].1));
                out.push((field.0.clone(), json_of(field.1)));
                assert(field_views(out@) =~= field_views(before).push(all[i as int]));
                i = i + 1;
            }
            assert(field_views(out@) =~= all);
            Json::Object(out)
        },
    }
}

/// Reads `bytes` as one JSON document, or gives the parser's message why they are none.
pub fn decode_json(bytes: &[u8]) -> (r: Result<Json, String>)
    ensures
        match r {
            Ok(json) => parsed_json(bytes@) == Ok::<JsonView, Seq<char>>(json@),
            Err(message) => parsed_json(bytes@) == Err::<JsonView, Seq<char>>(message@),
        },
{
    match value_from_slice(bytes) {
        Ok(value) => Ok(json_of(&value)),
        Err(message) => Err(message),
    }
}

} // verus!
