//! JSON documents as plain values, read and written by `serde_json`.

use vstd::prelude::*;

verus! {

/// A JSON document.
///
/// This is what `serde_json` reports of a text, held in plain values: a
/// number is kept when it is an integer that fits `i64`, and only marked as
/// a number otherwise; the members of an object stand in the order in which
/// `serde_json` hands them out, each key once.
#[derive(Debug, PartialEq, Eq)]
pub enum Json {
    Null,
    Bool(bool),
    /// A number that is an integer within `i64`.
    Integer(i64),
    /// Any other number: a fraction, or an integer beyond `i64`.
    OtherNumber,
    Text(String),
    Array(Vec<Json>),
    Object(Vec<(String, Json)>),
}

/// A JSON document as a mathematical value.
pub enum JsonView {
    Null,
    Bool(bool),
    Integer(int),
    OtherNumber,
    Text(Seq<char>),
    Array(Seq<JsonView>),
    Object(Seq<(Seq<char>, JsonView)>),
}

/// The mathematical value of a document.
pub open spec fn json_view(json: Json) -> JsonView
    decreases json,
{
    match json {
        Json::Null => JsonView::Null,
        Json::Bool(flag) => JsonView::Bool(flag),
        Json::Integer(number) => JsonView::Integer(number as int),
        Json::OtherNumber => JsonView::OtherNumber,
        Json::Text(text) => JsonView::Text(text@),
        Json::Array(items) => JsonView::Array(
            Seq::new(
                items@.len(),
                |i: int|
                    if 0 <= i < items@.len() {
                        json_view(items@[i])
                    } else {
                        JsonView::Null
                    },
            ),
        ),
        Json::Object(members) => JsonView::Object(
            Seq::new(
                members@.len(),
                |i: int|
                    if 0 <= i < members@.len() {
                        (members@[i].0@, json_view(members@[i].1))
                    } else {
                        (Seq::empty(), JsonView::Null)
                    },
            ),
        ),
    }
}

impl View for Json {
    type V = JsonView;

    open spec fn view(&self) -> JsonView {
        json_view(*self)
    }
}

/// The views of the members of an object, in order.
pub open spec fn member_views(members: Seq<(String, Json)>) -> Seq<(Seq<char>, JsonView)> {
    Seq::new(members.len(), |i: int| (members[i].0@, members[i].1@))
}

/// The views of the elements of an array, in order.
pub open spec fn item_views(items: Seq<Json>) -> Seq<JsonView> {
    Seq::new(items.len(), |i: int| items[i]@)
}

/// The view of an array is the array of the views of its elements.
pub proof fn lemma_array_view(items: Vec<Json>)
    ensures
        Json::Array(items)@ == JsonView::Array(item_views(items@)),
{
    let whole = Json::Array(items);
    assert(whole@ is Array);
    assert(whole@->Array_0 =~= item_views(items@));
}

/// The view of an object is the object of the views of its members.
pub proof fn lemma_object_view(members: Vec<(String, Json)>)
    ensures
        Json::Object(members)@ == JsonView::Object(member_views(members@)),
{
    let whole = Json::Object(members);
    assert(whole@ is Object);
    let viewed = whole@->Object_0;
    assert(viewed.len() == members@.len());
    assert forall|i: int| 0 <= i < viewed.len() implies viewed[i] == member_views(members@)[i] by {
        assert(viewed[i] == (members@[i].0@, members@[i].1@));
    }
    assert(viewed =~= member_views(members@));
}

/// The document that `serde_json` reads from `bytes`, or `None` where it
/// reports an error: the bytes are no JSON text, hold more than one value,
/// or nest deeper than it follows.
pub uninterp spec fn json_parse(bytes: Seq<u8>) -> Option<JsonView>;

/// The JSON string literal that `serde_json` writes for `text`: the text
/// between double quotes, with the characters escaped that JSON does not
/// allow in a string.
pub uninterp spec fn json_quoted(text: Seq<char>) -> Seq<char>;

/// A JSON value as `serde_json` holds it.
#[verifier::external_type_specification]
#[verifier::external_body]
pub struct ExValue(serde_json::Value);

/// What a `serde_json::Value` holds, as a document.
pub uninterp spec fn value_view(value: serde_json::Value) -> JsonView;

/// The outermost layer of a `serde_json::Value`: which kind of value it
/// is and, for an array or an object, the values inside it as
/// `serde_json` holds them.
enum Layer<'a> {
    Null,
    Bool(bool),
    Integer(i64),
    OtherNumber,
    Text(&'a String),
    Array(&'a Vec<serde_json::Value>),
    Object(Vec<(&'a String, &'a serde_json::Value)>),
}

/// The document that a layer stands for.
spec fn layer_view(layer: Layer) -> JsonView {
    match layer {
        Layer::Null => JsonView::Null,
        Layer::Bool(flag) => JsonView::Bool(flag),
        Layer::Integer(number) => JsonView::Integer(number as int),
        Layer::OtherNumber => JsonView::OtherNumber,
        Layer::Text(text) => JsonView::Text(text@),
        Layer::Array(items) => JsonView::Array(
            Seq::new(items@.len(), |i: int| value_view(items@[i])),
        ),
        Layer::Object(members) => JsonView::Object(
            Seq::new(members@.len(), |i: int| (members@[i].0@, value_view(*members@[i].1))),
        ),
    }
}

/// Reads one JSON value with `serde_json::from_slice`.
///
/// Trusted: whether the bytes are read, and what the value read from them
/// holds, is a function of the bytes alone, named `json_parse`. Nothing
/// more is claimed of which bytes are accepted or what is read from them.
#[verifier::external_body]
fn read_value(bytes: &[u8]) -> (value: Option<serde_json::Value>)
    ensures
        match value {
            Some(read) => json_parse(bytes@) == Some(value_view(read)),
            None => json_parse(bytes@) is None,
        },
{
    match serde_json::from_slice::<serde_json::Value>(bytes) {
        Ok(value) => Some(value),
        Err(_) => None,
    }
}

/// Tells the variants of a `serde_json::Value` apart and hands out what
/// the value holds at its top.
///
/// Trusted: the layer stands for the document that the value holds. A
/// number is an `Integer` exactly when `Number::as_i64` is `Some`; the
/// elements of an array are those of the value, in order; the members of
/// an object are those that its map hands out, in that order.
#[verifier::external_body]
fn open_value<'a>(value: &'a serde_json::Value) -> (layer: Layer<'a>)
    ensures
        layer_view(layer) == value_view(*value),
{
    match value {
        serde_json::Value::Null => Layer::Null,
        serde_json::Value::Bool(flag) => Layer::Bool(*flag),
        serde_json::Value::Number(number) => number.as_i64().map_or(Layer::OtherNumber, Layer::Integer),
        serde_json::Value::String(text) => Layer::Text(text),
        serde_json::Value::Array(items) => Layer::Array(items),
        serde_json::Value::Object(members) => Layer::Object(members.iter().collect()),
    }
}

/// Copies a `serde_json::Value` into a `Json`, layer by layer.
fn lift(value: &serde_json::Value) -> (document: Json)
    ensures
        document@ == value_view(*value),
    decreases value_view(*value),
{
    match open_value(value) {
        Layer::Null => Json::Null,
        Layer::Bool(flag) => Json::Bool(flag),
        Layer::Integer(number) => Json::Integer(number),
        Layer::OtherNumber => Json::OtherNumber,
        Layer::Text(text) => Json::Text(text.clone()),
        Layer::Array(items) => {
            let ghost inside = Seq::new(items@.len(), |i: int| value_view(items@[i]));
            let mut lifted: Vec<Json> = Vec::new();
            let mut i: usize = 0;
            while i < items.len()
                invariant
                    i <= items.len(),
                    lifted@.len() == i,
                    inside == Seq::new(items@.len(), |i: int| value_view(items@[i])),
                    value_view(*value) == JsonView::Array(inside),
                    forall|k: int| 0 <= k < i ==> (#[trigger] lifted@[k])@ == inside[k],
                decreases items.len() - i,
            {
                proof {
                    // The element lies inside the array, so its view is smaller.
                    assert(inside[i as int] == value_view(items@[i as int]));
                    assert(decreases_to!(value_view(*value) => value_view(*value)->Array_0));
                    assert(decreases_to!(inside => inside[i as int]));
                }
                lifted.push(lift(&items[i]));
                i += 1;
            }
            proof {
                lemma_array_view(lifted);
                assert(item_views(lifted@) =~= inside);
            }
            Json::Array(lifted)
        },
        Layer::Object(members) => {
            let ghost inside = Seq::new(
                members@.len(),
                |i: int| (members@[i].0@, value_view(*members@[i].1)),
            );
            let mut lifted: Vec<(String, Json)> = Vec::new();
            let mut i: usize = 0;
            while i < members.len()
                invariant
                    i <= members.len(),
                    lifted@.len() == i,
                    inside == Seq::new(
                        members@.len(),
                        |i: int| (members@[i].0@, value_view(*members@[i].1)),
                    ),
                    value_view(*value) == JsonView::Object(inside),
                    forall|k: int|
                        0 <= k < i ==> ((#[trigger] lifted@[k]).0@, lifted@[k].1@) == inside[k],
                decreases members.len() - i,
            {
                proof {
                    // The member lies inside the object, so its view is smaller.
                    assert(inside[i as int] == (
                        members@[i as int].0@,
                        value_view(*members@[i as int].1),
                    ));
                    assert(decreases_to!(value_view(*value) => value_view(*value)->Object_0));
                    assert(decreases_to!(inside => inside[i as int]));
                    assert(decreases_to!(inside[i as int] => inside[i as int].1));
                }
                let name = members[i].0.clone();
                let member = lift(members[i].1);
                lifted.push((name, member));
                i += 1;
            }
            proof {
                lemma_object_view(lifted);
                assert(member_views(lifted@) =~= inside);
            }
            Json::Object(lifted)
        },
    }
}

/// Reads one JSON document from `bytes`; `None` where `serde_json` does
/// not take them for one.
pub fn parse_json(bytes: &[u8]) -> (document: Option<Json>)
    ensures
        match document {
            Some(read) => json_parse(bytes@) == Some(read@),
            None => json_parse(bytes@) is None,
        },
{
    match read_value(bytes) {
        Some(value) => Some(lift(&value)),
        None => None,
    }
}

/// Writes `text` as a JSON string literal with `serde_json::to_string`.
///
/// Trusted: the result is a function of the text alone, named
/// `json_quoted`. `to_string` fails only where a value refuses to be
/// serialised or a map has a key that is no string; a `str` is neither.
#[verifier::external_body]
pub(crate) fn quote_json(text: &str) -> (quoted: String)
    ensures
        quoted@ == json_quoted(text@),
{
    serde_json::to_string(text).unwrap()
}

} // verus!
