//! JSON documents: the tree a text parses to, and quoting of strings.
//!
//! Parsing and string escaping are done by `serde_json`; what the gateway
//! does with a parsed document is decided on the tree defined here.

use vstd::prelude::*;

verus! {

/// A parsed JSON value.
pub enum Json {
    Null,
    Bool(bool),
    /// A number, with its value where it is an integer that fits 64 bits.
    Number(Option<i64>),
    Text(String),
    Array(Vec<Json>),
    /// The members of an object, in the order the parser lists them.
    Object(Vec<(String, Json)>),
}

/// [`Json`], with every string and list taken by its view.
pub enum JsonView {
    Null,
    Bool(bool),
    Number(Option<i64>),
    Text(Seq<char>),
    Array(Seq<JsonView>),
    Object(Seq<(Seq<char>, JsonView)>),
}

/// The tree of a value, with every string and list taken by its view.
pub open spec fn json_view(value: Json) -> JsonView
    decreases value,
{
    match value {
        Json::Null => JsonView::Null,
        Json::Bool(b) => JsonView::Bool(b),
        Json::Number(n) => JsonView::Number(n),
        Json::Text(s) => JsonView::Text(s@),
        Json::Array(items) => JsonView::Array(
            Seq::new(
                items@.len(),
                |i: int|
                    if 0 <= i < items@.len() {
                        json_view(items@[i])
                    } else {
                        JsonView::Null
                    },
            ),
        ),
        Json::Object(members) => JsonView::Object(
            Seq::new(
                members@.len(),
                |i: int|
                    if 0 <= i < members@.len() {
                        (members@[i].0@, json_view(members@[i].1))
                    } else {
                        (Seq::empty(), JsonView::Null)
                    },
            ),
        ),
    }
}

impl View for Json {
    type V = JsonView;

    open spec fn view(&self) -> JsonView {
        json_view(*self)
    }
}

/// The members of an object, each with the view of its key and of its value.
pub open spec fn members_view(members: Seq<(String, Json)>) -> Seq<(Seq<char>, JsonView)> {
    Seq::new(members.len(), |i: int| (members[i].0@, members[i].1@))
}

/// The view of an object lists the views of its members.
pub proof fn lemma_object_view(members: Vec<(String, Json)>)
    ensures
        Json::Object(members)@ == JsonView::Object(members_view(members@)),
{
    let direct = Json::Object(members)@;
    assert(direct is Object);
    let listed = direct->Object_0;
    assert(listed.len() == members@.len());
    assert(listed =~= members_view(members@));
}

/// `serde_json::Value`, as the parser hands it over; it is read only where
/// it is copied into a [`Json`].
#[verifier::external_type_specification]
#[verifier::external_body]
pub struct ExJsonValue(serde_json::Value);

/// `serde_json::Error`; nothing in it is looked at.
#[verifier::external_type_specification]
#[verifier::external_body]
pub struct ExJsonError(serde_json::Error);

/// The document that a text parses to; `None` where the text is not JSON.
pub uninterp spec fn json_document(text: Seq<char>) -> Option<JsonView>;

/// The JSON string literal for a text, quotes included; `None` where
/// serialising fails.
pub uninterp spec fn json_quoted(text: Seq<char>) -> Option<Seq<char>>;

/// Copies a `serde_json::Value` into a [`Json`], variant by variant. A number
/// is carried over through `serde_json::Number::as_i64`. No contract: what
/// is claimed of the copy is claimed where the text is parsed.
#[verifier::external_body]
fn json_from_value(value: serde_json::Value) -> Json {
    match value {
        serde_json::Value::Null => Json::Null,
        serde_json::Value::Bool(b) => Json::Bool(b),
        serde_json::Value::Number(n) => Json::Number(n.as_i64()),
        serde_json::Value::String(s) => Json::Text(s),
        serde_json::Value::Array(a) => Json::Array(a.into_iter().map(json_from_value).collect()),
        serde_json::Value::Object(o) => Json::Object(
            o.into_iter().map(|(k, v)| (k, json_from_value(v))).collect(),
        ),
    }
}

/// `serde_json::from_str` for a `serde_json::Value`. The contract claims only
/// that the outcome is a function of the text.
#[verifier::external_body]
fn parse_value(text: &str) -> (r: Result<Json, serde_json::Error>)
    ensures
        match r {
            Ok(doc) => json_document(text@) == Some(doc@),
            Err(_) => json_document(text@) is None,
        },
{
    serde_json::from_str::<serde_json::Value>(text).map(json_from_value)
}

/// `serde_json::to_string` for a `str`. The contract claims only that the
/// outcome is a function of the text.
#[verifier::external_body]
fn quote_value(text: &str) -> (r: Result<String, serde_json::Error>)
    ensures
        match r {
            Ok(quoted) => json_quoted(text@) == Some(quoted@),
            Err(_) => json_quoted(text@) is None,
        },
{
    serde_json::to_string(text)
}

/// Parses a text as JSON.
pub fn parse(text: &str) -> (r: Option<Json>)
    ensures
        match r {
            Some(doc) => json_document(text@) == Some(doc@),
            None => json_document(text@) is None,
        },
{
    match parse_value(text) {
        Ok(doc) => Some(doc),
        Err(_) => None,
    }
}

/// Writes a text as a JSON string literal.
pub fn quote(text: &str) -> (r: Option<String>)
    ensures
        match r {
            Some(quoted) => json_quoted(text@) == Some(quoted@),
            None => json_quoted(text@) is None,
        },
{
    match quote_value(text) {
        Ok(quoted) => Some(quoted),
        Err(_) => None,
    }
}

} // verus!
