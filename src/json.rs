//! Request bodies as a small JSON tree. JSON that the user gives on the command
//! line is parsed by serde_json and carried through as it is.

use vstd::prelude::*;
use vstd::string::*;
use crate::error::NotionError;

verus! {

/// A request body, or a part of one.
#[derive(Debug)]
pub enum Json {
    Bool(bool),
    Int(u64),
    Text(String),
    /// An object with its members in order.
    Object(Vec<(String, Json)>),
    Array(Vec<Json>),
    /// JSON given by the user, as parsed.
    Given(serde_json::Value),
    /// JSON given by the user, with these members set on it.
    Extended(serde_json::Value, Vec<(String, Json)>),
}

/// A JSON body as a value.
pub enum JsonValue {
    Bool(bool),
    Int(u64),
    Text(Seq<char>),
    Object(Seq<(Seq<char>, JsonValue)>),
    Array(Seq<JsonValue>),
    Given(serde_json::Value),
    Extended(serde_json::Value, Seq<(Seq<char>, JsonValue)>),
}

impl Json {
    pub open spec fn model(&self) -> JsonValue
        decreases self,
    {
        match self {
            Json::Bool(b) => JsonValue::Bool(*b),
            Json::Int(n) => JsonValue::Int(*n),
            Json::Text(s) => JsonValue::Text(s@),
            Json::Object(fields) => JsonValue::Object(
                Seq::new(
                    fields@.len(),
                    |i: int|
                        (
                            fields@[i].0@,
                            if 0 <= i < fields@.len() {
                                fields@[i].1.model()
                            } else {
                                JsonValue::Bool(false)
                            },
                        ),
                ),
            ),
            Json::Array(items) => JsonValue::Array(
                Seq::new(
                    items@.len(),
                    |i: int|
                        if 0 <= i < items@.len() {
                            items@[i].model()
                        } else {
                            JsonValue::Bool(false)
                        },
                ),
            ),
            Json::Given(v) => JsonValue::Given(*v),
            Json::Extended(v, fields) => JsonValue::Extended(
                *v,
                Seq::new(
                    fields@.len(),
                    |i: int|
                        (
                            fields@[i].0@,
                            if 0 <= i < fields@.len() {
                                fields@[i].1.model()
                            } else {
                                JsonValue::Bool(false)
                            },
                        ),
                ),
            ),
        }
    }
}

/// The members of an object, as values.
pub open spec fn members_model(fields: Seq<(String, Json)>) -> Seq<(Seq<char>, JsonValue)> {
    Seq::new(fields.len(), |i: int| (fields[i].0@, fields[i].1.model()))
}

/// An empty list of members.
pub fn no_members() -> (r: Vec<(String, Json)>)
    ensures
        members_model(r@) == Seq::<(Seq<char>, JsonValue)>::empty(),
{
    let r = Vec::new();
    assert(members_model(r@) =~= Seq::<(Seq<char>, JsonValue)>::empty());
    r
}

/// Appends the member `key: value` to an object's members.
pub fn put(fields: &mut Vec<(String, Json)>, key: &str, value: Json)
    ensures
        members_model(final(fields)@) == members_model(old(fields)@).push((key@, value.model())),
{
    let ghost v = value;
    fields.push((String::from_str(key), value));
    assert(members_model(fields@) =~= members_model(old(fields)@).push((key@, v.model())));
}

/// An object with the given members.
pub fn object(fields: Vec<(String, Json)>) -> (r: Json)
    ensures
        r.model() == JsonValue::Object(members_model(fields@)),
{
    let r = Json::Object(fields);
    assert(r.model()->Object_0 =~= members_model(fields@));
    r
}

/// User JSON with the given members set on it.
pub fn extended(base: serde_json::Value, fields: Vec<(String, Json)>) -> (r: Json)
    ensures
        r.model() == JsonValue::Extended(base, members_model(fields@)),
{
    let r = Json::Extended(base, fields);
    assert(r.model()->Extended_1 =~= members_model(fields@));
    r
}

/// An array of one item.
pub fn single(item: Json) -> (r: Json)
    ensures
        r.model() == JsonValue::Array(seq![item.model()]),
{
    let ghost it = item;
    let mut items = Vec::new();
    items.push(item);
    let r = Json::Array(items);
    assert(r.model()->Array_0 =~= seq![it.model()]);
    r
}

/// A string.
pub fn text(s: &str) -> (r: Json)
    ensures
        r.model() == JsonValue::Text(s@),
{
    Json::Text(String::from_str(s))
}

/// What serde_json's `from_str` accepts as a JSON document.
pub uninterp spec fn json_text_parses(s: Seq<char>) -> bool;

/// Relies on serde_json's `from_str` into a `Value`: it succeeds exactly on the
/// text of a JSON document.
#[verifier::external_body]
fn parse_json_text(s: &str) -> (r: Result<serde_json::Value, serde_json::Error>)
    ensures
        r is Ok <==> json_text_parses(s@),
{
    serde_json::from_str::<serde_json::Value>(s)
}

/// Parses a JSON argument of the command line; `what` names it in the error.
pub fn json_arg(text: &str, what: &str) -> (r: Result<serde_json::Value, NotionError>)
    ensures
        r is Ok <==> json_text_parses(text@),
        r matches Err(e) ==> (e matches NotionError::InvalidJson { what: w } && w@ == what@),
{
    match parse_json_text(text) {
        Ok(v) => Ok(v),
        Err(_) => Err(NotionError::InvalidJson { what: String::from_str(what) }),
    }
}

} // verus!
