//! JSON values as the classifier reads them, and where they come from.
//!
//! `serde_json` parses. What it returns is copied into [`Json`], a plain value
//! that the rest of the classifier works on.
use crate::openai::bytes::text_equal;
use crate::openai::document::Doc;
use serde_json::Value;
use vstd::prelude::*;

verus! {

/// A JSON value, as far as classification looks at it: a number is only known
/// to be one.
#[derive(Debug)]
pub enum Json {
    /// `null`.
    Null,
    /// `true` or `false`.
    Bool(bool),
    /// A number.
    Number,
    /// A string.
    Text(String),
    /// An array.
    Array(Vec<Json>),
    /// An object, as its members. A key that occurs twice has its first value.
    Object(Vec<Member>),
}

/// A member of a JSON object.
#[derive(Debug)]
pub struct Member {
    /// The key.
    pub key: String,
    /// The value.
    pub value: Json,
}

/// The mathematical JSON value.
pub enum JsonView {
    /// `null`.
    Null,
    /// `true` or `false`.
    Bool(bool),
    /// A number.
    Number,
    /// A string.
    Text(Seq<char>),
    /// An array.
    Array(Seq<JsonView>),
    /// An object, as its members.
    Object(Seq<(Seq<char>, JsonView)>),
}

impl JsonView {
    /// Whether the value carries anything: `null` and empty strings, arrays and
    /// objects do not.
    pub open spec fn present(self) -> bool {
        match self {
            JsonView::Null => false,
            JsonView::Bool(_) => true,
            JsonView::Number => true,
            JsonView::Text(text) => text.len() > 0,
            JsonView::Array(items) => items.len() > 0,
            JsonView::Object(members) => members.len() > 0,
        }
    }

    /// The value of the first member with this key, if the value is an object
    /// that has one.
    pub open spec fn member(self, key: Seq<char>) -> Option<JsonView> {
        match self {
            JsonView::Object(members) => JsonView::lookup(members, key),
            _ => None,
        }
    }

    /// The value of the first of `members` with this key.
    pub open spec fn lookup(members: Seq<(Seq<char>, JsonView)>, key: Seq<char>) -> Option<
        JsonView,
    >
        decreases members.len(),
    {
        if members.len() == 0 {
            None
        } else if members.first().0 == key {
            Some(members.first().1)
        } else {
            JsonView::lookup(members.drop_first(), key)
        }
    }

    /// Whether the value is an object with a present member of this key.
    pub open spec fn has(self, key: Seq<char>) -> bool {
        self.member(key) is Some && self.member(key)->0.present()
    }
}

impl Json {
    /// The mathematical value of `json`.
    pub open spec fn model(json: Json) -> JsonView
        decreases json,
    {
        match json {
            Json::Null => JsonView::Null,
            Json::Bool(value) => JsonView::Bool(value),
            Json::Number => JsonView::Number,
            Json::Text(text) => JsonView::Text(text@),
            Json::Array(items) => JsonView::Array(
                Seq::new(
                    items@.len(),
                    |i: int|
                        if 0 <= i < items@.len() {
                            Json::model(items@[i])
                        } else {
                            arbitrary()
                        },
                ),
            ),
            Json::Object(members) => JsonView::Object(
                Seq::new(
                    members@.len(),
                    |i: int|
                        if 0 <= i < members@.len() {
                            (members@[i].key@, Json::model(members@[i].value))
                        } else {
                            arbitrary()
                        },
                ),
            ),
        }
    }
}

impl View for Json {
    type V = JsonView;

    open spec fn view(&self) -> JsonView {
        Json::model(*self)
    }
}

/// `serde_json::Value`: a parsed JSON document, opaque but for [`open_value`].
#[verifier::external_type_specification]
#[verifier::external_body]
pub struct ExValue(serde_json::Value);

/// `serde_json::Error`: why a text was not accepted; nothing is read from it.
#[verifier::external_type_specification]
#[verifier::external_body]
pub struct ExError(serde_json::Error);

/// The JSON value that a `serde_json::Value` holds.
pub uninterp spec fn json_of(value: Value) -> JsonView;

/// The JSON value that `serde_json::from_slice` reads from `data` when asked for
/// a `serde_json::Value`; none if it refuses `data`.
pub uninterp spec fn json_document(data: Seq<u8>) -> Option<JsonView>;

/// The text that `serde_json::from_slice` reads from `data` when asked for a
/// `String`; none if it refuses `data`.
pub uninterp spec fn json_string(data: Seq<u8>) -> Option<Seq<char>>;

/// One level of a `serde_json::Value`.
pub enum ValueNode<'a> {
    /// `null`.
    Null,
    /// `true` or `false`.
    Bool(bool),
    /// A number.
    Number,
    /// A string.
    Text(&'a String),
    /// The items of an array.
    Array(&'a Vec<Value>),
    /// The members of an object.
    Object(Vec<(&'a String, &'a Value)>),
}

impl<'a> ValueNode<'a> {
    /// The JSON value that this is the top level of.
    pub open spec fn model(self) -> JsonView {
        match self {
            ValueNode::Null => JsonView::Null,
            ValueNode::Bool(value) => JsonView::Bool(value),
            ValueNode::Number => JsonView::Number,
            ValueNode::Text(text) => JsonView::Text(text@),
            ValueNode::Array(items) => JsonView::Array(
                items@.map_values(|item: Value| json_of(item)),
            ),
            ValueNode::Object(members) => JsonView::Object(
                members@.map_values(
                    |member: (&String, &Value)| (member.0@, json_of(*member.1)),
                ),
            ),
        }
    }
}

/// Tells the variants of `serde_json::Value` apart and hands out what they hold.
/// The members of an object come as `serde_json::Map::iter` yields them.
///
/// Trusted: a value is what its variant and the values inside it make it.
#[verifier::external_body]
fn open_value<'a>(value: &'a Value) -> (node: ValueNode<'a>)
    ensures
        node.model() == json_of(*value),
{
    match value {
        Value::Null => ValueNode::Null,
        Value::Bool(value) => ValueNode::Bool(*value),
        Value::Number(_) => ValueNode::Number,
        Value::String(text) => ValueNode::Text(text),
        Value::Array(items) => ValueNode::Array(items),
        Value::Object(members) => ValueNode::Object(members.iter().collect()),
    }
}

/// Calls `serde_json::from_slice` for a `serde_json::Value`.
///
/// Trusted: whether a text is accepted, and as which value, depends on its bytes
/// alone; a text that is nested too deep is refused, as `serde_json` does of any
/// with 128 arrays and objects within each other.
#[verifier::external_body]
fn value_from_slice(data: &[u8]) -> (value: Result<Value, serde_json::Error>)
    ensures
        value is Ok <==> json_document(data@) is Some,
        value matches Ok(value) ==> json_document(data@) == Some(json_of(value)),
        Doc::is_too_deep(data@) ==> value is Err,
{
    serde_json::from_slice(data)
}

/// Calls `serde_json::from_slice` for a `String`.
///
/// Trusted: whether a text is accepted, and as which string, depends on its
/// bytes alone.
#[verifier::external_body]
fn string_from_slice(data: &[u8]) -> (text: Result<String, serde_json::Error>)
    ensures
        text is Ok <==> json_string(data@) is Some,
        text matches Ok(text) ==> json_string(data@) == Some(text@),
{
    serde_json::from_slice(data)
}

/// Copies a `serde_json::Value`.
fn json_from_value(value: &Value) -> (json: Json)
    ensures
        json@ == json_of(*value),
    decreases json_of(*value),
{
    match open_value(value) {
        ValueNode::Null => Json::Null,
        ValueNode::Bool(value) => Json::Bool(value),
        ValueNode::Number => Json::Number,
        ValueNode::Text(text) => Json::Text(text.clone()),
        ValueNode::Array(items) => {
            let ghost whole = json_of(*value);
            let mut copies: Vec<Json> = Vec::new();
            let mut i: usize = 0;
            while i < items.len()
                invariant
                    i <= items.len(),
                    copies.len() == i,
                    whole == json_of(*value),
                    whole == JsonView::Array(items@.map_values(|item: Value| json_of(item))),
                    forall|j: int| 0 <= j < i ==> (#[trigger] copies@[j])@ == json_of(items@[j]),
                decreases items.len() - i,
            {
                assert(whole->Array_0[i as int] == json_of(items@[i as int]));
                assert(decreases_to!(whole => whole->Array_0));
                copies.push(json_from_value(&items[i]));
                i = i + 1;
            }
            let json = Json::Array(copies);
            assert(json@->Array_0 =~= whole->Array_0);
            json
        },
        ValueNode::Object(members) => {
            let ghost whole = json_of(*value);
            let mut copies: Vec<Member> = Vec::new();
            let mut i: usize = 0;
            while i < members.len()
                invariant
                    i <= members.len(),
                    copies.len() == i,
                    whole == json_of(*value),
                    whole == JsonView::Object(
                        members@.map_values(
                            |member: (&String, &Value)| (member.0@, json_of(*member.1)),
                        ),
                    ),
                    forall|j: int|
                        0 <= j < i ==> (#[trigger] copies@[j]).key@ == members@[j].0@
                            && copies@[j].value@ == json_of(*members@[j].1),
                decreases members.len() - i,
            {
                assert(whole->Object_0[i as int].1 == json_of(*members@[i as int].1));
                assert(decreases_to!(whole => whole->Object_0[i as int]));
                let (key, item) = members[i];
                copies.push(Member { key: key.clone(), value: json_from_value(item) });
                i = i + 1;
            }
            let json = Json::Object(copies);
            assert(json@->Object_0 =~= whole->Object_0);
            json
        },
    }
}

/// Parses a JSON document.
pub fn parse_json(data: &[u8]) -> (json: Option<Json>)
    ensures
        json is Some <==> json_document(data@) is Some,
        json matches Some(json) ==> json_document(data@) == Some(json@),
        Doc::is_too_deep(data@) ==> json is None,
{
    match value_from_slice(data) {
        Ok(value) => Some(json_from_value(&value)),
        Err(_) => None,
    }
}

/// Parses a JSON string, quotes included.
pub fn parse_json_string(data: &[u8]) -> (text: Option<String>)
    ensures
        text is Some <==> json_string(data@) is Some,
        text matches Some(text) ==> json_string(data@) == Some(text@),
{
    match string_from_slice(data) {
        Ok(text) => Some(text),
        Err(_) => None,
    }
}

impl Json {
    /// Whether the value carries anything.
    pub fn present(&self) -> (present: bool)
        ensures
            present == self@.present(),
    {
        match self {
            Json::Null => false,
            Json::Bool(_) | Json::Number => true,
            Json::Text(text) => !text.as_str().is_empty(),
            Json::Array(items) => !items.is_empty(),
            Json::Object(members) => !members.is_empty(),
        }
    }

    /// The value of the first member with this key, if the value is an object
    /// that has one.
    pub fn member(&self, key: &str) -> (value: Option<&Json>)
        ensures
            value is Some <==> self@.member(key@) is Some,
            value matches Some(value) ==> self@.member(key@) == Some(value@),
    {
        match self {
            Json::Object(members) => {
                let ghost pairs = self@->Object_0;
                let mut i: usize = 0;
                assert(pairs.skip(0) == pairs);
                while i < members.len()
                    invariant
                        i <= members.len(),
                        *self == Json::Object(*members),
                        pairs == self@->Object_0,
                        self@.member(key@) == JsonView::lookup(pairs.skip(i as int), key@),
                    decreases members.len() - i,
                {
                    let ghost rest = pairs.skip(i as int);
                    assert(rest.first() == (members@[i as int].key@, members@[i as int].value@));
                    assert(rest.drop_first() == pairs.skip(i + 1));
                    if text_equal(members[i].key.as_str(), key) {
                        return Some(&members[i].value);
                    }
                    i = i + 1;
                }
                None
            },
            _ => None,
        }
    }
}

} // verus!
