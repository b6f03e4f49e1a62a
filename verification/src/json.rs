//! The JSON documents of bootstrap scripts are read with `serde_json`. Each parse hands
//! back the top level of a document as plain values; nested values come back as their
//! compact JSON text, to be parsed again where the logic looks inside them.
use serde_json::Value;
use vstd::prelude::*;

verus! {

/// The top level of a JSON document.
pub enum JsonValue {
    Null,
    Bool(bool),
    /// A number that fits an unsigned 64-bit integer.
    Unsigned(u64),
    /// Any other number (negative, fractional or too large).
    OtherNumber,
    Text(String),
    /// The elements of an array, each as compact JSON text.
    Array(Vec<String>),
    /// The members of an object, each value as compact JSON text.
    Object(Vec<(String, String)>),
}

pub enum JsonValueView {
    Null,
    Bool(bool),
    Unsigned(u64),
    OtherNumber,
    Text(Seq<char>),
    Array(Seq<Seq<char>>),
    Object(Seq<(Seq<char>, Seq<char>)>),
}

impl View for JsonValue {
    type V = JsonValueView;

    open spec fn view(&self) -> JsonValueView {
        match self {
            JsonValue::Null => JsonValueView::Null,
            JsonValue::Bool(b) => JsonValueView::Bool(*b),
            JsonValue::Unsigned(u) => JsonValueView::Unsigned(*u),
            JsonValue::OtherNumber => JsonValueView::OtherNumber,
            JsonValue::Text(s) => JsonValueView::Text(s@),
            JsonValue::Array(a) => JsonValueView::Array(a@.map_values(|e: String| e@)),
            JsonValue::Object(m) => JsonValueView::Object(
                m@.map_values(|p: (String, String)| (p.0@, p.1@)),
            ),
        }
    }
}

/// What `serde_json::from_str::<serde_json::Value>` makes of a text: `None` where the text
/// is not one JSON document (surrounding whitespace allowed).
pub uninterp spec fn json_document(text: Seq<char>) -> Option<JsonValueView>;

/// Parses a JSON document with `serde_json::from_str::<serde_json::Value>`.
///
/// The contract claims only that the result is a function of the text (`json_document`):
/// the JSON grammar itself is serde_json's and is not restated here.
#[verifier::external_body]
pub fn parse_json(text: &str) -> (r: Option<JsonValue>)
    ensures
        r matches Some(v) ==> json_document(text@) == Some(v@),
        r is None ==> json_document(text@) is None,
{
    serde_json::from_str(text).ok().map(|v| match v {
        Value::Null => JsonValue::Null,
        Value::Bool(b) => JsonValue::Bool(b),
        Value::Number(n) => n.as_u64().map_or(JsonValue::OtherNumber, JsonValue::Unsigned),
        Value::String(s) => JsonValue::Text(s),
        Value::Array(a) => JsonValue::Array(a.iter().map(Value::to_string).collect()),
        Value::Object(m) => JsonValue::Object(m.iter().map(|(k, v)| (k.clone(), v.to_string())).collect()),
    })
}

/// How the first JSON value of a text ends, as serde_json's streaming deserializer reports it.
pub enum JsonLead {
    /// A complete value; the text up to its end.
    Complete(String),
    /// The text ends inside a value.
    Incomplete,
    /// The text holds something that cannot start or continue a value.
    Invalid,
    /// The text holds no value at all.
    Empty,
}

pub enum JsonLeadView {
    Complete(Seq<char>),
    Incomplete,
    Invalid,
    Empty,
}

impl View for JsonLead {
    type V = JsonLeadView;

    open spec fn view(&self) -> JsonLeadView {
        match self {
            JsonLead::Complete(s) => JsonLeadView::Complete(s@),
            JsonLead::Incomplete => JsonLeadView::Incomplete,
            JsonLead::Invalid => JsonLeadView::Invalid,
            JsonLead::Empty => JsonLeadView::Empty,
        }
    }
}

/// What serde_json's `StreamDeserializer` finds at the start of a text.
pub uninterp spec fn json_leading_value(text: Seq<char>) -> JsonLeadView;

/// Reads the first JSON value of `text` with `serde_json::Deserializer::into_iter`, telling
/// an end of input inside a value (`Category::Eof`) apart from other errors.
///
/// Beyond the name, the contract states only that a complete value is reported as a prefix
/// of the text: the stream's `byte_offset` is a position inside it.
#[verifier::external_body]
pub fn scan_json_value(text: &str) -> (r: JsonLead)
    ensures
        r@ == json_leading_value(text@),
        r matches JsonLead::Complete(p) ==> p@.len() <= text@.len() && p@ == text@.subrange(0, p@.len() as int),
{
    let mut stream = serde_json::Deserializer::from_str(text).into_iter::<Value>();
    match stream.next() {
        Some(Ok(_)) => JsonLead::Complete(text[..stream.byte_offset()].to_string()),
        Some(Err(e)) if e.classify() == serde_json::error::Category::Eof => JsonLead::Incomplete,
        Some(Err(_)) => JsonLead::Invalid,
        None => JsonLead::Empty,
    }
}

} // verus!
