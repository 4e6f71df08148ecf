//! The two calls into `serde_json` by which a token record becomes the text
//! of a cookie and comes back.

use vstd::prelude::*;
use crate::text::opt_text;

verus! {

/// What sits under one key of a JSON text.
pub enum JsonField {
    /// The text is not JSON, or not a JSON object.
    NoObject,
    /// The object has no member of that key.
    Missing,
    Null,
    Text(String),
    /// A number that is an integer of 64 bits.
    Integer(i64),
    /// Any other value: a boolean, an array, an object, another number.
    Other,
}

/// The mathematical content of a [`JsonField`].
pub ghost enum JsonMember {
    NoObject,
    Missing,
    Null,
    Text(Seq<char>),
    Integer(int),
    Other,
}

impl View for JsonField {
    type V = JsonMember;

    open spec fn view(&self) -> JsonMember {
        match *self {
            JsonField::NoObject => JsonMember::NoObject,
            JsonField::Missing => JsonMember::Missing,
            JsonField::Null => JsonMember::Null,
            JsonField::Text(s) => JsonMember::Text(s@),
            JsonField::Integer(i) => JsonMember::Integer(i as int),
            JsonField::Other => JsonMember::Other,
        }
    }
}

/// What `serde_json` finds under `key` when it reads `text`.
pub uninterp spec fn json_member(text: Seq<char>, key: Seq<char>) -> JsonMember;

/// The text that `serde_json` writes for an object of three members: a
/// string under `text_key`, an optional string under `optional_key` and an
/// integer under `integer_key`.
pub uninterp spec fn json_text(
    text_key: Seq<char>,
    text: Seq<char>,
    optional_key: Seq<char>,
    optional: Option<Seq<char>>,
    integer_key: Seq<char>,
    integer: int,
) -> Seq<char>;

/// The JSON member for an optional string: the string, or `null`.
pub open spec fn optional_member(value: Option<Seq<char>>) -> JsonMember {
    match value {
        Some(s) => JsonMember::Text(s),
        None => JsonMember::Null,
    }
}

/// Reads `text` as JSON and reports what sits under `key`.
///
/// Trusted: calls `serde_json::from_str` for a `serde_json::Value` and, on an
/// object, `serde_json::Map::get`, then tells the variants of the value
/// apart (`serde_json::Number::as_i64` for a number). The contract gives the
/// outcome the name `json_member` and claims nothing else of it.
#[verifier::external_body]
pub(crate) fn json_field(text: &str, key: &str) -> (field: JsonField)
    ensures
        field@ == json_member(text@, key@),
{
    match serde_json::from_str::<serde_json::Value>(text) {
        Ok(serde_json::Value::Object(members)) => match members.get(key) {
            None => JsonField::Missing,
            Some(serde_json::Value::Null) => JsonField::Null,
            Some(serde_json::Value::String(s)) => JsonField::Text(s.clone()),
            Some(serde_json::Value::Number(n)) => match n.as_i64() {
                Some(i) => JsonField::Integer(i),
                None => JsonField::Other,
            },
            Some(_) => JsonField::Other,
        },
        _ => JsonField::NoObject,
    }
}

/// The JSON text of an object with three members: a string, an optional
/// string (`null` where absent) and an integer.
///
/// Trusted: fills a `serde_json::Map` by `insert` and writes it with the
/// `to_string` of `serde_json::Value`. The contract gives the text the name
/// `json_text`, and claims that reading the text back finds each value under
/// its key: what `serde_json` writes, it reads as the same strings and the
/// same integer.
#[verifier::external_body]
pub(crate) fn json_object(
    text_key: &str,
    text: &str,
    optional_key: &str,
    optional: &Option<String>,
    integer_key: &str,
    integer: i64,
) -> (out: String)
    requires
        text_key@ != optional_key@,
        text_key@ != integer_key@,
        optional_key@ != integer_key@,
    ensures
        out@ == json_text(
            text_key@,
            text@,
            optional_key@,
            opt_text(*optional),
            integer_key@,
            integer as int,
        ),
        json_member(out@, text_key@) == JsonMember::Text(text@),
        json_member(out@, optional_key@) == optional_member(opt_text(*optional)),
        json_member(out@, integer_key@) == JsonMember::Integer(integer as int),
{
    let mut members = serde_json::Map::new();
    members.insert(text_key.to_owned(), serde_json::Value::from(text));
    members.insert(optional_key.to_owned(), serde_json::Value::from(optional.clone()));
    members.insert(integer_key.to_owned(), serde_json::Value::from(integer));
    serde_json::Value::Object(members).to_string()
}

} // verus!
