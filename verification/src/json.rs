//! JSON documents as `serde_json` holds them, and what this crate assumes of
//! the calls it makes into `serde_json`.

use serde_json::Value;
use vstd::prelude::*;

verus! {

/// A JSON document as a mathematical value. A number is kept only as the fact
/// that it is one: nothing in this crate reads numbers.
pub enum Json {
    Null,
    Bool(bool),
    Number,
    Text(Seq<char>),
    List(Seq<Json>),
    Object(Map<Seq<char>, Json>),
}

/// `serde_json::Value`, taken as it is: what it holds is known only through
/// `json_of`.
#[verifier::external_type_specification]
#[verifier::external_body]
pub struct ExValue(serde_json::Value);

/// `serde_json::Error`, taken as it is. Nothing is known of what it holds.
#[verifier::external_type_specification]
#[verifier::external_body]
pub struct ExError(serde_json::Error);

/// The document that a `serde_json::Value` holds: its strings by their
/// characters, its arrays by their elements in order, its objects by their
/// members under their keys.
pub uninterp spec fn json_of(value: Value) -> Json;

/// What `serde_json::from_str` makes of a text: the document, or `None` where
/// it refuses the text.
pub uninterp spec fn json_parsed(text: Seq<char>) -> Option<Json>;

impl Json {
    /// The member `key` of an object; `None` for a missing key and for anything
    /// that is not an object.
    pub open spec fn field(self, key: Seq<char>) -> Option<Json> {
        match self {
            Json::Object(members) => if members.contains_key(key) {
                Some(members[key])
            } else {
                None
            },
            _ => None,
        }
    }

    /// The element `index` of an array; `None` past its end and for anything
    /// that is not an array.
    pub open spec fn element(self, index: int) -> Option<Json> {
        match self {
            Json::List(items) => if 0 <= index < items.len() {
                Some(items[index])
            } else {
                None
            },
            _ => None,
        }
    }

    /// The characters of a string; `None` for anything else.
    pub open spec fn text(self) -> Option<Seq<char>> {
        match self {
            Json::Text(chars) => Some(chars),
            _ => None,
        }
    }

    /// The elements of an array; `None` for anything else.
    pub open spec fn items(self) -> Option<Seq<Json>> {
        match self {
            Json::List(items) => Some(items),
            _ => None,
        }
    }
}

/// `serde_json::from_str` at `Value`. Assumed: the outcome depends on the text
/// alone, so it is `json_parsed` of the text, `Ok` holding the document and
/// `Err` standing for `None`.
#[verifier::external_body]
fn value_from_str(text: &str) -> (res: Result<Value, serde_json::Error>)
    ensures
        match res {
            Ok(value) => json_parsed(text@) == Some(json_of(value)),
            Err(_) => json_parsed(text@).is_none(),
        },
{
    serde_json::from_str::<Value>(text)
}

/// `Value::get` with a string as the index. Assumed: it returns the member
/// of that name when the value is an object that has one, and `None`
/// otherwise.
#[verifier::external_body]
pub(crate) fn member<'a>(value: &'a Value, key: &str) -> (res: Option<&'a Value>)
    ensures
        match res {
            Some(found) => json_of(*value).field(key@) == Some(json_of(*found)),
            None => json_of(*value).field(key@).is_none(),
        },
{
    value.get(key)
}

/// Assumed of `Value::as_str`: the string's characters when the value is a
/// string, `None` otherwise.
pub assume_specification<'a>[ serde_json::Value::as_str ](value: &'a Value) -> (res: Option<
    &'a str,
>)
    ensures
        match res {
            Some(chars) => json_of(*value).text() == Some(chars@),
            None => json_of(*value).text().is_none(),
        },
;

/// Assumed of `Value::as_array`: the vector of the elements, in order, when the
/// value is an array, `None` otherwise.
pub assume_specification<'a>[ serde_json::Value::as_array ](value: &'a Value) -> (res: Option<
    &'a Vec<Value>,
>)
    ensures
        match res {
            Some(found) => json_of(*value).items() == Some(
                found@.map_values(|item: Value| json_of(item)),
            ),
            None => json_of(*value).items().is_none(),
        },
;

/// Assumed of `Value::is_object`: whether the value is an object.
pub assume_specification[ serde_json::Value::is_object ](value: &Value) -> (res: bool)
    ensures
        res == (json_of(*value) is Object),
;

/// The complaint of the parser as a text: the `Debug` form of a
/// `serde_json::Error`, made by `format!`. Nothing is assumed of the text.
#[verifier::external_body]
pub(crate) fn complaint(error: &serde_json::Error) -> String {
    format!("{:?}", error)
}

/// Reads a text as JSON.
pub fn parse_json(json_string: String) -> (res: Result<Value, serde_json::Error>)
    ensures
        match res {
            Ok(value) => json_parsed(json_string@) == Some(json_of(value)),
            Err(_) => json_parsed(json_string@).is_none(),
        },
{
    value_from_str(json_string.as_str())
}

} // verus!
