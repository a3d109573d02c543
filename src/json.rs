//! The calls into serde_json that the library's logic makes. What serde_json
//! computes on a text depends on that text alone, so each result gets a name
//! here and the callers' contracts speak of that name.
use vstd::prelude::*;

verus! {

#[verifier::external_type_specification]
#[verifier::external_body]
pub struct ExJsonError(serde_json::Error);

/// How serde_json reads the string member `key` of the JSON document `text`:
/// `None` when `text` is not JSON, `Some(None)` when the document is not an
/// object or its member `key` is absent or not a string.
pub uninterp spec fn json_string_member(text: Seq<char>, key: Seq<char>) -> Option<
    Option<Seq<char>>,
>;

/// How serde_json reads, from the JSON document `text`, the array member
/// `array_key` and, of each element, its string member `item_key`: `None` when
/// `text` is not JSON, `Some(None)` when there is no such array, and otherwise
/// for each element its member's text if it is a string.
pub uninterp spec fn json_array_member_strings(
    text: Seq<char>,
    array_key: Seq<char>,
    item_key: Seq<char>,
) -> Option<Option<Seq<Option<Seq<char>>>>>;

/// The compact text serde_json writes for the object with the single string
/// member `key: value`.
pub uninterp spec fn json_single_member_object(key: Seq<char>, value: Seq<char>) -> Seq<char>;

/// Relies on serde_json::from_str into a `Value`, then `Value::get` and
/// `Value::as_str`: parses `text` and reads its string member `key`.
#[verifier::external_body]
pub(crate) fn parse_string_member(text: &str, key: &str) -> (r: Result<
    Option<String>,
    serde_json::Error,
>)
    ensures
        match r {
            Ok(Some(s)) => json_string_member(text@, key@) == Some(Some(s@)),
            Ok(None) => json_string_member(text@, key@) == Some(None::<Seq<char>>),
            Err(_) => json_string_member(text@, key@) is None,
        },
{
    match serde_json::from_str::<serde_json::Value>(text) {
        Ok(v) => Ok(v.get(key).and_then(serde_json::Value::as_str).map(String::from)),
        Err(e) => Err(e),
    }
}

/// The text of an optional string.
pub open spec fn opt_text(o: Option<String>) -> Option<Seq<char>> {
    match o {
        Some(s) => Some(s@),
        None => None,
    }
}

/// Relies on serde_json::from_str into a `Value`, then `Value::get`,
/// `Value::as_array` and `Value::as_str`: parses `text` and reads the string
/// member `item_key` of each element of its array member `array_key`.
#[verifier::external_body]
pub(crate) fn parse_array_member_strings(text: &str, array_key: &str, item_key: &str) -> (r:
    Result<Option<Vec<Option<String>>>, serde_json::Error>)
    ensures
        match r {
            Ok(Some(v)) => json_array_member_strings(text@, array_key@, item_key@) == Some(
                Some(v@.map_values(|o: Option<String>| opt_text(o))),
            ),
            Ok(None) => json_array_member_strings(text@, array_key@, item_key@) == Some(
                None::<Seq<Option<Seq<char>>>>,
            ),
            Err(_) => json_array_member_strings(text@, array_key@, item_key@) is None,
        },
{
    match serde_json::from_str::<serde_json::Value>(text) {
        Ok(v) => Ok(v.get(array_key).and_then(serde_json::Value::as_array).map(
            |items| items.iter().map(|m| m.get(item_key).and_then(serde_json::Value::as_str).map(String::from)).collect(),
        )),
        Err(e) => Err(e),
    }
}

/// Relies on serde_json's `Map::insert`, `Value::Object` and the `Display` of
/// `Value`: writes the object `{key: value}` as compact JSON.
#[verifier::external_body]
pub(crate) fn single_member_object(key: &str, value: &str) -> (r: String)
    ensures
        r@ == json_single_member_object(key@, value@),
{
    let mut m = serde_json::Map::new();
    m.insert(key.to_string(), serde_json::Value::String(value.to_string()));
    serde_json::Value::Object(m).to_string()
}

/// Relies on the `Display` of serde_json::Error: the text of a parse error.
#[verifier::external_body]
pub(crate) fn error_text(e: &serde_json::Error) -> String {
    e.to_string()
}

} // verus!
