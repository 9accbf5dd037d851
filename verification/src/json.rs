//! Reading JSON documents. The parsing is `serde_json`'s; what it finds is
//! handed to the rest of the library as plain strings and integers.

use vstd::prelude::*;

verus! {

#[verifier::external_type_specification]
#[verifier::external_body]
pub struct ExJsonValue(serde_json::Value);

/// What `serde_json` makes of a text: `None` where the text is not one JSON
/// document, else the string members and the integer members of the
/// document's top-level object, each keyed by member name.
pub uninterp spec fn json_read(text: Seq<char>) -> Option<(Map<Seq<char>, Seq<char>>, Map<Seq<char>, u64>)>;

/// The members of a document's top-level object that are JSON strings, by
/// name. Empty where the document is not an object.
pub uninterp spec fn json_strings(doc: serde_json::Value) -> Map<Seq<char>, Seq<char>>;

/// The members of a document's top-level object that are integers from 0 to
/// `u64::MAX`, by name. Empty where the document is not an object.
pub uninterp spec fn json_integers(doc: serde_json::Value) -> Map<Seq<char>, u64>;

/// Calls `serde_json::from_str` for a `serde_json::Value`. Trusted: the call
/// succeeds exactly on the texts that `json_read` accepts, and the document
/// it returns holds the members that `json_read` gives for the text.
#[verifier::external_body]
pub(crate) fn parse_document(text: &str) -> (r: Option<serde_json::Value>)
    ensures
        r is Some <==> json_read(text@) is Some,
        r matches Some(doc) ==> json_read(text@) == Some(
            (json_strings(doc), json_integers(doc)),
        ),
{
    serde_json::from_str::<serde_json::Value>(text).ok()
}

/// Calls `serde_json::Value::get` with a member name and keeps the member if
/// it is a JSON string. Trusted: the result is the entry of `json_strings`
/// under that name, and `None` where there is no such entry.
#[verifier::external_body]
pub(crate) fn string_member(doc: &serde_json::Value, key: &str) -> (r: Option<String>)
    ensures
        r is Some <==> json_strings(*doc).contains_key(key@),
        r matches Some(s) ==> s@ == json_strings(*doc)[key@],
{
    match doc.get(key) {
        Some(serde_json::Value::String(s)) => Some(s.clone()),
        _ => None,
    }
}

/// Calls `serde_json::Value::get` with a member name and
/// `serde_json::Value::as_u64` on the member. Trusted: the result is the
/// entry of `json_integers` under that name, and `None` where there is no
/// such entry.
#[verifier::external_body]
pub(crate) fn integer_member(doc: &serde_json::Value, key: &str) -> (r: Option<u64>)
    ensures
        r is Some <==> json_integers(*doc).contains_key(key@),
        r matches Some(n) ==> n == json_integers(*doc)[key@],
{
    match doc.get(key) {
        Some(member) => member.as_u64(),
        None => None,
    }
}

/// The string member `key` of the document that `text` holds, if `text` is a
/// JSON document with such a member.
pub open spec fn text_field(text: Seq<char>, key: Seq<char>) -> Option<Seq<char>> {
    match json_read(text) {
        Some((strings, _)) => if strings.contains_key(key) {
            Some(strings[key])
        } else {
            None
        },
        None => None,
    }
}

/// The integer member `key` of the document that `text` holds, if `text` is
/// a JSON document with such a member.
pub open spec fn integer_field(text: Seq<char>, key: Seq<char>) -> Option<u64> {
    match json_read(text) {
        Some((_, integers)) => if integers.contains_key(key) {
            Some(integers[key])
        } else {
            None
        },
        None => None,
    }
}

} // verus!
