//! JSON documents, as far as the gateway reads them: the text members of a
//! document's top level. Parsing is `serde_json`'s; what is done with the
//! members is decided here.

use vstd::prelude::*;
use vstd::string::*;

verus! {

#[verifier::external_type_specification]
#[verifier::external_body]
pub struct ExJsonValue(serde_json::Value);

/// The members of the top level of `value` that hold text, by key. Empty
/// for a value that is not an object.
pub uninterp spec fn json_text_members(value: serde_json::Value) -> Map<Seq<char>, Seq<char>>;

/// The members of the top level of `value` that hold a whole number which
/// fits 64 bits without a sign, by key. Empty for a value that is not an
/// object.
pub uninterp spec fn json_unsigned_members(value: serde_json::Value) -> Map<Seq<char>, u64>;

/// The text members of the document that `text` spells, or `None` where
/// `text` is not a JSON document.
pub uninterp spec fn json_document_members(text: Seq<char>) -> Option<Map<Seq<char>, Seq<char>>>;

/// The whole-number members of the document that `text` spells; of no
/// meaning where `text` is not a JSON document.
pub uninterp spec fn json_document_unsigned_members(text: Seq<char>) -> Map<Seq<char>, u64>;

/// `serde_json::from_str` at type `serde_json::Value`, the parser's error
/// given as its `Display` text. Trusted: the parse succeeds exactly on the
/// texts that spell a document, and the value it gives holds that document's
/// text members and whole-number members. Nothing is claimed of the error's
/// text.
#[verifier::external_body]
pub(crate) fn parse_document(text: &str) -> (parsed: Result<serde_json::Value, String>)
    ensures
        parsed.is_ok() == json_document_members(text@).is_some(),
        parsed.is_ok() ==> json_text_members(parsed.unwrap()) == json_document_members(
            text@,
        ).unwrap(),
        parsed.is_ok() ==> json_unsigned_members(parsed.unwrap())
            == json_document_unsigned_members(text@),
{
    serde_json::from_str::<serde_json::Value>(text).map_err(|error| error.to_string())
}

/// Indexing a `serde_json::Value` by a key, then `Value::as_str`. Trusted:
/// the member under `key` is returned when the value is an object that holds
/// text under that key, and nothing otherwise.
#[verifier::external_body]
pub(crate) fn text_member(value: &serde_json::Value, key: &str) -> (member: Option<String>)
    ensures
        member.is_some() == json_text_members(*value).dom().contains(key@),
        member.is_some() ==> member.unwrap()@ == json_text_members(*value)[key@],
{
    value[key].as_str().map(String::from)
}

/// Indexing a `serde_json::Value` by a key, then `Value::as_u64`. Trusted:
/// the member under `key` is returned when the value is an object that holds
/// such a number under that key, and nothing otherwise.
#[verifier::external_body]
pub(crate) fn unsigned_member(value: &serde_json::Value, key: &str) -> (member: Option<u64>)
    ensures
        member.is_some() == json_unsigned_members(*value).dom().contains(key@),
        member.is_some() ==> member.unwrap() == json_unsigned_members(*value)[key@],
{
    value[key].as_u64()
}

/// The text member of `members` under `key`, if there is one.
pub open spec fn spec_member(members: Map<Seq<char>, Seq<char>>, key: Seq<char>) -> Option<
    Seq<char>,
> {
    if members.dom().contains(key) {
        Some(members[key])
    } else {
        None
    }
}

/// The whole-number member of `members` under `key`, if there is one.
pub open spec fn spec_unsigned_member(members: Map<Seq<char>, u64>, key: Seq<char>) -> Option<u64> {
    if members.dom().contains(key) {
        Some(members[key])
    } else {
        None
    }
}

/// The text member under `key` of the document that `text` spells: `None`
/// where `text` is no document or holds no text under `key`.
pub open spec fn spec_document_member(text: Seq<char>, key: Seq<char>) -> Option<Seq<char>> {
    match json_document_members(text) {
        Some(members) => spec_member(members, key),
        None => None,
    }
}

/// The whole-number member under `key` of the document that `text`
/// spells: `None` where `text` is no document or holds no such number under
/// `key`.
pub open spec fn spec_document_unsigned_member(text: Seq<char>, key: Seq<char>) -> Option<u64> {
    if json_document_members(text).is_some() {
        spec_unsigned_member(json_document_unsigned_members(text), key)
    } else {
        None
    }
}

} // verus!
