//! JSON documents, held as text and read by `serde_json`.
//!
//! A document that only passes through (a collaborator's metadata, a request's
//! additional context, a transfer receipt) is never taken apart here. Where a
//! decision hangs on one of its members, `serde_json` parses the text and hands
//! the member back; what it hands back is named below, and the decisions are
//! stated over those names.

use vstd::prelude::*;

verus! {

/// Whether `serde_json` parses `text` as one JSON value.
pub uninterp spec fn json_well_formed(text: Seq<char>) -> bool;

/// The member that `serde_json` finds under `key` in the JSON object `text`,
/// printed in compact form. `None` where `text` does not parse, is not an
/// object, or has no such member.
pub uninterp spec fn json_member(text: Seq<char>, key: Seq<char>) -> Option<Seq<char>>;

/// The truth value that `serde_json` reads from `text`, where `text` is a JSON
/// boolean. `None` for every other text.
pub uninterp spec fn json_boolean(text: Seq<char>) -> Option<bool>;

/// The characters that `serde_json` reads from `text`, where `text` is a JSON
/// string. `None` for every other text.
pub uninterp spec fn json_string(text: Seq<char>) -> Option<Seq<char>>;

/// The characters of a text that may be absent.
pub open spec fn optional_text(text: Option<String>) -> Option<Seq<char>> {
    match text {
        Some(t) => Some(t@),
        None => None,
    }
}

/// Whether the member `key` of `document` is the boolean `true`. An absent
/// document, an absent member and a member of another type all count as
/// `false`.
pub open spec fn member_flag(document: Option<Seq<char>>, key: Seq<char>) -> bool {
    match document {
        Some(d) => match json_member(d, key) {
            Some(m) => json_boolean(m) == Some(true),
            None => false,
        },
        None => false,
    }
}

/// The member `key` of `document`, where it is a string.
pub open spec fn member_text(document: Option<Seq<char>>, key: Seq<char>) -> Option<Seq<char>> {
    match document {
        Some(d) => match json_member(d, key) {
            Some(m) => json_string(m),
            None => None,
        },
        None => None,
    }
}

/// Trusted: `serde_json::from_str`, asked for a `serde_json::Value`. Only
/// whether it succeeds is named; the value itself is dropped.
#[verifier::external_body]
pub(crate) fn parses(text: &str) -> (ok: bool)
    ensures
        ok == json_well_formed(text@),
{
    serde_json::from_str::<serde_json::Value>(text).is_ok()
}

/// Trusted: `serde_json::Value::get` with a string key, on the value parsed
/// from `text`; the member found is printed back to text. The contract names
/// the outcome and claims nothing more of it.
#[verifier::external_body]
pub(crate) fn member(text: &str, key: &str) -> (found: Option<String>)
    ensures
        optional_text(found) == json_member(text@, key@),
{
    let document: serde_json::Value = serde_json::from_str(text).ok()?;
    document.get(key).map(|value| value.to_string())
}

/// Trusted: `serde_json::Value::as_bool`, on the value parsed from `text`.
#[verifier::external_body]
pub(crate) fn boolean(text: &str) -> (value: Option<bool>)
    ensures
        value == json_boolean(text@),
{
    let document: serde_json::Value = serde_json::from_str(text).ok()?;
    document.as_bool()
}

/// Trusted: `serde_json::Value::as_str`, on the value parsed from `text`.
#[verifier::external_body]
pub(crate) fn string(text: &str) -> (value: Option<String>)
    ensures
        optional_text(value) == json_string(text@),
{
    let document: serde_json::Value = serde_json::from_str(text).ok()?;
    document.as_str().map(|s| s.to_owned())
}

/// Whether the member `key` of `document` is the boolean `true`.
pub fn flag_in(document: &str, key: &str) -> (set: bool)
    ensures
        set == member_flag(Some(document@), key@),
{
    match member(document, key) {
        Some(m) => match boolean(m.as_str()) {
            Some(b) => b,
            None => false,
        },
        None => false,
    }
}

/// The member `key` of `document`, where it is a string.
pub fn text_in(document: &str, key: &str) -> (text: Option<String>)
    ensures
        optional_text(text) == member_text(Some(document@), key@),
{
    match member(document, key) {
        Some(m) => string(m.as_str()),
        None => None,
    }
}

/// Whether the member `key` of a document that may be absent is the boolean
/// `true`.
pub fn flag_of(document: &Option<String>, key: &str) -> (set: bool)
    ensures
        set == member_flag(optional_text(*document), key@),
{
    match document {
        Some(d) => flag_in(d.as_str(), key),
        None => false,
    }
}

/// The member `key` of a document that may be absent, where it is a string.
pub fn text_of(document: &Option<String>, key: &str) -> (text: Option<String>)
    ensures
        optional_text(text) == member_text(optional_text(*document), key@),
{
    match document {
        Some(d) => text_in(d.as_str(), key),
        None => None,
    }
}

} // verus!
