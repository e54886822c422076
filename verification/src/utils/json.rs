//! Reading members out of JSON text.
//!
//! JSON is read by `serde_json`. What it finds is not spelled out here: the
//! two functions below give its answers a name, and the rest of the library
//! reasons over those names.

use vstd::prelude::*;

verus! {

/// The member named `name` of the JSON object that `text` holds, written as
/// JSON text again; `None` where `text` is no JSON, holds no object, or the
/// object has no such member.
pub uninterp spec fn json_member_of(text: Seq<char>, name: Seq<char>) -> Option<Seq<char>>;

/// The string that the member named `name` of the JSON object in `text` holds;
/// `None` where there is no such member or it holds no string.
pub uninterp spec fn json_string_member_of(text: Seq<char>, name: Seq<char>) -> Option<Seq<char>>;

/// The member named `name` of the JSON object in `text`, as JSON text.
///
/// Trusted: `text` is parsed with `serde_json::from_str` into a
/// `serde_json::Value`, the member is looked up with `Value::get`, which
/// returns nothing for a value that is no object and for a missing key, and
/// what it found is written with `Value::to_string`. The contract only says
/// that the answer is fixed by `text` and `name`.
#[verifier::external_body]
pub(crate) fn json_member(text: &str, name: &str) -> (r: Option<String>)
    ensures
        match r {
            Some(member) => json_member_of(text@, name@) == Some(member@),
            None => json_member_of(text@, name@) is None,
        },
{
    let value: serde_json::Value = match serde_json::from_str(text) {
        Ok(value) => value,
        Err(_) => return None,
    };
    match value.get(name) {
        Some(member) => Some(member.to_string()),
        None => None,
    }
}

/// The string held by the member named `name` of the JSON object in `text`.
///
/// Trusted: `text` is parsed with `serde_json::from_str`, the member is looked
/// up with `Value::get` and read with `Value::as_str`, which returns nothing
/// for a value that is no string. The contract only says that the answer is
/// fixed by `text` and `name`.
#[verifier::external_body]
pub(crate) fn json_string_member(text: &str, name: &str) -> (r: Option<String>)
    ensures
        match r {
            Some(member) => json_string_member_of(text@, name@) == Some(member@),
            None => json_string_member_of(text@, name@) is None,
        },
{
    let value: serde_json::Value = match serde_json::from_str(text) {
        Ok(value) => value,
        Err(_) => return None,
    };
    match value.get(name) {
        Some(member) => match member.as_str() {
            Some(held) => Some(held.to_owned()),
            None => None,
        },
        None => None,
    }
}

} // verus!
