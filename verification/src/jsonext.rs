//! Trusted declarations for the JSON documents the transport hands over.
//!
//! The nested entry-point shape carries a JSON-encoded object inside a
//! string; what the gateway reads from it are single members, by key.
//! What a given document parses to is the JSON library's affair and takes
//! pages to state, but it is a function of the document's characters
//! alone (serde_json is deterministic and keeps object members in a
//! sorted map), so each extraction result is given a name, and every
//! contract downstream speaks of those names exactly.

use vstd::prelude::*;
use crate::parse::opt_str_view;

verus! {

/// The string member `key` of the JSON object that `doc` parses to:
/// nothing when `doc` does not parse, is not an object, lacks the key,
/// or holds a non-string there.
pub uninterp spec fn json_str_member(doc: Seq<char>, key: Seq<char>) -> Option<Seq<char>>;

/// The numeric member `key` of the JSON object that `doc` parses to,
/// when it is a number representable as a `u64`.
pub uninterp spec fn json_u64_member(doc: Seq<char>, key: Seq<char>) -> Option<u64>;

/// Relies on `serde_json::from_str` for `Value`, `Value::get` with a
/// string index, and `Value::as_str`: looks one string member up in the
/// document's object and copies it out.  The result depends on `doc` and
/// `key` alone, which is what the name states.
#[verifier::external_body]
pub fn json_string_member(doc: &str, key: &str) -> (r: Option<String>)
    ensures
        opt_str_view(r) == json_str_member(doc@, key@),
{
    serde_json::from_str::<serde_json::Value>(doc)
        .ok()
        .and_then(|v| v.get(key).and_then(|m| m.as_str().map(|s| s.to_string())))
}

/// Relies on `serde_json::from_str` for `Value`, `Value::get` with a
/// string index, and `Value::as_u64`: looks one numeric member up in the
/// document's object.  The result depends on `doc` and `key` alone,
/// which is what the name states.
#[verifier::external_body]
pub fn json_number_member(doc: &str, key: &str) -> (r: Option<u64>)
    ensures
        r == json_u64_member(doc@, key@),
{
    serde_json::from_str::<serde_json::Value>(doc)
        .ok()
        .and_then(|v| v.get(key).and_then(|m| m.as_u64()))
}

} // verus!
