//! The calls into serde_json that the library makes.
use vstd::prelude::*;
use crate::headers::pairs_view;

verus! {

#[verifier::external_type_specification]
#[verifier::external_body]
pub struct ExJsonValue(serde_json::Value);

#[verifier::external_type_specification]
#[verifier::external_body]
pub struct ExJsonError(serde_json::Error);

/// The members of `b` read as one JSON object, as `serde_json::from_slice`
/// reads it into a `BTreeMap` of raw values: each key once (the last of
/// repeated keys), in key order, with the JSON text of its value. `None`
/// where `b` is not a JSON object.
pub uninterp spec fn json_members(b: Seq<u8>) -> Option<Seq<(Seq<char>, Seq<char>)>>;

/// The text of the JSON string written `raw`, as `serde_json::from_str`
/// reads it into a `String`; `None` where `raw` is not a JSON string.
pub uninterp spec fn json_string(raw: Seq<char>) -> Option<Seq<char>>;

/// `raw` is one JSON text, as `serde_json::from_str` reads it into a `Value`.
pub uninterp spec fn json_text_parses(raw: Seq<char>) -> bool;

/// Relies on `serde_json::from_slice` into a `BTreeMap<String, Box<RawValue>>`:
/// the members of a JSON object, each with the text of its value.
#[verifier::external_body]
pub(crate) fn object_members(b: &[u8]) -> (r: Result<Vec<(String, String)>, serde_json::Error>)
    ensures
        r is Ok == json_members(b@) is Some,
        r matches Ok(v) ==> json_members(b@) == Some(pairs_view(v@)),
{
    serde_json::from_slice::<std::collections::BTreeMap<String, Box<serde_json::value::RawValue>>>(b).map(
        |m| m.into_iter().map(|(k, v)| (k, v.get().to_string())).collect(),
    )
}

/// Relies on `serde_json::from_str` into a `String`: the text of a JSON string.
#[verifier::external_body]
pub(crate) fn string_text(raw: &str) -> (r: Option<String>)
    ensures
        r matches Some(s) ==> json_string(raw@) == Some(s@),
        r is None ==> json_string(raw@) is None,
{
    serde_json::from_str::<String>(raw).ok()
}

/// Relies on `serde_json::from_str` into a `Value`: reads one JSON text.
#[verifier::external_body]
pub(crate) fn parse_json_text(raw: &str) -> (r: Result<serde_json::Value, serde_json::Error>)
    ensures
        r is Ok == json_text_parses(raw@),
{
    serde_json::from_str::<serde_json::Value>(raw)
}

} // verus!
