//! Trusted boundary to the JSON parser.
//!
//! What a body parses to is a function of the body alone, so the fields the
//! normalizers read are given names here. The extractors state their
//! results over those names, and the verified normalization logic is then
//! exact over them.
use vstd::prelude::*;

use crate::normalize::{bugs_view, fields_view, Bug, ForgeFields};

verus! {

/// Whether `serde_json::from_str` parses the body into a JSON document.
pub uninterp spec fn json_parses(body: Seq<char>) -> bool;

/// The string `title`, string `state`, boolean `merged` and boolean `draft`
/// fields of the document the body parses to, in that order. A component is
/// `None` when the body does not parse, the document is no object, or the
/// field is absent or of another type.
pub uninterp spec fn forge_fields_of(body: Seq<char>) -> (
    Option<Seq<char>>,
    Option<Seq<char>>,
    Option<bool>,
    Option<bool>,
);

/// Whether the document the body parses to holds a `result` field;
/// meaningful only when the body parses.
pub uninterp spec fn jsonrpc_result_present(body: Seq<char>) -> bool;

/// The `(summary, is_open)` records of the `bugs` array of the document the
/// body parses to (under JSON-RPC, of its `result` field), in order; `None`
/// when the body does not parse, the `result` field is missing where one is
/// expected, the `bugs` array is missing, or a record lacks a string
/// `summary` or a boolean `is_open`.
pub uninterp spec fn bugzilla_bugs_of(body: Seq<char>, jsonrpc: bool) -> Option<
    Seq<(Seq<char>, bool)>,
>;

/// Relies on `serde_json::from_str` and `serde_json::Value`'s `get`,
/// `as_str` and `as_bool`: the fields a body parses to depend on the body
/// alone.
#[verifier::external_body]
pub fn extract_forge_fields(body: &str) -> (f: ForgeFields)
    ensures
        fields_view(f) == forge_fields_of(body@),
{
    match serde_json::from_str::<serde_json::Value>(body) {
        Ok(v) => ForgeFields {
            title: v.get("title").and_then(|x| x.as_str()).map(|s| s.to_owned()),
            state: v.get("state").and_then(|x| x.as_str()).map(|s| s.to_owned()),
            merged: v.get("merged").and_then(|x| x.as_bool()),
            draft: v.get("draft").and_then(|x| x.as_bool()),
        },
        Err(_) => ForgeFields { title: None, state: None, merged: None, draft: None },
    }
}

/// Relies on `serde_json::from_str` and `serde_json::Value`'s `get`,
/// `as_str`, `as_bool` and `as_array`: which records a body parses to
/// depend on the body and the dialect alone.
#[verifier::external_body]
pub fn bugzilla_records(body: &str, jsonrpc: bool) -> (r: Option<Vec<Bug>>)
    ensures
        r matches Some(v) ==> bugzilla_bugs_of(body@, jsonrpc) == Some(bugs_view(v@)),
        r is None <==> bugzilla_bugs_of(body@, jsonrpc) is None,
{
    let v: serde_json::Value = serde_json::from_str(body).ok()?;
    let root = if jsonrpc { v.get("result")? } else { &v };
    let arr = root.get("bugs").and_then(|b| b.as_array())?;
    let mut out = Vec::new();
    for b in arr {
        let summary = b.get("summary").and_then(|s| s.as_str())?;
        let is_open = b.get("is_open").and_then(|x| x.as_bool())?;
        out.push(Bug { summary: summary.to_owned(), is_open });
    }
    Some(out)
}

/// Relies on `serde_json::from_str`: whether the body is valid JSON depends
/// on the body alone.
#[verifier::external_body]
pub fn body_parses(body: &str) -> (r: bool)
    ensures
        r == json_parses(body@),
{
    serde_json::from_str::<serde_json::Value>(body).is_ok()
}

/// Relies on `serde_json::from_str` and `serde_json::Value::get`: whether
/// the parsed document holds a `result` field depends on the body alone.
#[verifier::external_body]
pub fn body_has_result(body: &str) -> (r: bool)
    ensures
        json_parses(body@) ==> r == jsonrpc_result_present(body@),
{
    match serde_json::from_str::<serde_json::Value>(body) {
        Ok(v) => v.get("result").is_some(),
        Err(_) => false,
    }
}

} // verus!
