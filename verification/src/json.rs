//! JSON decoding of response bodies, delegated to the `serde_json` crate.
//!
//! The service answers list endpoints with JSON arrays and error conditions
//! with a JSON object of strings. Each shape the client reads gets one
//! trusted entry point here; what a body decodes to is a function of the
//! bytes alone, so each result is given a name that the contracts of the
//! verified response handlers speak of.
use std::collections::BTreeMap;
use vstd::prelude::*;

verus! {

/// The string array a body decodes to, or `None` where the body is not a
/// JSON array of strings. A function of the bytes alone.
pub uninterp spec fn json_string_array_of(body: Seq<u8>) -> Option<Seq<Seq<char>>>;

/// The string-to-string object a body decodes to, as its entries ordered by
/// key, or `None` where the body is not a JSON object with string values.
/// A function of the bytes alone.
pub uninterp spec fn json_object_of(body: Seq<u8>) -> Option<Seq<(Seq<char>, Seq<char>)>>;

/// The array of string-to-string objects a body decodes to, each object as
/// its entries ordered by key, or `None` where the body is not a JSON array
/// of such objects. A function of the bytes alone.
pub uninterp spec fn json_object_array_of(body: Seq<u8>) -> Option<
    Seq<Seq<(Seq<char>, Seq<char>)>>,
>;

/// Relies on `serde_json::from_slice::<Vec<String>>`: it decodes a JSON
/// array of strings and fails on every other body. The result depends on
/// the bytes alone.
#[verifier::external_body]
pub(crate) fn parse_json_string_array(body: &[u8]) -> (r: Option<Vec<String>>)
    ensures
        match r {
            Some(v) => json_string_array_of(body@) == Some(v.deep_view()),
            None => json_string_array_of(body@) is None,
        },
{
    serde_json::from_slice::<Vec<String>>(body).ok()
}

/// Relies on `serde_json::from_slice::<BTreeMap<String, String>>`: it decodes
/// a JSON object with string values and fails on every other body. The
/// `BTreeMap` hands its entries out ordered by key, so the result depends on
/// the bytes alone.
#[verifier::external_body]
pub(crate) fn parse_json_string_object(body: &[u8]) -> (r: Option<Vec<(String, String)>>)
    ensures
        match r {
            Some(v) => json_object_of(body@) == Some(v.deep_view()),
            None => json_object_of(body@) is None,
        },
{
    let map: BTreeMap<String, String> = serde_json::from_slice(body).ok()?;
    Some(map.into_iter().collect())
}

/// Relies on `serde_json::from_slice::<Vec<BTreeMap<String, String>>>`: it
/// decodes a JSON array of objects with string values and fails on every
/// other body. Each `BTreeMap` hands its entries out ordered by key, so the
/// result depends on the bytes alone.
#[verifier::external_body]
pub(crate) fn parse_json_object_array(body: &[u8]) -> (r: Option<Vec<Vec<(String, String)>>>)
    ensures
        match r {
            Some(v) => json_object_array_of(body@) == Some(v.deep_view()),
            None => json_object_array_of(body@) is None,
        },
{
    let maps: Vec<BTreeMap<String, String>> = serde_json::from_slice(body).ok()?;
    Some(maps.into_iter().map(|m| m.into_iter().collect()).collect())
}

} // verus!
