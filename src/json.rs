//! The boundary with `serde_json`: its value and error types, and the two
//! calls that the decoder makes into it.
use std::collections::VecDeque;
use vstd::prelude::*;

verus! {

/// `serde_json::Value`, the untyped JSON tree, carried through unopened.
#[verifier::external_type_specification]
#[verifier::external_body]
pub struct ExValue(serde_json::Value);

/// `serde_json::Error`, the parser's and the converter's error.
#[verifier::external_type_specification]
#[verifier::external_body]
pub struct ExError(serde_json::Error);

/// The elements of the top-level JSON array that `text` denotes, or `None`
/// where `text` is not well-formed JSON or its top level is not an array.
pub uninterp spec fn json_array_of(text: Seq<char>) -> Option<Seq<serde_json::Value>>;

/// Relies on `serde_json::from_str` into a `VecDeque<serde_json::Value>`:
/// it succeeds exactly on a well-formed document whose top level is an
/// array, and then holds that array's elements in order.
#[verifier::external_body]
pub(crate) fn parse_array(text: &str) -> (r: Result<VecDeque<serde_json::Value>, serde_json::Error>)
    ensures
        r is Ok <==> json_array_of(text@) is Some,
        r is Ok ==> r->Ok_0@ == json_array_of(text@)->Some_0,
{
    serde_json::from_str(text)
}

/// Relies on `serde_json::from_value`: the type-directed conversion of one
/// untyped value into a `T`, which fails on any mismatch.
#[verifier::external_body]
pub(crate) fn convert_value<T: serde::de::DeserializeOwned>(v: serde_json::Value) -> (r: Result<T, serde_json::Error>) {
    serde_json::from_value(v)
}

} // verus!
