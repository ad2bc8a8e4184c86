//! The JSON values that travel inside Anthropic requests, read with
//! `serde_json`.

use vstd::prelude::*;

verus! {

#[verifier::external_type_specification]
#[verifier::external_body]
pub struct ExJsonValue(serde_json::Value);

#[verifier::external_type_specification]
#[verifier::external_body]
pub struct ExJsonError(serde_json::Error);

/// Whether `serde_json::from_str::<serde_json::Value>` accepts the text: it
/// holds one JSON value, with nothing but white space around it.
pub uninterp spec fn json_parses(text: Seq<char>) -> bool;

/// The value that `serde_json::from_str::<serde_json::Value>` reads from the
/// text, when it accepts it.
pub uninterp spec fn json_value(text: Seq<char>) -> serde_json::Value;

/// Calls `serde_json::from_str::<serde_json::Value>`: it succeeds exactly
/// when the text parses, and then gives the value read from the text.
#[verifier::external_body]
pub(crate) fn json_from_str(text: &str) -> (r: Result<serde_json::Value, serde_json::Error>)
    ensures
        r is Ok <==> json_parses(text@),
        r matches Ok(v) ==> v == json_value(text@),
{
    serde_json::from_str(text)
}

} // verus!
