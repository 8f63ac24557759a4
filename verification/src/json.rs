//! The JSON values that callers store, carried through as `serde_json`
//! values and written out by `serde_json`.

use vstd::prelude::*;

verus! {

/// Declares `serde_json::Value`, any JSON value.
#[verifier::external_type_specification]
#[verifier::external_body]
pub struct ExJsonValue(serde_json::Value);

/// Declares `serde_json::Error`, the error of a JSON decode or encode.
#[verifier::external_type_specification]
#[verifier::external_body]
pub struct ExJsonError(serde_json::Error);

/// The compact JSON text that `serde_json::to_string` writes for a value.
pub uninterp spec fn json_text(value: serde_json::Value) -> Seq<char>;

/// Calls `serde_json::to_string` on a JSON value: it succeeds, since
/// serialization fails only when a `Serialize` impl fails or a map has a
/// key that is not a string, and a `serde_json::Value` does neither; the
/// text is the compact JSON text of that value.
#[verifier::external_body]
pub(crate) fn json_to_string(value: &serde_json::Value) -> (text: Result<String, serde_json::Error>)
    ensures
        text is Ok,
        text matches Ok(t) ==> t@ == json_text(*value),
{
    serde_json::to_string(value)
}

} // verus!
