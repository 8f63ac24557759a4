//! The HTTP header map of an incoming request, as far as the ingestion
//! route reads it: the values stored under the `Authorization` name.

use vstd::prelude::*;
use vstd::string::StringSliceAdditionalSpecFns;

verus! {

/// Declares `http::HeaderMap` (re-exported by axum), a multimap from header
/// names to header values.
#[verifier::external_type_specification]
#[verifier::external_body]
#[verifier::reject_recursive_types(T)]
pub struct ExHeaderMap<T>(axum::http::HeaderMap<T>);

/// Declares `http::HeaderValue`, the bytes of one header value.
#[verifier::external_type_specification]
#[verifier::external_body]
pub struct ExHeaderValue(axum::http::HeaderValue);

/// The values that a header map holds under the `Authorization` name, each
/// as its bytes, in the order in which they were inserted.
pub uninterp spec fn authorization_values(headers: axum::http::HeaderMap) -> Seq<Seq<u8>>;

/// The bytes that a header value holds.
pub uninterp spec fn header_value_bytes(value: axum::http::HeaderValue) -> Seq<u8>;

/// HTTP's "visible ASCII" test that `HeaderValue::to_str` applies to each
/// byte: a horizontal tab or a byte from 0x20 to 0x7e.
pub open spec fn is_visible_ascii(b: u8) -> bool {
    (0x20 <= b && b < 0x7f) || b == 0x09
}

/// Counts the `Authorization` values with `HeaderMap::get_all(..)`,
/// `GetAll::iter` and `Iterator::count`: the result is the number of values
/// stored under that name.
#[verifier::external_body]
pub(crate) fn authorization_value_count(headers: &axum::http::HeaderMap) -> (count: usize)
    ensures
        count == authorization_values(*headers).len(),
{
    headers.get_all(axum::http::header::AUTHORIZATION).iter().count()
}

/// Calls `HeaderMap::get` with the `Authorization` name: the first value
/// stored under that name, and `None` where there is none.
#[verifier::external_body]
pub(crate) fn first_authorization_value(headers: &axum::http::HeaderMap) -> (value: Option<
    &axum::http::HeaderValue,
>)
    ensures
        value is Some <==> authorization_values(*headers).len() > 0,
        value matches Some(v) ==> header_value_bytes(*v) == authorization_values(*headers)[0],
{
    headers.get(axum::http::header::AUTHORIZATION)
}

/// Calls `HeaderValue::to_str`: it succeeds exactly when every byte of the
/// value is visible ASCII, and then the text has the value's bytes.
#[verifier::external_body]
pub(crate) fn header_value_text(value: &axum::http::HeaderValue) -> (text: Option<&str>)
    ensures
        text is Some <==> (forall|i: int|
            0 <= i < header_value_bytes(*value).len() ==> is_visible_ascii(
                #[trigger] header_value_bytes(*value)[i],
            )),
        text matches Some(t) ==> t.spec_bytes() == header_value_bytes(*value),
{
    match value.to_str() {
        Ok(text) => Some(text),
        Err(_) => None,
    }
}

} // verus!
