//! Admission to the ingestion route: the static Bearer token check and the
//! bound on writes in flight.

use std::sync::Arc;

use vstd::prelude::*;
use vstd::string::StringSliceAdditionalSpecFns;
use vstd::utf8::encode_utf8;

use crate::api::{
    capacity_error, error_response, is_capacity_error, no_store, unauthenticated_response,
    ApiError, ApiResponse, MAX_CONCURRENT_WRITES,
};
use crate::config::{ingest_token_error, is_blank, MAX_INGEST_TOKEN_BYTES};
use crate::digest::{constant_time_eq, sha256, sha256_digest};
use crate::headers::{
    authorization_value_count, authorization_values, first_authorization_value,
    header_value_text, is_visible_ascii,
};
use crate::secret::Secret;
use crate::text::{
    all_ascii_graphic, bytes_are_ascii_graphic, bytes_eq_ignore_ascii_case, eq_ignore_ascii_case,
    first_space, lemma_split_at_first_space, space_byte, split_once_space, trim_whitespace,
    leading_whitespace,
};

verus! {

/// The scheme name `bearer`, in lowercase ASCII.
pub open spec fn bearer_scheme() -> Seq<u8> {
    seq![0x62u8, 0x65u8, 0x61u8, 0x72u8, 0x65u8, 0x72u8]
}

/// Every byte of `s` is visible ASCII or a tab.
pub open spec fn all_visible_ascii(s: Seq<u8>) -> bool {
    forall|i: int| 0 <= i < s.len() ==> is_visible_ascii(#[trigger] s[i])
}

/// The token that one `Authorization` value presents: the value must be
/// visible ASCII, split at its first space into a scheme equal to `Bearer`
/// in any letter case and a token of 1 to [`MAX_INGEST_TOKEN_BYTES`] visible
/// non-space ASCII bytes.
pub open spec fn bearer_token(value: Seq<u8>) -> Option<Seq<u8>> {
    if !all_visible_ascii(value) {
        None
    } else {
        match split_once_space(value) {
            Some((scheme, token)) => if eq_ignore_ascii_case(scheme, bearer_scheme()) && 0
                < token.len() <= MAX_INGEST_TOKEN_BYTES && all_ascii_graphic(token) {
                Some(token)
            } else {
                None
            },
            None => None,
        }
    }
}

/// The token that a request presents: it must carry exactly one
/// `Authorization` value, and that value must present a Bearer token.
pub open spec fn presented_token(values: Seq<Seq<u8>>) -> Option<Seq<u8>> {
    if values.len() == 1 {
        bearer_token(values[0])
    } else {
        None
    }
}

/// A request is authorized when the token it presents has the configured
/// SHA-256 digest.
pub open spec fn token_authorized(digest: Seq<u8>, values: Seq<Seq<u8>>) -> bool {
    presented_token(values) matches Some(token) && sha256(token) == digest
}

/// Checks Bearer tokens against the SHA-256 digest of the configured token,
/// so that the token itself is not kept.
#[derive(Clone, Copy)]
pub struct TokenVerifier([u8; 32]);

impl TokenVerifier {
    /// The digest that presented tokens are compared with.
    pub closed spec fn digest(&self) -> Seq<u8> {
        self.0@
    }

    /// The verifier for the configured token: the digest of its UTF-8 bytes.
    pub fn new(token: &Secret) -> (verifier: TokenVerifier)
        ensures
            verifier.digest() == sha256(encode_utf8(token@)),
    {
        let text = token.expose();
        TokenVerifier(sha256_digest(text.as_bytes()))
    }

    /// Whether the request headers carry exactly one `Authorization` value
    /// with a well-formed Bearer token whose digest is the configured one.
    pub fn authorizes(&self, headers: &axum::http::HeaderMap) -> (authorized: bool)
        ensures
            authorized == token_authorized(self.digest(), authorization_values(*headers)),
    {
        if authorization_value_count(headers) != 1 {
            return false;
        }
        let value = match first_authorization_value(headers) {
            Some(value) => value,
            None => return false,
        };
        let text = match header_value_text(value) {
            Some(text) => text,
            None => return false,
        };
        let bytes = text.as_bytes();
        let ghost values = authorization_values(*headers);
        assert(bytes@ == values[0]);
        let space = match first_space(bytes) {
            Some(space) => space,
            None => {
                proof {
                    if exists|i: int| crate::text::is_first_space(bytes@, i) {
                        let i = choose|i: int| crate::text::is_first_space(bytes@, i);
                        assert(bytes@[i] == space_byte());
                    }
                }
                return false;
            },
        };
        proof {
            lemma_split_at_first_space(bytes@, space as int);
        }
        let length = bytes.len();
        let scheme = vstd::slice::slice_subrange(bytes, 0, space);
        let token = vstd::slice::slice_subrange(bytes, space + 1, length);
        assert(scheme@ == bytes@.take(space as int));
        assert(token@ == bytes@.skip(space + 1));
        let expected: Vec<u8> = vec![0x62u8, 0x65u8, 0x61u8, 0x72u8, 0x65u8, 0x72u8];
        assert(expected@ == bearer_scheme());
        if !bytes_eq_ignore_ascii_case(scheme, expected.as_slice()) || token.len() == 0
            || token.len() > MAX_INGEST_TOKEN_BYTES || !bytes_are_ascii_graphic(token) {
            return false;
        }
        let actual = sha256_digest(token);
        constant_time_eq(&actual, &self.0)
    }
}

/// Declares `tokio::sync::Semaphore`, the pool of write slots.
#[verifier::external_type_specification]
#[verifier::external_body]
pub struct ExSemaphore(tokio::sync::Semaphore);

/// Declares `tokio::sync::OwnedSemaphorePermit`, one held write slot; the
/// slot returns to the pool when the permit is dropped.
#[verifier::external_type_specification]
#[verifier::external_body]
pub struct ExOwnedSemaphorePermit(tokio::sync::OwnedSemaphorePermit);

/// The number of permits that a semaphore was created with: the most
/// permits that can be held from it at once.
pub uninterp spec fn slot_limit(slots: tokio::sync::Semaphore) -> nat;

/// The semaphore that an owned permit was taken from, and to which it
/// returns when dropped.
pub uninterp spec fn permit_pool(permit: tokio::sync::OwnedSemaphorePermit) -> tokio::sync::Semaphore;

/// Calls `tokio::sync::Semaphore::new`, a pool of `permits` slots; tokio
/// panics above `Semaphore::MAX_PERMITS` (`usize::MAX >> 3`), which
/// `requires` rules out.
#[verifier::external_body]
fn new_write_slots(permits: usize) -> (slots: tokio::sync::Semaphore)
    requires
        permits <= usize::MAX / 8,
    ensures
        slot_limit(slots) == permits,
{
    tokio::sync::Semaphore::new(permits)
}

/// Calls `Semaphore::try_acquire_owned`, mapping its error to `None`: a
/// permit, when there is one, comes from the given semaphore. Whether a slot
/// is free depends on the requests in flight, so that is not stated.
#[verifier::external_body]
fn try_acquire_write_slot(slots: Arc<tokio::sync::Semaphore>) -> (permit: Option<
    tokio::sync::OwnedSemaphorePermit,
>)
    ensures
        permit matches Some(p) ==> permit_pool(p) == *slots,
{
    match slots.try_acquire_owned() {
        Ok(permit) => Some(permit),
        Err(_) => None,
    }
}

/// The admission check in front of the ingestion handler: a token check, then a write
/// slot.
#[derive(Clone)]
pub struct IngestAdmission {
    verifier: TokenVerifier,
    write_slots: Arc<tokio::sync::Semaphore>,
}

impl IngestAdmission {
    /// The token verifier of the admission check; its write slots are
    /// [`IngestAdmission::write_slots_spec`].
    pub closed spec fn verifier_spec(&self) -> TokenVerifier {
        self.verifier
    }

    /// A admission check with [`MAX_CONCURRENT_WRITES`] write slots.
    pub fn new(verifier: TokenVerifier) -> (admission: IngestAdmission)
        ensures
            admission.verifier_spec() == verifier,
            slot_limit(*admission.write_slots_spec()) == MAX_CONCURRENT_WRITES,
    {
        IngestAdmission {
            verifier,
            write_slots: Arc::new(new_write_slots(MAX_CONCURRENT_WRITES)),
        }
    }

    /// The write slots of the admission check.
    pub closed spec fn write_slots_spec(&self) -> Arc<tokio::sync::Semaphore> {
        self.write_slots
    }

    /// The write slots of the admission check.
    pub fn write_slots(&self) -> (slots: &Arc<tokio::sync::Semaphore>)
        ensures
            *slots == self.write_slots_spec(),
    {
        &self.write_slots
    }

    /// Lets a request through, before its body is read: an unauthorized request
    /// is answered 401 with `WWW-Authenticate: Bearer`, whether or not a
    /// slot is free; an authorized one gets a write slot or is answered
    /// 429. Every answer here is marked `no-store`.
    pub fn try_enter(&self, headers: &axum::http::HeaderMap) -> (entered: Result<
        tokio::sync::OwnedSemaphorePermit,
        ApiResponse,
    >)
        ensures
            !token_authorized(self.verifier_spec().digest(), authorization_values(*headers))
                ==> (entered matches Err(r) && r.status == 401 && r.www_authenticate_bearer
                && r.no_store && (r.error matches Some(ApiError::Unauthenticated { reason })
                && reason@ == "INVALID_INGEST_TOKEN"@)),
            entered matches Ok(p) ==> permit_pool(p) == *self.write_slots_spec(),
            entered is Ok ==> token_authorized(
                self.verifier_spec().digest(),
                authorization_values(*headers),
            ),
            token_authorized(self.verifier_spec().digest(), authorization_values(*headers))
                ==> (entered is Ok || (entered matches Err(r) && r.status == 429 && r.no_store
                && !r.www_authenticate_bearer && (r.error matches Some(e)
                && is_capacity_error(e)))),
    {
        if !self.verifier.authorizes(headers) {
            return Err(no_store(unauthenticated_response()));
        }
        entry_outcome(try_acquire_write_slot(self.write_slots.clone()))
    }
}

/// The answer to an authorized request once a write slot was asked for:
/// the permit when one was taken, else 429 marked `no-store`.
pub fn entry_outcome(permit: Option<tokio::sync::OwnedSemaphorePermit>) -> (entered: Result<
    tokio::sync::OwnedSemaphorePermit,
    ApiResponse,
>)
    ensures
        match permit {
            Some(p) => entered matches Ok(q) && q == p,
            None => entered matches Err(r) && r.status == 429 && r.no_store
                && !r.www_authenticate_bearer && (r.error matches Some(e) && is_capacity_error(e)),
        },
{
    match permit {
        Some(permit) => Ok(permit),
        None => Err(no_store(error_response(capacity_error()))),
    }
}

/// The answer that the admission check gives to the handler's response: the same
/// response, marked `no-store`.
pub fn complete(response: ApiResponse) -> (completed: ApiResponse)
    ensures
        completed == (ApiResponse { no_store: true, ..response }),
{
    no_store(response)
}

/// A configured token that passes the configuration checks is accepted on
/// the wire: a verifier built from it authorizes a request whose only
/// `Authorization` value is the scheme `Bearer`, in any letter case, a
/// space and that token.
pub proof fn lemma_configured_token_is_authorized(
    verifier: TokenVerifier,
    token: Seq<char>,
    scheme: Seq<u8>,
    values: Seq<Seq<u8>>,
)
    requires
        verifier.digest() == sha256(encode_utf8(token)),
        ingest_token_error(token) is None,
        eq_ignore_ascii_case(scheme, bearer_scheme()),
        values == seq![scheme + seq![space_byte()] + encode_utf8(token)],
    ensures
        token_authorized(verifier.digest(), values),
{
    let wire = encode_utf8(token);
    let value = scheme + seq![space_byte()] + wire;
    assert(values[0] == value);
    // A blank token would be refused, so the token has a character and its
    // encoding has a byte.
    if token.len() == 0 {
        assert(leading_whitespace(token) == 0);
        assert(trim_whitespace(token).len() == 0);
        assert(is_blank(token));
    }
    assert(token.len() > 0);
    assert(wire.len() > 0) by {
        assert(wire == vstd::utf8::encode_scalar(token[0] as u32) + encode_utf8(token.drop_first()));
    }
    let n = scheme.len() as int;
    assert(n == 6);
    assert forall|i: int| 0 <= i < n implies is_visible_ascii(#[trigger] scheme[i]) && scheme[i]
        != space_byte() by {
        assert(crate::text::ascii_lowercase(scheme[i]) == crate::text::ascii_lowercase(
            bearer_scheme()[i],
        ));
    }
    assert forall|i: int| 0 <= i < value.len() implies is_visible_ascii(#[trigger] value[i]) by {
        if i < n {
            assert(value[i] == scheme[i]);
        } else if i > n {
            assert(value[i] == wire[i - n - 1]);
            assert(crate::text::is_ascii_graphic(wire[i - n - 1]));
        }
    }
    assert(crate::text::is_first_space(value, n)) by {
        assert forall|j: int| 0 <= j < n implies value[j] != space_byte() by {
            assert(value[j] == scheme[j]);
        }
    }
    lemma_split_at_first_space(value, n);
    assert(value.take(n) =~= scheme);
    assert(value.skip(n + 1) =~= wire);
    assert(bearer_token(value) == Some(wire));
}

/// A request with no `Authorization` value, or with more than one, is never
/// authorized, whatever the values say.
pub proof fn lemma_authorization_needs_exactly_one_value(digest: Seq<u8>, values: Seq<Seq<u8>>)
    requires
        values.len() != 1,
    ensures
        !token_authorized(digest, values),
{
}

/// Only the Bearer scheme is accepted: an authorized request carries exactly
/// one `Authorization` value, made of the six letters of `bearer`, each in
/// either case, a space, and a token of 1 to 1024 visible non-space ASCII
/// bytes whose SHA-256 digest is the configured one.
pub proof fn lemma_authorized_value_is_bearer_token(digest: Seq<u8>, values: Seq<Seq<u8>>)
    requires
        token_authorized(digest, values),
    ensures
        values.len() == 1,
        8 <= values[0].len() <= 7 + 1024,
        forall|i: int|
            #![trigger values[0][i]]
            0 <= i < 6 ==> values[0][i] == seq![0x62u8, 0x65u8, 0x61u8, 0x72u8, 0x65u8, 0x72u8][i]
                || values[0][i] == seq![0x42u8, 0x45u8, 0x41u8, 0x52u8, 0x45u8, 0x52u8][i],
        values[0][6] == 0x20,
        forall|i: int| 7 <= i < values[0].len() ==> 0x21 <= #[trigger] values[0][i] <= 0x7e,
        sha256(values[0].skip(7)) == digest,
{
    let value = values[0];
    let k = choose|k: int| crate::text::is_first_space(value, k);
    assert(crate::text::is_first_space(value, k));
    lemma_split_at_first_space(value, k);
    let scheme = value.take(k);
    let token = value.skip(k + 1);
    assert(eq_ignore_ascii_case(scheme, bearer_scheme()));
    assert(scheme.len() == 6);
    assert(k == 6);
    assert forall|i: int| 0 <= i < 6 implies #[trigger] value[i] == seq![
        0x62u8,
        0x65u8,
        0x61u8,
        0x72u8,
        0x65u8,
        0x72u8,
    ][i] || value[i] == seq![0x42u8, 0x45u8, 0x41u8, 0x52u8, 0x45u8, 0x52u8][i] by {
        assert(scheme[i] == value[i]);
        assert(crate::text::ascii_lowercase(scheme[i]) == crate::text::ascii_lowercase(
            bearer_scheme()[i],
        ));
    }
    assert forall|i: int| 7 <= i < value.len() implies 0x21 <= #[trigger] value[i] <= 0x7e by {
        assert(token[i - 7] == value[i]);
        assert(crate::text::is_ascii_graphic(token[i - 7]));
    }
}

} // verus!
