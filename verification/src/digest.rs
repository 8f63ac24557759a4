//! SHA-256 fingerprints of Bearer tokens and their constant-time comparison.

use vstd::prelude::*;

verus! {

/// The SHA-256 digest of a byte string.
pub uninterp spec fn sha256(data: Seq<u8>) -> Seq<u8>;

/// Calls `sha2::Sha256::digest`: the 32 bytes of the SHA-256 digest of
/// `data`.
#[verifier::external_body]
pub(crate) fn sha256_digest(data: &[u8]) -> (digest: [u8; 32])
    ensures
        digest@ == sha256(data@),
{
    <sha2::Sha256 as sha2::Digest>::digest(data).into()
}

/// Calls `subtle::ConstantTimeEq::ct_eq` on two 32-byte strings and converts
/// the `Choice` with `bool::from`: true exactly when the bytes are equal.
#[verifier::external_body]
pub(crate) fn constant_time_eq(a: &[u8; 32], b: &[u8; 32]) -> (eq: bool)
    ensures
        eq == (a@ == b@),
{
    bool::from(subtle::ConstantTimeEq::ct_eq(&a[..], &b[..]))
}

} // verus!
