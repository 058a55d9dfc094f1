//! The DKIM signature check: shape rules on the inputs, then RSA PKCS#1 v1.5
//! verification of the SHA-256 digest of the hashed header prefix.
use crate::crypto::{
    pkcs1v15_sha256_accepts, pkcs1v15_sha256_verify, rsa_der_key_valid, sha256, sha256_of, RsaKey,
};
use vstd::prelude::*;

verus! {

/// Number of bytes a DKIM signature must have in this protocol.
pub const SIGNATURE_LEN: usize = 8;

/// Why a verification did not succeed.
#[derive(Debug, Clone, Copy, PartialEq, Eq, Structural)]
pub enum Rejection {
    /// The signature does not have `SIGNATURE_LEN` bytes.
    BadSignatureShape,
    /// The header is longer than `max_headers_length / 8` bytes.
    HeaderTooLong,
    /// The header has fewer than `max_headers_length` bytes, so the hashed
    /// prefix does not exist.
    HashedPrefixOutOfRange,
    /// The public key is not a DER-encoded RSA public key.
    KeyParseError,
    /// The signature does not verify against the digest under the key.
    CryptoMismatch,
}

/// The length bound on the header: at most `max_headers_length / 8` bytes.
pub open spec fn header_within_bound(header_len: nat, max_headers_length: u32) -> bool {
    header_len <= (max_headers_length / 8) as nat
}

/// Outcome of checking `sig` against an already computed `digest`.
pub open spec fn digest_outcome(pubkey: Seq<u8>, digest: Seq<u8>, sig: Seq<u8>) -> Result<(), Rejection> {
    if !rsa_der_key_valid(pubkey) {
        Err(Rejection::KeyParseError)
    } else if !pkcs1v15_sha256_accepts(pubkey, digest, sig) {
        Err(Rejection::CryptoMismatch)
    } else {
        Ok(())
    }
}

/// Outcome of the full DKIM check: shape rules first, then the signature over
/// the SHA-256 digest of the first `max_headers_length` header bytes.
pub open spec fn dkim_outcome(pubkey: Seq<u8>, sig: Seq<u8>, header: Seq<u8>, max_headers_length: u32) -> Result<(), Rejection> {
    if sig.len() != SIGNATURE_LEN {
        Err(Rejection::BadSignatureShape)
    } else if !header_within_bound(header.len(), max_headers_length) {
        Err(Rejection::HeaderTooLong)
    } else if header.len() < max_headers_length {
        Err(Rejection::HashedPrefixOutOfRange)
    } else {
        digest_outcome(pubkey, sha256_of(header.take(max_headers_length as int)), sig)
    }
}

/// Whether the DKIM check succeeds.
pub open spec fn dkim_accepts(pubkey: Seq<u8>, sig: Seq<u8>, header: Seq<u8>, max_headers_length: u32) -> bool {
    dkim_outcome(pubkey, sig, header, max_headers_length) is Ok
}

/// Checks `signature` against a precomputed SHA-256 `digest` under the
/// DER-encoded RSA key `pubkey`.
pub fn verify_digest(pubkey: &Vec<u8>, signature: &Vec<u8>, digest: &Vec<u8>) -> (r: Result<(), Rejection>)
    ensures
        r == digest_outcome(pubkey@, digest@, signature@),
{
    let key = match RsaKey::from_der(pubkey) {
        Some(key) => key,
        None => return Err(Rejection::KeyParseError),
    };
    if pkcs1v15_sha256_verify(&key, digest.as_slice(), signature.as_slice()) {
        Ok(())
    } else {
        Err(Rejection::CryptoMismatch)
    }
}

/// The SHA-256 digest of the first `max_headers_length` bytes of the header;
/// `None` when the header is shorter than that.
pub fn header_digest(email_header: &Vec<u8>, max_headers_length: u32) -> (r: Option<Vec<u8>>)
    ensures
        r is None <==> email_header@.len() < max_headers_length,
        r matches Some(d) ==> d@ == sha256_of(email_header@.take(max_headers_length as int)),
{
    if email_header.len() < max_headers_length as usize {
        return None;
    }
    let hashed = vstd::slice::slice_subrange(email_header.as_slice(), 0, max_headers_length as usize);
    assert(hashed@ == email_header@.take(max_headers_length as int));
    Some(sha256(hashed))
}

/// The DKIM check, reporting which rule rejected the inputs.
pub fn verify_detailed(
    pubkey: &Vec<u8>,
    signature: &Vec<u8>,
    email_header: &Vec<u8>,
    max_headers_length: u32,
) -> (r: Result<(), Rejection>)
    ensures
        r == dkim_outcome(pubkey@, signature@, email_header@, max_headers_length),
{
    if signature.len() != SIGNATURE_LEN {
        return Err(Rejection::BadSignatureShape);
    }
    if email_header.len() > (max_headers_length / 8) as usize {
        return Err(Rejection::HeaderTooLong);
    }
    match header_digest(email_header, max_headers_length) {
        Some(digest) => verify_digest(pubkey, signature, &digest),
        None => Err(Rejection::HashedPrefixOutOfRange),
    }
}

/// Verifies a DKIM signature: `true` exactly when the signature has
/// `SIGNATURE_LEN` bytes, the header has at most `max_headers_length / 8`
/// bytes and at least `max_headers_length` bytes, `pubkey` is a DER-encoded
/// RSA public key, and `signature` is its PKCS#1 v1.5 signature of the
/// SHA-256 digest of the first `max_headers_length` header bytes.
pub fn verify_dkim_signature(
    pubkey: &Vec<u8>,
    signature: &Vec<u8>,
    email_header: &Vec<u8>,
    max_headers_length: u32,
) -> (r: bool)
    ensures
        r == dkim_accepts(pubkey@, signature@, email_header@, max_headers_length),
{
    verify_detailed(pubkey, signature, email_header, max_headers_length).is_ok()
}

/// A well-formed key, a signature of the protocol's length and a header that
/// meets the length rules, where the signature is a valid PKCS#1 v1.5
/// signature of the SHA-256 digest of the hashed prefix, are accepted.
pub proof fn lemma_valid_signature_accepted(pubkey: Seq<u8>, sig: Seq<u8>, header: Seq<u8>, max_headers_length: u32)
    requires
        sig.len() == SIGNATURE_LEN,
        header_within_bound(header.len(), max_headers_length),
        max_headers_length <= header.len(),
        rsa_der_key_valid(pubkey),
        pkcs1v15_sha256_accepts(pubkey, sha256_of(header.take(max_headers_length as int)), sig),
    ensures
        dkim_accepts(pubkey, sig, header, max_headers_length),
{
}

/// A signature whose length is not the protocol's is rejected, whatever the
/// other inputs.
pub proof fn lemma_bad_signature_length_rejected(pubkey: Seq<u8>, sig: Seq<u8>, header: Seq<u8>, max_headers_length: u32)
    requires
        sig.len() != SIGNATURE_LEN,
    ensures
        !dkim_accepts(pubkey, sig, header, max_headers_length),
{
}

/// A header longer than `max_headers_length / 8` bytes is rejected, whatever
/// the other inputs.
pub proof fn lemma_long_header_rejected(pubkey: Seq<u8>, sig: Seq<u8>, header: Seq<u8>, max_headers_length: u32)
    requires
        header.len() > max_headers_length / 8,
    ensures
        !dkim_accepts(pubkey, sig, header, max_headers_length),
{
}

} // verus!
