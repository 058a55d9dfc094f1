//! SHA-256 hashing and RSA PKCS#1 v1.5 signature checking, supplied by the
//! `sha2` and `rsa` crates.
use rsa::RsaPublicKey;
use vstd::prelude::*;

verus! {

/// Number of bytes in a SHA-256 digest.
pub const DIGEST_LEN: usize = 32;

/// The SHA-256 digest of `data`.
pub uninterp spec fn sha256_of(data: Seq<u8>) -> Seq<u8>;

/// Whether `der` is a DER-encoded SubjectPublicKeyInfo that holds an RSA
/// public key the `rsa` crate accepts.
pub uninterp spec fn rsa_der_key_valid(der: Seq<u8>) -> bool;

/// Whether `sig` is a valid RSASSA-PKCS1-v1_5 signature, with the SHA-256
/// DigestInfo prefix, of the prehashed `digest` under the RSA public key that
/// `der` encodes.
pub uninterp spec fn pkcs1v15_sha256_accepts(der: Seq<u8>, digest: Seq<u8>, sig: Seq<u8>) -> bool;

#[verifier::external_type_specification]
#[verifier::external_body]
pub struct ExRsaPublicKey(rsa::RsaPublicKey);

/// Relies on `sha2::Sha256::digest`: the 32-byte SHA-256 digest of `data`,
/// which depends on `data` alone.
#[verifier::external_body]
pub(crate) fn sha256(data: &[u8]) -> (r: Vec<u8>)
    ensures
        r@ == sha256_of(data@),
        r@.len() == DIGEST_LEN,
{
    <sha2::Sha256 as sha2::Digest>::digest(data).to_vec()
}

/// Relies on `rsa::pkcs8::DecodePublicKey::from_public_key_der` for
/// `RsaPublicKey`: it parses `der` or fails, depending on `der` alone.
#[verifier::external_body]
fn parse_public_key_der(der: &[u8]) -> (r: Option<RsaPublicKey>)
    ensures
        r is Some <==> rsa_der_key_valid(der@),
{
    match <RsaPublicKey as rsa::pkcs8::DecodePublicKey>::from_public_key_der(der) {
        Ok(key) => Some(key),
        Err(_) => None,
    }
}

/// An RSA public key together with the DER bytes it was parsed from.
///
/// The only constructor is [`RsaKey::from_der`], so `key` is always the
/// result of parsing `der`.
pub struct RsaKey {
    key: RsaPublicKey,
    der: Vec<u8>,
}

impl RsaKey {
    /// The DER bytes this key was parsed from.
    pub closed spec fn der(&self) -> Seq<u8> {
        self.der@
    }

    /// Parses a DER-encoded RSA SubjectPublicKeyInfo.
    pub fn from_der(der: &Vec<u8>) -> (r: Option<RsaKey>)
        ensures
            r is Some <==> rsa_der_key_valid(der@),
            r matches Some(k) ==> k.der() == der@,
    {
        match parse_public_key_der(der.as_slice()) {
            Some(key) => Some(RsaKey { key, der: vstd::slice::slice_to_vec(der.as_slice()) }),
            None => None,
        }
    }
}

/// Relies on `rsa::PublicKey::verify` for `RsaPublicKey` with the padding
/// `rsa::PaddingScheme::new_pkcs1v15_sign::<sha2::Sha256>()`: `Ok` exactly
/// when `sig` is a PKCS#1 v1.5 signature of the 32-byte prehashed `digest`.
/// `key.key` was parsed from `key.der`, so the outcome is a function of the
/// key's DER bytes, the digest and the signature.
#[verifier::external_body]
pub(crate) fn pkcs1v15_sha256_verify(key: &RsaKey, digest: &[u8], sig: &[u8]) -> (r: bool)
    ensures
        r == pkcs1v15_sha256_accepts(key.der(), digest@, sig@),
{
    let padding = rsa::PaddingScheme::new_pkcs1v15_sign::<sha2::Sha256>();
    rsa::PublicKey::verify(&key.key, padding, digest, sig).is_ok()
}

} // verus!
