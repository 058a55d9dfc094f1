use zk_email_lib::dkim::{header_digest, verify_digest};
use zk_email_lib::{verify_detailed, verify_dkim_signature, Rejection};

const PUBKEY_DER: &str = "30819f300d06092a864886f70d010101050003818d0030818902818100d9cb18e741a46fbafa866e53c8c16a4e15a4ffc78867a9b7afb3175cd3bdc49585060365e97ddbfa28a32e033ee115c411d7804c65da4317e5831ef27bfcff00fdd6558a45f2d971b95cae14525805e67b05486fc83390e3acfc9312c19a778d01165c884c8b3b23874e20b581b45014fbf0690537758f1955eaceef508615ff0203010001";
const SIGNATURE: &str = "bc9d393c166c25a36769e6886b269dfbdd0c1907e587e361cbe6cd749cd1ad8b0fd57cc69efd4b4942e926e00490c69da74e5df4e23b27787c4822a1afcbc737500388b4a15ad1d461222fe843602e2f8d59e752a7fa6843b49d6c849f64227a20e17e9c95b8261709480113cbf67e2f08e1e8949c961ee8e64e5b8b4630a20b";
const HEADER_DIGEST: &str = "ff62652102c98f513ab3f55d4edd3e05b1a1aae553e66a90409861bbf5de42d2";
const EMPTY_DIGEST: &str = "e3b0c44298fc1c149afbf4c8996fb92427ae41e4649b934ca495991b7852b855";

fn bytes(h: &str) -> Vec<u8> {
    hex::decode(h).unwrap()
}

fn header() -> Vec<u8> {
    b"test-header".to_vec()
}

#[test]
fn digest_of_full_header() {
    assert_eq!(header_digest(&header(), 11), Some(bytes(HEADER_DIGEST)));
}

#[test]
fn digest_of_empty_prefix() {
    assert_eq!(header_digest(&header(), 0), Some(bytes(EMPTY_DIGEST)));
}

#[test]
fn digest_of_short_header_is_none() {
    assert_eq!(header_digest(&header(), 12), None);
    assert_eq!(header_digest(&header(), 88), None);
}

#[test]
fn valid_signature_over_digest_accepted() {
    assert_eq!(verify_digest(&bytes(PUBKEY_DER), &bytes(SIGNATURE), &bytes(HEADER_DIGEST)), Ok(()));
}

#[test]
fn corrupted_signature_byte_rejected() {
    let good = bytes(SIGNATURE);
    for i in 0..good.len() {
        let mut sig = good.clone();
        sig[i] ^= 0x01;
        assert_eq!(
            verify_digest(&bytes(PUBKEY_DER), &sig, &bytes(HEADER_DIGEST)),
            Err(Rejection::CryptoMismatch)
        );
    }
}

#[test]
fn corrupted_header_byte_rejected() {
    let good = header();
    for i in 0..good.len() {
        let mut h = good.clone();
        h[i] ^= 0x20;
        let digest = header_digest(&h, 11).unwrap();
        assert_ne!(digest, bytes(HEADER_DIGEST));
        assert_eq!(
            verify_digest(&bytes(PUBKEY_DER), &bytes(SIGNATURE), &digest),
            Err(Rejection::CryptoMismatch)
        );
    }
}

#[test]
fn malformed_key_rejected_at_digest() {
    assert_eq!(
        verify_digest(&vec![1, 2, 3], &bytes(SIGNATURE), &bytes(HEADER_DIGEST)),
        Err(Rejection::KeyParseError)
    );
}

#[test]
fn sixteen_byte_signature_rejected() {
    let sig = vec![7u8; 16];
    assert!(!verify_dkim_signature(&bytes(PUBKEY_DER), &sig, &header(), 88));
    assert_eq!(verify_detailed(&bytes(PUBKEY_DER), &sig, &header(), 88), Err(Rejection::BadSignatureShape));
}

#[test]
fn full_rsa_signature_rejected_by_length_rule() {
    let sig = bytes(SIGNATURE);
    assert!(!verify_dkim_signature(&bytes(PUBKEY_DER), &sig, &header(), 88));
    assert_eq!(verify_detailed(&bytes(PUBKEY_DER), &sig, &header(), 88), Err(Rejection::BadSignatureShape));
}

#[test]
fn header_longer_than_bound_rejected() {
    let sig = vec![0u8; 8];
    let h = vec![b'a', b'b'];
    assert!(!verify_dkim_signature(&bytes(PUBKEY_DER), &sig, &h, 8));
    assert_eq!(verify_detailed(&bytes(PUBKEY_DER), &sig, &h, 8), Err(Rejection::HeaderTooLong));
}

#[test]
fn header_at_bound_passes_length_check() {
    let sig = vec![0u8; 8];
    let h = vec![b'a'];
    assert_eq!(verify_detailed(&bytes(PUBKEY_DER), &sig, &h, 8), Err(Rejection::HashedPrefixOutOfRange));
}

#[test]
fn scenario_zero_signature_rejected() {
    let sig = vec![0u8; 8];
    assert_eq!(header().len(), 11);
    assert!(!verify_dkim_signature(&bytes(PUBKEY_DER), &sig, &header(), 88));
    assert_eq!(verify_detailed(&bytes(PUBKEY_DER), &sig, &header(), 88), Err(Rejection::HashedPrefixOutOfRange));
}

#[test]
fn malformed_key_rejected() {
    let sig = vec![0u8; 8];
    assert_eq!(verify_detailed(&vec![0u8; 10], &sig, &Vec::new(), 0), Err(Rejection::KeyParseError));
    assert!(!verify_dkim_signature(&vec![0u8; 10], &sig, &Vec::new(), 0));
}

#[test]
fn eight_byte_signature_never_verifies() {
    let sig = vec![0xffu8; 8];
    assert_eq!(verify_detailed(&bytes(PUBKEY_DER), &sig, &Vec::new(), 0), Err(Rejection::CryptoMismatch));
    assert!(!verify_dkim_signature(&bytes(PUBKEY_DER), &sig, &Vec::new(), 0));
}
