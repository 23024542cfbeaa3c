use cargo_prebuilt::get::Fetcher;
use cargo_prebuilt::hashes::{HashType, Hashes};
use cargo_prebuilt::interact::Interact;
use cargo_prebuilt::errors::{TransportError, TrustError};
use cargo_prebuilt::trust::{compute_hash, verify_bytes, verify_bytes_update, verify_signature, VerifyOutcome};

struct NoIndex;

impl Interact for NoIndex {
    fn get_latest(&mut self, _id: &str) -> Result<String, TransportError> {
        Err(TransportError::ConnectionError)
    }
    fn get_str(&mut self, _id: &str, _version: &str, _f: &str) -> Result<String, TransportError> {
        Err(TransportError::ConnectionError)
    }
    fn get_blob(&mut self, _id: &str, _version: &str, _f: &str) -> Result<Vec<u8>, TransportError> {
        Err(TransportError::ConnectionError)
    }
}

fn only(t: HashType, digest: String) -> Hashes {
    let mut h = Hashes::new();
    match t {
        HashType::Sha256 => h.sha256 = Some(digest),
        HashType::Sha512 => h.sha512 = Some(digest),
        HashType::Sha3_256 => h.sha3_256 = Some(digest),
        HashType::Sha3_512 => h.sha3_512 = Some(digest),
    }
    h
}

#[test]
fn sha256_known_value() {
    assert_eq!(
        compute_hash(HashType::Sha256, b"abc"),
        "ba7816bf8f01cfea414140de5dae2223b00361a396177a9cb410ff61f20015ad"
    );
}

#[test]
fn sha512_known_value() {
    assert_eq!(
        compute_hash(HashType::Sha512, b"abc"),
        "ddaf35a193617abacc417349ae20413112e6fa4e89a97ea20a9eeee64b55d39a2192992a274fc1a836ba3c23a3feebbd454d4423643ce80e2a9ac94fa54ca49f"
    );
}

#[test]
fn sha3_256_known_value() {
    assert_eq!(
        compute_hash(HashType::Sha3_256, b"abc"),
        "3a985da74fe225b2045c172d6bd390bd855f086e3e9d525b46bfe24511431532"
    );
}

#[test]
fn sha3_512_known_value() {
    assert_eq!(
        compute_hash(HashType::Sha3_512, b"abc"),
        "b751850b1a57168a5693cd924b6b096e08f621827444f70d884f5d0240d2712e10e116e9192af3c91a7ec57647e3934057340b4cf408d5a56592f8274eec53f0"
    );
}

#[test]
fn self_hash_always_verifies() {
    let data = b"some binary bytes";
    for t in [
        HashType::Sha256,
        HashType::Sha512,
        HashType::Sha3_256,
        HashType::Sha3_512,
    ] {
        let h = only(t, compute_hash(t, data));
        assert!(verify_bytes_update(&h, data));
        assert!(Fetcher::<NoIndex>::verify_bytes_update(&h, data));
    }
}

#[test]
fn flipped_byte_never_verifies() {
    let data = b"some binary bytes".to_vec();
    for t in [
        HashType::Sha256,
        HashType::Sha512,
        HashType::Sha3_256,
        HashType::Sha3_512,
    ] {
        let h = only(t, compute_hash(t, &data));
        for i in 0..data.len() {
            let mut flipped = data.clone();
            flipped[i] ^= 0x01;
            assert!(!verify_bytes_update(&h, &flipped));
        }
    }
}

#[test]
fn strong_algorithm_wins_over_weak() {
    let data = b"archive contents";
    let mut h = Hashes::new();
    h.sha3_512 = Some(compute_hash(HashType::Sha3_512, data));
    h.sha256 = Some("0000000000000000000000000000000000000000000000000000000000000000".to_string());
    // The weak entry is wrong, but the strong one decides.
    match verify_bytes(false, &h, data) {
        Ok(VerifyOutcome::Verified(HashType::Sha3_512)) => {}
        other => panic!("expected verification with sha3_512, got {:?}", other),
    }
}

#[test]
fn no_fallback_after_strong_mismatch() {
    let data = b"archive contents";
    let mut h = Hashes::new();
    h.sha3_512 = Some("00".to_string());
    h.sha256 = Some(compute_hash(HashType::Sha256, data));
    // The weak entry matches, but the strong mismatch is fatal.
    match verify_bytes(false, &h, data) {
        Err(TrustError::HashMismatch(HashType::Sha3_512)) => {}
        other => panic!("expected a sha3_512 mismatch, got {:?}", other),
    }
}

#[test]
fn no_hash_policy_skips_checking() {
    let mut h = Hashes::new();
    h.sha256 = Some("junk".to_string());
    match verify_bytes(true, &h, b"anything") {
        Ok(VerifyOutcome::Unverified) => {}
        other => panic!("expected unverified, got {:?}", other),
    }
}

#[test]
fn empty_hashes_never_match_in_update_mode() {
    assert!(!verify_bytes_update(&Hashes::new(), b"anything"));
}

static MINISIGN_KEY: &str = "RWQf6LRCGA9i53mlYecO4IzT51TGPpvWucNSCh1CBM0QTaLn73Y7GFO3";
static MINISIGN_SIG: &str = "untrusted comment: signature from minisign secret key\n\
RUQf6LRCGA9i559r3g7V1qNyJDApGip8MfqcadIgT9CuhV3EMhHoN1mGTkUidF/z7SrlQgXdy8ofjb7bNJJylDOocrCo8KLzZwo=\n\
trusted comment: timestamp:1556193335\tfile:test\n\
y/rUw2y8/hOUYjZU71eHp/Wo1KZ40fGy2VJEDl34XMJM+TX48Ss/17u3IvIfbVR1FkZZSNCisQbuQY+bHwhEBg==";

#[test]
fn test_minisign1() {
    let keys = vec![MINISIGN_KEY.to_string()];
    assert!(verify_signature(&keys, "test", MINISIGN_SIG));
}

#[test]
fn minisign_rejects_altered_data() {
    let keys = vec![MINISIGN_KEY.to_string()];
    assert!(!verify_signature(&keys, "Test", MINISIGN_SIG));
}

#[test]
fn minisign_rejects_garbage() {
    let keys = vec!["not a key".to_string()];
    assert!(!verify_signature(&keys, "test", "not a signature"));
    assert!(!verify_signature(&Vec::new(), "test", MINISIGN_SIG));
}

#[test]
fn any_key_of_the_set_suffices() {
    let keys = vec!["not a key".to_string(), MINISIGN_KEY.to_string()];
    assert!(verify_signature(&keys, "test", MINISIGN_SIG));
}
