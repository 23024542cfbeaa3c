use vstd::prelude::*;

use sha2::Digest;

use crate::errors::TrustError;
use crate::hashes::{HashType, Hashes};
use crate::strutil::str_eq;

verus! {

/// The sha-256 digest of a byte string.
pub uninterp spec fn sha256_of(b: Seq<u8>) -> Seq<u8>;

/// The sha-512 digest of a byte string.
pub uninterp spec fn sha512_of(b: Seq<u8>) -> Seq<u8>;

/// The sha3-256 digest of a byte string.
pub uninterp spec fn sha3_256_of(b: Seq<u8>) -> Seq<u8>;

/// The sha3-512 digest of a byte string.
pub uninterp spec fn sha3_512_of(b: Seq<u8>) -> Seq<u8>;

/// The digest of a byte string under the given algorithm.
pub open spec fn hash_of(t: HashType, b: Seq<u8>) -> Seq<u8> {
    match t {
        HashType::Sha256 => sha256_of(b),
        HashType::Sha512 => sha512_of(b),
        HashType::Sha3_256 => sha3_256_of(b),
        HashType::Sha3_512 => sha3_512_of(b),
    }
}

/// Relies on sha2::Sha256 through the Digest trait: a 32-byte digest of the
/// input bytes alone.
#[verifier::external_body]
fn sha256(bytes: &[u8]) -> (r: Vec<u8>)
    ensures
        r@ == sha256_of(bytes@),
        r@.len() == 32,
{
    sha2::Sha256::digest(bytes).to_vec()
}

/// Relies on sha2::Sha512 through the Digest trait: a 64-byte digest of the
/// input bytes alone.
#[verifier::external_body]
fn sha512(bytes: &[u8]) -> (r: Vec<u8>)
    ensures
        r@ == sha512_of(bytes@),
        r@.len() == 64,
{
    sha2::Sha512::digest(bytes).to_vec()
}

/// Relies on sha3::Sha3_256 through the Digest trait: a 32-byte digest of
/// the input bytes alone.
#[verifier::external_body]
fn sha3_256(bytes: &[u8]) -> (r: Vec<u8>)
    ensures
        r@ == sha3_256_of(bytes@),
        r@.len() == 32,
{
    sha3::Sha3_256::digest(bytes).to_vec()
}

/// Relies on sha3::Sha3_512 through the Digest trait: a 64-byte digest of
/// the input bytes alone.
#[verifier::external_body]
fn sha3_512(bytes: &[u8]) -> (r: Vec<u8>)
    ensures
        r@ == sha3_512_of(bytes@),
        r@.len() == 64,
{
    sha3::Sha3_512::digest(bytes).to_vec()
}

pub open spec fn hex_digits() -> Seq<char> {
    seq!['0', '1', '2', '3', '4', '5', '6', '7', '8', '9', 'a', 'b', 'c', 'd', 'e', 'f']
}

/// The two lowercase hex digits of one byte, high nibble first.
pub open spec fn hex_of_byte(b: u8) -> Seq<char> {
    seq![hex_digits()[b as int / 16], hex_digits()[b as int % 16]]
}

/// The lowercase hex encoding of a byte string.
pub open spec fn hex_of(bs: Seq<u8>) -> Seq<char>
    decreases bs.len(),
{
    if bs.len() == 0 {
        Seq::<char>::empty()
    } else {
        hex_of_byte(bs.first()) + hex_of(bs.drop_first())
    }
}

/// Relies on const_hex::encode: lowercase hex, two digits per byte, high
/// nibble first.
#[verifier::external_body]
fn hex_encode(bytes: &Vec<u8>) -> (r: String)
    ensures
        r@ == hex_of(bytes@),
{
    const_hex::encode(bytes)
}

/// The hex digest of `bytes` under the algorithm `t`, in the form hash
/// manifests record.
pub fn compute_hash(t: HashType, bytes: &[u8]) -> (r: String)
    ensures
        r@ == hex_of(hash_of(t, bytes@)),
{
    match t {
        HashType::Sha256 => hex_encode(&sha256(bytes)),
        HashType::Sha512 => hex_encode(&sha512(bytes)),
        HashType::Sha3_256 => hex_encode(&sha3_256(bytes)),
        HashType::Sha3_512 => hex_encode(&sha3_512(bytes)),
    }
}

/// Whether the recorded digests vouch for the bytes: the strongest recorded
/// algorithm is computed and compared, weaker ones are never consulted, and
/// an artifact without any recorded digest never matches.
pub open spec fn spec_hash_matches(h: Hashes, b: Seq<u8>) -> bool {
    match h.spec_chosen() {
        Some(c) => c.1 == hex_of(hash_of(c.0, b)),
        None => false,
    }
}

/// Compares the bytes against the strongest recorded digest; used in update
/// mode to decide whether an installed binary already matches the manifest.
pub fn verify_bytes_update(in_hashes: &Hashes, bytes: &[u8]) -> (r: bool)
    ensures
        r == spec_hash_matches(*in_hashes, bytes@),
{
    if let Some(expected) = &in_hashes.sha3_512 {
        let computed = compute_hash(HashType::Sha3_512, bytes);
        str_eq(expected.as_str(), computed.as_str())
    } else if let Some(expected) = &in_hashes.sha3_256 {
        let computed = compute_hash(HashType::Sha3_256, bytes);
        str_eq(expected.as_str(), computed.as_str())
    } else if let Some(expected) = &in_hashes.sha512 {
        let computed = compute_hash(HashType::Sha512, bytes);
        str_eq(expected.as_str(), computed.as_str())
    } else if let Some(expected) = &in_hashes.sha256 {
        let computed = compute_hash(HashType::Sha256, bytes);
        str_eq(expected.as_str(), computed.as_str())
    } else {
        false
    }
}

/// How an artifact stood to its recorded hashes.
#[derive(Clone, Copy, Debug, PartialEq, Eq, Structural)]
pub enum VerifyOutcome {
    /// The strongest recorded digest matched, under this algorithm.
    Verified(HashType),
    /// Policy disabled hash checking, or nothing was recorded to check.
    Unverified,
}

/// Verifies an artifact's bytes against its recorded hashes under the
/// algorithm priority rule; a mismatch at the chosen algorithm is fatal and
/// no weaker algorithm is tried after it.
pub fn verify_bytes(no_hash: bool, in_hashes: &Hashes, bytes: &[u8]) -> (r: Result<
    VerifyOutcome,
    TrustError,
>)
    ensures
        no_hash ==> r == Ok::<VerifyOutcome, TrustError>(VerifyOutcome::Unverified),
        !no_hash ==> match in_hashes.spec_chosen() {
            Some(c) => if c.1 == hex_of(hash_of(c.0, bytes@)) {
                r == Ok::<VerifyOutcome, TrustError>(VerifyOutcome::Verified(c.0))
            } else {
                r matches Err(TrustError::HashMismatch(t)) && t == c.0
            },
            None => r == Ok::<VerifyOutcome, TrustError>(VerifyOutcome::Unverified),
        },
{
    if no_hash {
        return Ok(VerifyOutcome::Unverified);
    }
    let t: HashType;
    let expected: &String;
    if let Some(e) = &in_hashes.sha3_512 {
        t = HashType::Sha3_512;
        expected = e;
    } else if let Some(e) = &in_hashes.sha3_256 {
        t = HashType::Sha3_256;
        expected = e;
    } else if let Some(e) = &in_hashes.sha512 {
        t = HashType::Sha512;
        expected = e;
    } else if let Some(e) = &in_hashes.sha256 {
        t = HashType::Sha256;
        expected = e;
    } else {
        return Ok(VerifyOutcome::Unverified);
    }
    let computed = compute_hash(t, bytes);
    if str_eq(expected.as_str(), computed.as_str()) {
        Ok(VerifyOutcome::Verified(t))
    } else {
        Err(TrustError::HashMismatch(t))
    }
}

/// Whether a minisign signature under this key covers this text.
pub uninterp spec fn minisign_ok(key: Seq<char>, data: Seq<char>, sig: Seq<char>) -> bool;

/// Relies on minisign_verify: PublicKey::from_base64, Signature::decode and
/// PublicKey::verify depend only on the key text, the signed text and the
/// signature text; the result is false when any of the three rejects its
/// input.
#[verifier::external_body]
fn minisign_check(key: &str, data: &str, sig: &str) -> (r: bool)
    ensures
        r == minisign_ok(key@, data@, sig@),
{
    match (minisign_verify::PublicKey::from_base64(key), minisign_verify::Signature::decode(sig)) {
        (Ok(pk), Ok(s)) => pk.verify(data.as_bytes(), &s, false).is_ok(),
        _ => false,
    }
}

/// Whether some key of the set vouches for the text under this signature.
pub open spec fn spec_some_key_verifies(keys: Seq<String>, data: Seq<char>, sig: Seq<char>) -> bool {
    exists|i: int| 0 <= i < keys.len() && minisign_ok(#[trigger] keys[i]@, data, sig)
}

/// Tries the signature against every configured key; one match suffices.
pub fn verify_signature(keys: &Vec<String>, data: &str, sig: &str) -> (r: bool)
    ensures
        r == spec_some_key_verifies(keys@, data@, sig@),
{
    let n = keys.len();
    let mut i: usize = 0;
    while i < n
        invariant
            n == keys@.len(),
            0 <= i <= n,
            forall|t: int| 0 <= t < i ==> !minisign_ok(#[trigger] keys@[t]@, data@, sig@),
        decreases n - i,
    {
        if minisign_check(keys[i].as_str(), data, sig) {
            return true;
        }
        i = i + 1;
    }
    false
}

/// Law: a digest computed from the bytes themselves always verifies, for
/// every byte string and every supported algorithm, provided that digest is
/// the one the priority rule picks.
pub proof fn lemma_hash_self_verifies(t: HashType, s: String, b: Seq<u8>, h: Hashes)
    requires
        h.spec_get(t) == Some(s),
        s@ == hex_of(hash_of(t, b)),
        h.spec_chosen() matches Some(c) && c.0 == t,
    ensures
        spec_hash_matches(h, b),
{
}

/// Law: when the strongest algorithm of the priority order is recorded,
/// verification is decided by its digest alone; the weaker entries play no
/// part and are never fallen back to.
pub proof fn lemma_algorithm_priority(h: Hashes, b: Seq<u8>)
    requires
        h.sha3_512 is Some,
    ensures
        h.spec_chosen() == Some((HashType::Sha3_512, h.sha3_512->0@)),
        spec_hash_matches(h, b) == (h.sha3_512->0@ == hex_of(hash_of(HashType::Sha3_512, b))),
{
}

} // verus!
