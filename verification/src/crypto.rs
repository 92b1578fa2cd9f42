//! The two cryptographic oracles the verifier relies on: SHA-256 and P-256
//! (secp256r1) ECDSA signature verification. Both are deterministic functions
//! of their byte-string arguments; their results are named, not modelled.

use vstd::prelude::*;
use sha2::Digest;
use p256::ecdsa::signature::hazmat::PrehashVerifier;

verus! {

/// The SHA-256 digest of `data`.
pub uninterp spec fn sha256_spec(data: Seq<u8>) -> Seq<u8>;

/// Relies on sha2::Sha256: the digest is a function of the input bytes alone
/// and is always 32 bytes long.
#[verifier::external_body]
pub(crate) fn sha256(data: &Vec<u8>) -> (r: Vec<u8>)
    ensures
        r@ == sha256_spec(data@),
        r@.len() == 32,
{
    sha2::Sha256::digest(data.as_slice()).to_vec()
}

/// Whether the 64-byte `r || s` signature verifies against the 32-byte digest
/// under the SEC1-encoded public key.
pub uninterp spec fn p256_verify_spec(
    public_key: Seq<u8>,
    message_hash: Seq<u8>,
    signature: Seq<u8>,
) -> bool;

/// Relies on p256::ecdsa::VerifyingKey::from_sec1_bytes,
/// p256::ecdsa::Signature::from_slice and
/// p256::ecdsa::VerifyingKey::verify_prehash: the verdict is a deterministic
/// function of the three byte strings; a key or signature that does not parse
/// verifies nothing.
#[verifier::external_body]
pub(crate) fn p256_verify(public_key: &[u8; 65], message_hash: &Vec<u8>, signature: &[u8; 64]) -> (
    r: bool)
    ensures
        r == p256_verify_spec(public_key@, message_hash@, signature@),
{
    let key = match p256::ecdsa::VerifyingKey::from_sec1_bytes(public_key) {
        Ok(key) => key,
        Err(_) => return false,
    };
    let sig = match p256::ecdsa::Signature::from_slice(signature) {
        Ok(sig) => sig,
        Err(_) => return false,
    };
    key.verify_prehash(message_hash.as_slice(), &sig).is_ok()
}

} // verus!
