//! The hash and signature primitives the Soroban host offers contracts
//! (`env.crypto()`): the host computes them with `sha2` and `ed25519-dalek`,
//! which are called here with the same functions.

use vstd::prelude::*;

verus! {

/// SHA-256 digest of a byte string.
pub uninterp spec fn spec_sha256(data: Seq<u8>) -> Seq<u8>;

/// Whether `sig` is a valid strict Ed25519 signature of `msg` under the
/// public key `pk`.
pub uninterp spec fn spec_ed25519_verifies(pk: Seq<u8>, msg: Seq<u8>, sig: Seq<u8>) -> bool;

/// `sha2::Sha256::digest`: the claim is that the 32-byte digest is a function
/// of the input bytes alone; nothing more is stated of its value.
#[verifier::external_body]
pub fn sha256(data: &Vec<u8>) -> (h: Vec<u8>)
    ensures
        h@ == spec_sha256(data@),
        h@.len() == 32,
{
    <sha2::Sha256 as sha2::Digest>::digest(data.as_slice()).to_vec()
}

/// `ed25519_dalek::VerifyingKey::from_bytes` then `verify_strict`, as the host
/// runs them for `ed25519_verify`: the claim is that the answer is a function
/// of the key, message and signature bytes alone (a key that does not decode
/// gives `false`); which inputs verify is not stated.
#[verifier::external_body]
pub fn ed25519_verify(pk: &[u8; 32], msg: &Vec<u8>, sig: &[u8; 64]) -> (ok: bool)
    ensures
        ok == spec_ed25519_verifies(pk@, msg@, sig@),
{
    match ed25519_dalek::VerifyingKey::from_bytes(pk) {
        Ok(key) => key.verify_strict(msg.as_slice(), &ed25519_dalek::Signature::from_bytes(sig)).is_ok(),
        Err(_) => false,
    }
}

} // verus!
