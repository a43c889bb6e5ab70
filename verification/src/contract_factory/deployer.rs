//! Deployment salts. The deployment itself, and the call that upgrades an
//! instance, are host operations that the caller of the library performs.

use vstd::prelude::*;
use crate::common::{copy_bytes, push_be_bytes, spec_be_bytes};
use crate::crypto::{sha256, spec_sha256};

verus! {

/// The bytes that are hashed into a salt: the owner's address bytes (its
/// host encoding), then the nonce, big-endian.
pub open spec fn spec_salt_preimage(owner_bytes: Seq<u8>, nonce: u64) -> Seq<u8> {
    owner_bytes + spec_be_bytes(nonce as u128, 8)
}

/// The deployment salt of deployment number `nonce` for the owner whose
/// address bytes are `owner_bytes`.
pub open spec fn spec_salt(owner_bytes: Seq<u8>, nonce: u64) -> Seq<u8> {
    spec_sha256(spec_salt_preimage(owner_bytes, nonce))
}

/// The salt of a deployment: SHA-256 of the owner's address bytes followed
/// by the big-endian nonce.
pub fn compute_salt(owner_bytes: &Vec<u8>, nonce: u64) -> (salt: Vec<u8>)
    ensures
        salt@ == spec_salt(owner_bytes@, nonce),
        salt@.len() == 32,
{
    let mut data = copy_bytes(owner_bytes);
    push_be_bytes(&mut data, nonce as u128, 8);
    assert(data@ =~= spec_salt_preimage(owner_bytes@, nonce));
    sha256(&data)
}

} // verus!
