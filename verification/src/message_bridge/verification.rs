//! The digest validators sign and the check of their signatures.

use vstd::prelude::*;
use crate::common::{push_be_bytes, spec_be_bytes};
use crate::crypto::{ed25519_verify, sha256, spec_ed25519_verifies, spec_sha256};
use crate::message_bridge::types::BridgeError;

verus! {

/// The ASCII bytes of `stellar_bridge:v1:`.
pub open spec fn spec_signing_domain() -> Seq<u8> {
    seq![115u8, 116, 101, 108, 108, 97, 114, 95, 98, 114, 105, 100, 103, 101, 58, 118, 49, 58]
}

/// The bytes hashed into the digest validators sign for a message: the
/// domain tag, the message id, then the Stellar chain id big-endian.
pub open spec fn spec_signing_preimage(message_id: Seq<u8>, stellar_chain_id: u32) -> Seq<u8> {
    spec_signing_domain() + message_id + spec_be_bytes(stellar_chain_id as u128, 4)
}

pub open spec fn spec_signing_hash(message_id: Seq<u8>, stellar_chain_id: u32) -> Seq<u8> {
    spec_sha256(spec_signing_preimage(message_id, stellar_chain_id))
}

/// The digest the validators sign for message `message_id`.
pub fn compute_signing_hash(message_id: &[u8; 32], stellar_chain_id: u32) -> (h: Vec<u8>)
    ensures
        h@ == spec_signing_hash(message_id@, stellar_chain_id),
        h@.len() == 32,
{
    let mut data: Vec<u8> = vec![115u8, 116, 101, 108, 108, 97, 114, 95, 98, 114, 105, 100, 103, 101, 58, 118, 49, 58];
    assert(data@ =~= spec_signing_domain());
    let ghost before = data@;
    let mut i: usize = 0;
    while i < 32
        invariant
            0 <= i <= 32,
            message_id@.len() == 32,
            data@ == before + message_id@.subrange(0, i as int),
        decreases 32 - i,
    {
        data.push(message_id[i]);
        assert(data@ =~= before + message_id@.subrange(0, i + 1));
        i = i + 1;
    }
    assert(message_id@.subrange(0, 32) =~= message_id@);
    push_be_bytes(&mut data, stellar_chain_id as u128, 4);
    assert(data@ =~= spec_signing_preimage(message_id@, stellar_chain_id));
    sha256(&data)
}

/// Whether the signer index at position `i` occurs again later.
pub open spec fn dup_after(idx: Seq<u32>, i: int) -> bool {
    exists|j: int| i < j < idx.len() && #[trigger] idx[j] == idx[i]
}

/// Outcome of checking signatures `i..` in order: each signer index must
/// not repeat later, must name a key, and its signature must verify.
pub open spec fn spec_check_signers(hash: Seq<u8>, keys: Seq<[u8; 32]>, idx: Seq<u32>, sigs: Seq<[u8; 64]>, i: int) -> Result<(), BridgeError>
    decreases sigs.len() - i,
{
    if i < 0 || i >= sigs.len() {
        Ok(())
    } else if dup_after(idx, i) {
        Err(BridgeError::DuplicateSigner)
    } else if idx[i] >= keys.len() {
        Err(BridgeError::InvalidSignerIndex)
    } else if !spec_ed25519_verifies(keys[idx[i] as int]@, hash, sigs[i]@) {
        Err(BridgeError::InvalidSignature)
    } else {
        spec_check_signers(hash, keys, idx, sigs, i + 1)
    }
}

/// Outcome of the multi-signature check.
pub open spec fn spec_verify_multi_sig(hash: Seq<u8>, keys: Seq<[u8; 32]>, idx: Seq<u32>, sigs: Seq<[u8; 64]>, threshold: u32) -> Result<(), BridgeError> {
    if sigs.len() < threshold {
        Err(BridgeError::ThresholdNotMet)
    } else if sigs.len() != idx.len() {
        Err(BridgeError::InvalidSignatureCount)
    } else {
        spec_check_signers(hash, keys, idx, sigs, 0)
    }
}

/// Check that at least `threshold` signatures are given, one per signer
/// index, no signer twice, each index naming a key, and each signature
/// verifying against `signing_hash` under its signer's key.
pub fn verify_multi_sig(
    signing_hash: &Vec<u8>,
    signing_keys: &Vec<[u8; 32]>,
    signer_indices: &Vec<u32>,
    signatures: &Vec<[u8; 64]>,
    threshold: u32,
) -> (r: Result<(), BridgeError>)
    ensures
        r == spec_verify_multi_sig(signing_hash@, signing_keys@, signer_indices@, signatures@, threshold),
{
    let sig_count = signatures.len();
    if sig_count < threshold as usize {
        return Err(BridgeError::ThresholdNotMet);
    }
    if sig_count != signer_indices.len() {
        return Err(BridgeError::InvalidSignatureCount);
    }
    let ghost hash = signing_hash@;
    let ghost keys = signing_keys@;
    let ghost idx = signer_indices@;
    let ghost sigs = signatures@;
    let mut i: usize = 0;
    while i < sig_count
        invariant
            sig_count == sigs.len(),
            idx.len() == sigs.len(),
            sigs.len() >= threshold,
            hash == signing_hash@,
            keys == signing_keys@,
            idx == signer_indices@,
            sigs == signatures@,
            0 <= i <= sig_count,
            spec_check_signers(hash, keys, idx, sigs, 0) == spec_check_signers(hash, keys, idx, sigs, i as int),
        decreases sig_count - i,
    {
        let idx_i = signer_indices[i];
        let mut j: usize = i + 1;
        while j < sig_count
            invariant
                sig_count == sigs.len(),
                idx.len() == sigs.len(),
                sigs.len() >= threshold,
                hash == signing_hash@,
                keys == signing_keys@,
                idx == signer_indices@,
                sigs == signatures@,
                spec_check_signers(hash, keys, idx, sigs, 0) == spec_check_signers(hash, keys, idx, sigs, i as int),
                0 <= i < j <= sig_count,
                idx_i == idx[i as int],
                forall|k: int| i < k < j ==> idx[k] != idx[i as int],
            decreases sig_count - j,
        {
            if signer_indices[j] == idx_i {
                assert(dup_after(idx, i as int));
                return Err(BridgeError::DuplicateSigner);
            }
            j = j + 1;
        }
        assert(!dup_after(idx, i as int));
        if idx_i as usize >= signing_keys.len() {
            return Err(BridgeError::InvalidSignerIndex);
        }
        let key = &signing_keys[idx_i as usize];
        let sig = &signatures[i];
        if !ed25519_verify(key, signing_hash, sig) {
            return Err(BridgeError::InvalidSignature);
        }
        i = i + 1;
    }
    Ok(())
}

/// What an accepted signature set guarantees: at least `threshold`
/// signatures, from distinct signers that each name a key, each verifying.
pub proof fn lemma_check_signers_ok(hash: Seq<u8>, keys: Seq<[u8; 32]>, idx: Seq<u32>, sigs: Seq<[u8; 64]>, i: int)
    requires
        0 <= i,
        idx.len() == sigs.len(),
        spec_check_signers(hash, keys, idx, sigs, i) is Ok,
    ensures
        forall|k: int| i <= k < sigs.len() ==> !dup_after(idx, k) && #[trigger] idx[k] < keys.len()
            && spec_ed25519_verifies(keys[idx[k] as int]@, hash, sigs[k]@),
    decreases sigs.len() - i,
{
    if i < sigs.len() {
        lemma_check_signers_ok(hash, keys, idx, sigs, i + 1);
    }
}

} // verus!
