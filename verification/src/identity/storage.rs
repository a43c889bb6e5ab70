//! The registry's storage and its accessors.

use vstd::prelude::*;
use crate::common::{Address, addr_key, bytes32_eq, copy_bytes, spec_addr_key};
use crate::store::Store;
use crate::identity::types::{Credential, CredentialView, IdentityMetadata, IdentityMetadataView};

verus! {

/// Contract storage of the identity registry.
pub struct IdentityEnv {
    pub admin: Option<Address>,
    pub identities: Store<IdentityMetadata>,
    /// Credentials with their claim hashes, one per hash.
    pub credentials: Vec<([u8; 32], Credential)>,
    pub verifiers: Store<bool>,
}

#[verifier::ext_equal]
pub struct IdentityView {
    pub admin: Option<Address>,
    pub identities: Map<u128, IdentityMetadataView>,
    pub credentials: Seq<(Seq<u8>, CredentialView)>,
    pub verifiers: Map<u128, bool>,
}

impl View for IdentityEnv {
    type V = IdentityView;

    open spec fn view(&self) -> IdentityView {
        IdentityView {
            admin: self.admin,
            identities: self.identities@.map_values(|m: IdentityMetadata| m@),
            credentials: self.credentials@.map_values(|c: ([u8; 32], Credential)| (c.0@, c.1@)),
            verifiers: self.verifiers@,
        }
    }
}

/// No claim hash occurs twice.
pub open spec fn hashes_unique(c: Seq<(Seq<u8>, CredentialView)>) -> bool {
    forall|i: int, j: int| 0 <= i < j < c.len() ==> #[trigger] c[i].0 != #[trigger] c[j].0
}

pub open spec fn has_credential(v: IdentityView, h: Seq<u8>) -> bool {
    exists|i: int| 0 <= i < v.credentials.len() && #[trigger] v.credentials[i].0 == h
}

pub open spec fn credential_index(v: IdentityView, h: Seq<u8>) -> int {
    choose|i: int| 0 <= i < v.credentials.len() && #[trigger] v.credentials[i].0 == h
}

/// The credential stored under claim hash `h`.
pub open spec fn spec_credential(v: IdentityView, h: Seq<u8>) -> Option<CredentialView> {
    if has_credential(v, h) {
        Some(v.credentials[credential_index(v, h)].1)
    } else {
        None
    }
}

/// The credential list after writing `c` under `h`.
pub open spec fn spec_set_credential(v: IdentityView, h: Seq<u8>, c: CredentialView) -> Seq<(Seq<u8>, CredentialView)> {
    if has_credential(v, h) {
        v.credentials.update(credential_index(v, h), (h, c))
    } else {
        v.credentials.push((h, c))
    }
}

pub open spec fn spec_identity(v: IdentityView, a: Address) -> Option<IdentityMetadataView> {
    if v.identities.contains_key(spec_addr_key(a)) {
        Some(v.identities[spec_addr_key(a)])
    } else {
        None
    }
}

pub open spec fn spec_is_verifier(v: IdentityView, a: Address) -> bool {
    v.verifiers.contains_key(spec_addr_key(a)) && v.verifiers[spec_addr_key(a)]
}

impl IdentityEnv {
    pub open spec fn wf(&self) -> bool {
        &&& self.identities.wf()
        &&& self.verifiers.wf()
        &&& hashes_unique(self@.credentials)
    }

    pub fn new() -> (e: Self)
        ensures
            e.wf(),
            e@ == (IdentityView { admin: None, identities: Map::empty(), credentials: Seq::empty(), verifiers: Map::empty() }),
    {
        let e = IdentityEnv { admin: None, identities: Store::new(), credentials: Vec::new(), verifiers: Store::new() };
        assert(e@ =~= IdentityView { admin: None, identities: Map::empty(), credentials: Seq::empty(), verifiers: Map::empty() });
        e
    }
}

fn copy_identity(m: &IdentityMetadata) -> (c: IdentityMetadata)
    ensures
        c@ == m@,
{
    IdentityMetadata { did_uri: copy_bytes(&m.did_uri), public_key: m.public_key, created_at: m.created_at, updated_at: m.updated_at }
}

fn copy_credential(m: &Credential) -> (c: Credential)
    ensures
        c@ == m@,
{
    Credential {
        issuer: m.issuer,
        subject: m.subject,
        credential_type: m.credential_type,
        claim_hash: m.claim_hash,
        signature: copy_bytes(&m.signature),
        issued_at: m.issued_at,
        expires_at: m.expires_at,
        is_revoked: m.is_revoked,
    }
}

pub fn get_admin(env: &IdentityEnv) -> (r: Option<Address>)
    ensures
        r == env@.admin,
{
    env.admin
}

pub fn set_admin(env: &mut IdentityEnv, admin: Address)
    requires
        old(env).wf(),
    ensures
        final(env).wf(),
        final(env)@ == (IdentityView { admin: Some(admin), ..old(env)@ }),
{
    env.admin = Some(admin);
}

pub fn has_admin(env: &IdentityEnv) -> (b: bool)
    ensures
        b == env@.admin is Some,
{
    env.admin.is_some()
}

pub fn get_identity(env: &IdentityEnv, address: Address) -> (r: Option<IdentityMetadata>)
    requires
        env.wf(),
    ensures
        r is Some <==> spec_identity(env@, address) is Some,
        r matches Some(m) ==> spec_identity(env@, address) == Some(m@),
{
    match env.identities.get(addr_key(address)) {
        Some(m) => Some(copy_identity(m)),
        None => None,
    }
}

pub fn set_identity(env: &mut IdentityEnv, address: Address, metadata: IdentityMetadata)
    requires
        old(env).wf(),
    ensures
        final(env).wf(),
        final(env)@ == (IdentityView { identities: old(env)@.identities.insert(spec_addr_key(address), metadata@), ..old(env)@ }),
{
    let ghost pre = env@;
    let ghost m = metadata@;
    env.identities.set(addr_key(address), metadata);
    assert(env@ =~= IdentityView { identities: pre.identities.insert(spec_addr_key(address), m), ..pre });
}

fn find_credential(env: &IdentityEnv, claim_hash: &[u8; 32]) -> (r: Option<usize>)
    requires
        env.wf(),
    ensures
        r is None <==> !has_credential(env@, claim_hash@),
        r matches Some(i) ==> i < env.credentials@.len() && i == credential_index(env@, claim_hash@),
{
    let ghost c = env@.credentials;
    let mut i: usize = 0;
    while i < env.credentials.len()
        invariant
            env.wf(),
            c == env@.credentials,
            c.len() == env.credentials@.len(),
            0 <= i <= c.len(),
            forall|k: int| 0 <= k < i ==> (#[trigger] c[k]).0 != claim_hash@,
        decreases c.len() - i,
    {
        assert(c[i as int].0 == env.credentials@[i as int].0@);
        if bytes32_eq(&env.credentials[i].0, claim_hash) {
            proof {
                assert(has_credential(env@, claim_hash@));
                let j = credential_index(env@, claim_hash@);
                if j != i {
                    if j < i {
                        assert(c[j].0 != c[i as int].0);
                    } else {
                        assert(c[i as int].0 != c[j].0);
                    }
                }
            }
            return Some(i);
        }
        i = i + 1;
    }
    None
}

pub fn get_credential(env: &IdentityEnv, claim_hash: [u8; 32]) -> (r: Option<Credential>)
    requires
        env.wf(),
    ensures
        r is Some <==> spec_credential(env@, claim_hash@) is Some,
        r matches Some(c) ==> spec_credential(env@, claim_hash@) == Some(c@),
{
    match find_credential(env, &claim_hash) {
        Some(i) => {
            let c = copy_credential(&env.credentials[i].1);
            assert(env@.credentials[i as int].1 == env.credentials@[i as int].1@);
            Some(c)
        },
        None => None,
    }
}

pub fn set_credential(env: &mut IdentityEnv, claim_hash: [u8; 32], credential: Credential)
    requires
        old(env).wf(),
    ensures
        final(env).wf(),
        final(env)@ == (IdentityView { credentials: spec_set_credential(old(env)@, claim_hash@, credential@), ..old(env)@ }),
{
    let ghost pre = env@;
    let ghost cv = credential@;
    match find_credential(env, &claim_hash) {
        Some(i) => {
            env.credentials.set(i, (claim_hash, credential));
            proof {
                let a = pre.credentials;
                let b = env@.credentials;
                assert(b =~= a.update(i as int, (claim_hash@, cv)));
                assert forall|p: int, q: int| 0 <= p < q < b.len() implies #[trigger] b[p].0 != #[trigger] b[q].0 by {
                    if p != i && q != i {
                        assert(a[p].0 != a[q].0);
                    } else if p == i {
                        assert(b[q] == a[q]);
                        assert(a[p].0 != a[q].0);
                    } else {
                        assert(b[p] == a[p]);
                        assert(a[p].0 != a[q].0);
                    }
                }
            }
        },
        None => {
            env.credentials.push((claim_hash, credential));
            proof {
                let a = pre.credentials;
                let b = env@.credentials;
                assert(b =~= a.push((claim_hash@, cv)));
                assert forall|p: int, q: int| 0 <= p < q < b.len() implies #[trigger] b[p].0 != #[trigger] b[q].0 by {
                    assert(b[p] == a[p]);
                    if q < a.len() {
                        assert(b[q] == a[q]);
                    } else if b[p].0 == b[q].0 {
                        assert(has_credential(pre, claim_hash@));
                    }
                }
            }
        },
    }
    assert(env@ =~= IdentityView { credentials: spec_set_credential(pre, claim_hash@, cv), ..pre });
}

pub fn is_verifier(env: &IdentityEnv, address: Address) -> (b: bool)
    requires
        env.wf(),
    ensures
        b == spec_is_verifier(env@, address),
{
    match env.verifiers.get(addr_key(address)) {
        Some(b) => *b,
        None => false,
    }
}

pub fn set_verifier(env: &mut IdentityEnv, address: Address, status: bool)
    requires
        old(env).wf(),
    ensures
        final(env).wf(),
        final(env)@ == (IdentityView { verifiers: old(env)@.verifiers.insert(spec_addr_key(address), status), ..old(env)@ }),
{
    let ghost pre = env@;
    env.verifiers.set(addr_key(address), status);
    assert(env@ =~= IdentityView { verifiers: pre.verifiers.insert(spec_addr_key(address), status), ..pre });
}

/// A credential written under a claim hash is what is read back under it.
pub proof fn law_credential_read_back(v: IdentityView, h: Seq<u8>, c: CredentialView)
    requires
        hashes_unique(v.credentials),
    ensures
        ({
            let w = IdentityView { credentials: spec_set_credential(v, h, c), ..v };
            &&& hashes_unique(w.credentials)
            &&& spec_credential(w, h) == Some(c)
        }),
{
    let w = IdentityView { credentials: spec_set_credential(v, h, c), ..v };
    let a = v.credentials;
    let b = w.credentials;
    let n = if has_credential(v, h) { credential_index(v, h) } else { a.len() as int };
    assert(b[n].0 == h);
    assert forall|p: int, q: int| 0 <= p < q < b.len() implies #[trigger] b[p].0 != #[trigger] b[q].0 by {
        if p != n && q != n {
            assert(b[p] == a[p] && b[q] == a[q]);
        } else if p == n {
            assert(b[q] == a[q]);
            if has_credential(v, h) {
                assert(a[p].0 != a[q].0);
            }
        } else {
            assert(b[p] == a[p]);
            if has_credential(v, h) {
                assert(a[p].0 != a[q].0);
            } else if b[p].0 == b[q].0 {
                assert(has_credential(v, h));
            }
        }
    }
    assert(has_credential(w, h));
    let j = credential_index(w, h);
    if j != n {
        if j < n {
            assert(b[j].0 != b[n].0);
        } else {
            assert(b[n].0 != b[j].0);
        }
    }
}

/// An identity written for an account is what is read back for it.
pub proof fn law_identity_read_back(v: IdentityView, a: Address, m: IdentityMetadataView)
    ensures
        spec_identity(IdentityView { identities: v.identities.insert(spec_addr_key(a), m), ..v }, a) == Some(m),
{
}

} // verus!
