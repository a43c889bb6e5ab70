//! Storage of the token's non-fungible and semi-fungible items: owners,
//! metadata, URIs, names, descriptions and each owner's indexed list.

use vstd::prelude::*;
use crate::common::{Address, pair_key, spec_pair_key};
use crate::store::Store;
use crate::token::storage::{TokenEnv, TokenView};

verus! {

#[derive(Debug)]
pub struct NftMetadata {
    pub token_id: u128,
    pub owner: Address,
    pub uri: String,
    pub name: String,
    pub description: String,
}

pub struct NftMetadataView {
    pub token_id: u128,
    pub owner: Address,
    pub uri: Seq<char>,
    pub name: Seq<char>,
    pub description: Seq<char>,
}

impl View for NftMetadata {
    type V = NftMetadataView;

    open spec fn view(&self) -> NftMetadataView {
        NftMetadataView {
            token_id: self.token_id,
            owner: self.owner,
            uri: self.uri@,
            name: self.name@,
            description: self.description@,
        }
    }
}

#[derive(Clone, Copy, Debug, PartialEq, Eq, Structural)]
pub struct SemiFungibleToken {
    pub token_id: u128,
    pub balance: i128,
    pub owner: Address,
}

/// The item records, each keyed by token id (the owner lists by
/// `(index, owner)`).
pub struct NftStorage {
    pub owners: Store<Address>,
    pub metadata: Store<NftMetadata>,
    pub semi_fungible: Store<SemiFungibleToken>,
    pub uris: Store<String>,
    pub names: Store<String>,
    pub descriptions: Store<String>,
    pub owner_tokens: Store<u128>,
    pub owner_token_counts: Store<u32>,
}

#[verifier::ext_equal]
pub struct NftView {
    pub owners: Map<u128, Address>,
    pub metadata: Map<u128, NftMetadataView>,
    pub semi_fungible: Map<u128, SemiFungibleToken>,
    pub uris: Map<u128, Seq<char>>,
    pub names: Map<u128, Seq<char>>,
    pub descriptions: Map<u128, Seq<char>>,
    pub owner_tokens: Map<u128, u128>,
    pub owner_token_counts: Map<u128, u32>,
}

impl View for NftStorage {
    type V = NftView;

    open spec fn view(&self) -> NftView {
        NftView {
            owners: self.owners@,
            metadata: self.metadata@.map_values(|m: NftMetadata| m@),
            semi_fungible: self.semi_fungible@,
            uris: self.uris@.map_values(|s: String| s@),
            names: self.names@.map_values(|s: String| s@),
            descriptions: self.descriptions@.map_values(|s: String| s@),
            owner_tokens: self.owner_tokens@,
            owner_token_counts: self.owner_token_counts@,
        }
    }
}

/// No item records.
pub open spec fn empty_nft_view() -> NftView {
    NftView {
        owners: Map::empty(),
        metadata: Map::empty(),
        semi_fungible: Map::empty(),
        uris: Map::empty(),
        names: Map::empty(),
        descriptions: Map::empty(),
        owner_tokens: Map::empty(),
        owner_token_counts: Map::empty(),
    }
}

impl NftStorage {
    pub open spec fn wf(&self) -> bool {
        &&& self.owners.wf()
        &&& self.metadata.wf()
        &&& self.semi_fungible.wf()
        &&& self.uris.wf()
        &&& self.names.wf()
        &&& self.descriptions.wf()
        &&& self.owner_tokens.wf()
        &&& self.owner_token_counts.wf()
    }

    pub fn new() -> (s: Self)
        ensures
            s.wf(),
            s@ == empty_nft_view(),
    {
        let s = NftStorage {
            owners: Store::new(),
            metadata: Store::new(),
            semi_fungible: Store::new(),
            uris: Store::new(),
            names: Store::new(),
            descriptions: Store::new(),
            owner_tokens: Store::new(),
            owner_token_counts: Store::new(),
        };
        assert(s@ =~= empty_nft_view());
        s
    }
}

/// Storage with the item records replaced by `n`.
pub open spec fn with_nft(v: TokenView, n: NftView) -> TokenView {
    TokenView { nft: n, ..v }
}

fn copy_string(s: &String) -> (c: String)
    ensures
        c@ == s@,
{
    s.clone()
}

pub fn set_nft_owner(env: &mut TokenEnv, token_id: u128, owner: Address)
    requires
        old(env).wf(),
    ensures
        final(env).wf(),
        final(env)@ == with_nft(old(env)@, NftView { owners: old(env)@.nft.owners.insert(token_id, owner), ..old(env)@.nft }),
{
    let ghost pre = env@;
    env.nft.owners.set(token_id, owner);
    assert(env@ =~= with_nft(pre, NftView { owners: pre.nft.owners.insert(token_id, owner), ..pre.nft }));
}

pub fn get_nft_owner(env: &TokenEnv, token_id: u128) -> (r: Option<Address>)
    requires
        env.wf(),
    ensures
        r == (if env@.nft.owners.contains_key(token_id) { Some(env@.nft.owners[token_id]) } else { None }),
{
    match env.nft.owners.get(token_id) {
        Some(a) => Some(*a),
        None => None,
    }
}

pub fn set_nft_metadata(env: &mut TokenEnv, token_id: u128, metadata: NftMetadata)
    requires
        old(env).wf(),
    ensures
        final(env).wf(),
        final(env)@ == with_nft(old(env)@, NftView { metadata: old(env)@.nft.metadata.insert(token_id, metadata@), ..old(env)@.nft }),
{
    let ghost pre = env@;
    let ghost mv = metadata@;
    env.nft.metadata.set(token_id, metadata);
    assert(env@.nft.metadata =~= pre.nft.metadata.insert(token_id, mv));
    assert(env@ =~= with_nft(pre, NftView { metadata: pre.nft.metadata.insert(token_id, mv), ..pre.nft }));
}

pub fn get_nft_metadata(env: &TokenEnv, token_id: u128) -> (r: Option<NftMetadata>)
    requires
        env.wf(),
    ensures
        r is Some <==> env@.nft.metadata.contains_key(token_id),
        r matches Some(m) ==> m@ == env@.nft.metadata[token_id],
{
    match env.nft.metadata.get(token_id) {
        Some(m) => Some(NftMetadata {
            token_id: m.token_id,
            owner: m.owner,
            uri: copy_string(&m.uri),
            name: copy_string(&m.name),
            description: copy_string(&m.description),
        }),
        None => None,
    }
}

pub fn set_semi_fungible_token(env: &mut TokenEnv, token_id: u128, sft: SemiFungibleToken)
    requires
        old(env).wf(),
    ensures
        final(env).wf(),
        final(env)@ == with_nft(old(env)@, NftView { semi_fungible: old(env)@.nft.semi_fungible.insert(token_id, sft), ..old(env)@.nft }),
{
    let ghost pre = env@;
    env.nft.semi_fungible.set(token_id, sft);
    assert(env@ =~= with_nft(pre, NftView { semi_fungible: pre.nft.semi_fungible.insert(token_id, sft), ..pre.nft }));
}

pub fn get_semi_fungible_token(env: &TokenEnv, token_id: u128) -> (r: Option<SemiFungibleToken>)
    requires
        env.wf(),
    ensures
        r == (if env@.nft.semi_fungible.contains_key(token_id) { Some(env@.nft.semi_fungible[token_id]) } else { None }),
{
    match env.nft.semi_fungible.get(token_id) {
        Some(s) => Some(*s),
        None => None,
    }
}

pub fn set_token_uri(env: &mut TokenEnv, token_id: u128, uri: String)
    requires
        old(env).wf(),
    ensures
        final(env).wf(),
        final(env)@ == with_nft(old(env)@, NftView { uris: old(env)@.nft.uris.insert(token_id, uri@), ..old(env)@.nft }),
{
    let ghost pre = env@;
    let ghost sv = uri@;
    env.nft.uris.set(token_id, uri);
    assert(env@.nft.uris =~= pre.nft.uris.insert(token_id, sv));
    assert(env@ =~= with_nft(pre, NftView { uris: pre.nft.uris.insert(token_id, sv), ..pre.nft }));
}

pub fn get_token_uri(env: &TokenEnv, token_id: u128) -> (r: Option<String>)
    requires
        env.wf(),
    ensures
        r is Some <==> env@.nft.uris.contains_key(token_id),
        r matches Some(s) ==> s@ == env@.nft.uris[token_id],
{
    match env.nft.uris.get(token_id) {
        Some(s) => Some(copy_string(s)),
        None => None,
    }
}

pub fn set_token_name(env: &mut TokenEnv, token_id: u128, name: String)
    requires
        old(env).wf(),
    ensures
        final(env).wf(),
        final(env)@ == with_nft(old(env)@, NftView { names: old(env)@.nft.names.insert(token_id, name@), ..old(env)@.nft }),
{
    let ghost pre = env@;
    let ghost sv = name@;
    env.nft.names.set(token_id, name);
    assert(env@.nft.names =~= pre.nft.names.insert(token_id, sv));
    assert(env@ =~= with_nft(pre, NftView { names: pre.nft.names.insert(token_id, sv), ..pre.nft }));
}

pub fn get_token_name(env: &TokenEnv, token_id: u128) -> (r: Option<String>)
    requires
        env.wf(),
    ensures
        r is Some <==> env@.nft.names.contains_key(token_id),
        r matches Some(s) ==> s@ == env@.nft.names[token_id],
{
    match env.nft.names.get(token_id) {
        Some(s) => Some(copy_string(s)),
        None => None,
    }
}

pub fn set_token_description(env: &mut TokenEnv, token_id: u128, description: String)
    requires
        old(env).wf(),
    ensures
        final(env).wf(),
        final(env)@ == with_nft(
            old(env)@,
            NftView { descriptions: old(env)@.nft.descriptions.insert(token_id, description@), ..old(env)@.nft },
        ),
{
    let ghost pre = env@;
    let ghost sv = description@;
    env.nft.descriptions.set(token_id, description);
    assert(env@.nft.descriptions =~= pre.nft.descriptions.insert(token_id, sv));
    assert(env@ =~= with_nft(pre, NftView { descriptions: pre.nft.descriptions.insert(token_id, sv), ..pre.nft }));
}

pub fn get_token_description(env: &TokenEnv, token_id: u128) -> (r: Option<String>)
    requires
        env.wf(),
    ensures
        r is Some <==> env@.nft.descriptions.contains_key(token_id),
        r matches Some(s) ==> s@ == env@.nft.descriptions[token_id],
{
    match env.nft.descriptions.get(token_id) {
        Some(s) => Some(copy_string(s)),
        None => None,
    }
}

/// Storage key of entry `index` of `owner`'s list.
pub open spec fn owner_token_key(owner: Address, index: u32) -> u128 {
    spec_pair_key(index as u64, owner)
}

pub fn set_owner_token(env: &mut TokenEnv, owner: Address, index: u32, token_id: u128)
    requires
        old(env).wf(),
    ensures
        final(env).wf(),
        final(env)@ == with_nft(
            old(env)@,
            NftView { owner_tokens: old(env)@.nft.owner_tokens.insert(owner_token_key(owner, index), token_id), ..old(env)@.nft },
        ),
{
    let ghost pre = env@;
    let k = pair_key(index as u64, owner);
    env.nft.owner_tokens.set(k, token_id);
    assert(env@ =~= with_nft(pre, NftView { owner_tokens: pre.nft.owner_tokens.insert(k, token_id), ..pre.nft }));
}

pub fn get_owner_token(env: &TokenEnv, owner: Address, index: u32) -> (r: Option<u128>)
    requires
        env.wf(),
    ensures
        r == (if env@.nft.owner_tokens.contains_key(owner_token_key(owner, index)) {
            Some(env@.nft.owner_tokens[owner_token_key(owner, index)])
        } else {
            None
        }),
{
    match env.nft.owner_tokens.get(pair_key(index as u64, owner)) {
        Some(t) => Some(*t),
        None => None,
    }
}

pub fn set_owner_token_count(env: &mut TokenEnv, owner: Address, count: u32)
    requires
        old(env).wf(),
    ensures
        final(env).wf(),
        final(env)@ == with_nft(
            old(env)@,
            NftView { owner_token_counts: old(env)@.nft.owner_token_counts.insert(owner.0 as u128, count), ..old(env)@.nft },
        ),
{
    let ghost pre = env@;
    env.nft.owner_token_counts.set(owner.0 as u128, count);
    assert(env@ =~= with_nft(pre, NftView { owner_token_counts: pre.nft.owner_token_counts.insert(owner.0 as u128, count), ..pre.nft }));
}

/// How many items `owner` has listed (0 when none is stored).
pub fn get_owner_token_count(env: &TokenEnv, owner: Address) -> (n: u32)
    requires
        env.wf(),
    ensures
        n == (if env@.nft.owner_token_counts.contains_key(owner.0 as u128) {
            env@.nft.owner_token_counts[owner.0 as u128]
        } else {
            0
        }),
{
    match env.nft.owner_token_counts.get(owner.0 as u128) {
        Some(c) => *c,
        None => 0,
    }
}

} // verus!
