//! Wrapped-asset records. Minting, burning and collecting the wrapped
//! tokens are calls on the token contracts that the host makes with the
//! amounts the bridge's entry points decide.

use vstd::prelude::*;
use crate::common::{Address, bytes_eq, copy_bytes};
use crate::message_bridge::types::{BridgeError, MessageBridgeEnv, WrappedAssetInfo, WrappedAssetView, assets_unique};

verus! {

/// Whether a wrapped asset is registered for `token` of chain `chain`.
pub open spec fn has_asset(a: Seq<WrappedAssetView>, chain: u32, token: Seq<u8>) -> bool {
    exists|i: int| 0 <= i < a.len() && (#[trigger] a[i]).source_chain == chain && a[i].original_token == token
}

/// Position of that asset.
pub open spec fn asset_index(a: Seq<WrappedAssetView>, chain: u32, token: Seq<u8>) -> int {
    choose|i: int| 0 <= i < a.len() && (#[trigger] a[i]).source_chain == chain && a[i].original_token == token
}

/// The asset list after registering `stellar` for `token` of `chain`: the
/// record is replaced where one exists, appended otherwise.
pub open spec fn spec_register(a: Seq<WrappedAssetView>, chain: u32, token: Seq<u8>, stellar: Address) -> Seq<WrappedAssetView> {
    let w = WrappedAssetView { source_chain: chain, original_token: token, stellar_token: stellar };
    if has_asset(a, chain, token) {
        a.update(asset_index(a, chain, token), w)
    } else {
        a.push(w)
    }
}

pub proof fn lemma_asset_index_unique(a: Seq<WrappedAssetView>, chain: u32, token: Seq<u8>, i: int)
    requires
        assets_unique(a),
        0 <= i < a.len(),
        a[i].source_chain == chain,
        a[i].original_token == token,
    ensures
        has_asset(a, chain, token),
        asset_index(a, chain, token) == i,
{
    let j = asset_index(a, chain, token);
    if j != i {
        if j < i {
            assert(!(a[j].source_chain == a[i].source_chain && a[j].original_token == a[i].original_token));
        } else {
            assert(!(a[i].source_chain == a[j].source_chain && a[i].original_token == a[j].original_token));
        }
    }
}

fn find_asset(env: &MessageBridgeEnv, source_chain: u32, original_token: &Vec<u8>) -> (r: Option<usize>)
    requires
        env.wf(),
    ensures
        r is None <==> !has_asset(env@.wrapped_assets, source_chain, original_token@),
        r matches Some(i) ==> i == asset_index(env@.wrapped_assets, source_chain, original_token@)
            && i < env@.wrapped_assets.len(),
{
    let ghost a = env@.wrapped_assets;
    let mut i: usize = 0;
    while i < env.wrapped_assets.len()
        invariant
            env.wf(),
            a == env@.wrapped_assets,
            a.len() == env.wrapped_assets@.len(),
            0 <= i <= a.len(),
            forall|k: int| 0 <= k < i ==> !((#[trigger] a[k]).source_chain == source_chain && a[k].original_token == original_token@),
        decreases a.len() - i,
    {
        let w = &env.wrapped_assets[i];
        assert(a[i as int] == w@);
        if w.source_chain == source_chain && bytes_eq(&w.original_token, original_token) {
            proof {
                lemma_asset_index_unique(a, source_chain, original_token@, i as int);
            }
            return Some(i);
        }
        i = i + 1;
    }
    None
}

/// Record `stellar_token` as the wrapped form of `original_token` of
/// chain `source_chain`, replacing an earlier record.
pub fn register(env: &mut MessageBridgeEnv, source_chain: u32, original_token: Vec<u8>, stellar_token: Address)
    requires
        old(env).wf(),
    ensures
        final(env).wf(),
        final(env)@ == (crate::message_bridge::types::MessageBridgeView {
            wrapped_assets: spec_register(old(env)@.wrapped_assets, source_chain, original_token@, stellar_token),
            ..old(env)@
        }),
{
    let ghost pre = env@;
    let ghost w = WrappedAssetView { source_chain, original_token: original_token@, stellar_token };
    let found = find_asset(env, source_chain, &original_token);
    let info = WrappedAssetInfo { source_chain, original_token, stellar_token };
    assert(info@ == w);
    match found {
        Some(i) => {
            env.wrapped_assets.set(i, info);
            proof {
                let a = pre.wrapped_assets;
                assert(env@.wrapped_assets =~= a.update(i as int, w));
                let b = env@.wrapped_assets;
                assert forall|p: int, q: int| 0 <= p < q < b.len() implies !(#[trigger] b[p].source_chain == #[trigger] b[q].source_chain
                    && b[p].original_token == b[q].original_token) by {
                    if p != i && q != i {
                        assert(b[p] == a[p] && b[q] == a[q]);
                    } else if p == i {
                        assert(b[q] == a[q]);
                        assert(!(a[p].source_chain == a[q].source_chain && a[p].original_token == a[q].original_token));
                    } else {
                        assert(b[p] == a[p]);
                        assert(!(a[p].source_chain == a[q].source_chain && a[p].original_token == a[q].original_token));
                    }
                }
            }
        },
        None => {
            env.wrapped_assets.push(info);
            proof {
                let a = pre.wrapped_assets;
                assert(env@.wrapped_assets =~= a.push(w));
                let b = env@.wrapped_assets;
                assert forall|p: int, q: int| 0 <= p < q < b.len() implies !(#[trigger] b[p].source_chain == #[trigger] b[q].source_chain
                    && b[p].original_token == b[q].original_token) by {
                    assert(b[p] == a[p]);
                    if q == a.len() {
                        if b[p].source_chain == b[q].source_chain && b[p].original_token == b[q].original_token {
                            assert(has_asset(a, source_chain, original_token@));
                        }
                    } else {
                        assert(b[q] == a[q]);
                    }
                }
            }
        },
    }
    assert(env@ =~= crate::message_bridge::types::MessageBridgeView {
        wrapped_assets: spec_register(pre.wrapped_assets, source_chain, original_token@, stellar_token),
        ..pre
    });
}

/// The wrapped asset registered for `original_token` of `source_chain`.
pub fn get_asset(env: &MessageBridgeEnv, source_chain: u32, original_token: &Vec<u8>) -> (r: Result<WrappedAssetInfo, BridgeError>)
    requires
        env.wf(),
    ensures
        r is Ok <==> has_asset(env@.wrapped_assets, source_chain, original_token@),
        r is Err ==> r == Err::<WrappedAssetInfo, BridgeError>(BridgeError::WrappedAssetNotFound),
        r matches Ok(w) ==> w@ == env@.wrapped_assets[asset_index(env@.wrapped_assets, source_chain, original_token@)],
{
    match find_asset(env, source_chain, original_token) {
        Some(i) => {
            let w = &env.wrapped_assets[i];
            let c = WrappedAssetInfo {
                source_chain: w.source_chain,
                original_token: copy_bytes(&w.original_token),
                stellar_token: w.stellar_token,
            };
            assert(c@ == env@.wrapped_assets[i as int]);
            Ok(c)
        },
        None => Err(BridgeError::WrappedAssetNotFound),
    }
}

} // verus!
