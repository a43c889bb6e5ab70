//! Properties of the bridge that span its operations.

use vstd::prelude::*;
use crate::common::Address;
use crate::bridge::types::{BridgeDirection, BridgeError, BridgeRequestStatus, ExternalChain};
use crate::bridge::contract::{
    CrossChainBridgeContract, CrossChainBridgeView, asset_key, counted, request_key, spec_backing_ok,
    spec_completed_state, spec_expired_state, spec_is_validator, spec_new_request, spec_pending_state,
    spec_rejected_state, spec_vote_arith_ok, spec_vote_result, tally_ok, vote_key, voters, with_status,
};
use crate::bridge::types::{BridgeRequestView, ChainConfig, ValidatorSignatureView};
use crate::bridge::storage::spec_refresh_daily_window;
use crate::bridge::contract::{chain_key, spec_transfer_checks};
use crate::common::lemma_pair_key_injective;
use crate::bridge::security::{lemma_valid_threshold_is_bft, twos_complement_128};

verus! {

/// Every validator set the contract holds is Byzantine-fault tolerant: it has
/// at least three validators and a threshold above two thirds of them and no
/// larger than the set. Every operation keeps the contract well formed, so
/// this holds in every reachable state.
pub proof fn law_validator_set_is_bft(c: CrossChainBridgeContract)
    requires
        c.wf(),
    ensures
        c@.validator_set matches Some(s) ==> {
            &&& s.validators.len() >= 3
            &&& 3 * s.threshold > 2 * s.validators.len()
            &&& s.threshold <= s.validators.len()
        },
{
    if let Some(s) = c.validator_set {
        lemma_valid_threshold_is_bft(s.threshold as int, s@.validators.len() as int);
    }
}

/// A new request, inbound or outbound, needs approvals from more than two
/// thirds of the validator set.
pub proof fn law_new_request_needs_bft_quorum(
    c: CrossChainBridgeContract,
    direction: BridgeDirection,
    initiator: Address,
    stellar_asset: Address,
    amount: i128,
    chain: ExternalChain,
    external_address: Seq<u8>,
    external_tx_hash: Seq<u8>,
    now: u64,
)
    requires
        c.wf(),
        c@.validator_set is Some,
    ensures
        3 * spec_new_request(c@, direction, initiator, stellar_asset, amount, chain, external_address,
            external_tx_hash, now).required_approvals > 2 * c@.validator_set.unwrap().validators.len(),
{
    law_validator_set_is_bft(c);
}

/// A vote completes a request only when the approvals, this vote included,
/// reach the request's required approvals.
pub proof fn law_completion_needs_quorum(
    v: CrossChainBridgeView,
    validator: Address,
    request_id: u64,
    approved: bool,
    signature: Seq<u8>,
    now: u64,
)
    ensures
        spec_vote_result(v, validator, request_id, approved, signature, now)
            == Ok::<BridgeRequestStatus, BridgeError>(BridgeRequestStatus::Completed) ==> counted(
            v.requests[request_key(request_id)],
            approved,
        ).approval_count >= v.requests[request_key(request_id)].required_approvals,
{
}

/// A validator votes at most once on a request: a second vote is refused
/// (or, past expiry, only expires the request) and is never counted.
pub proof fn law_single_vote_per_validator(
    v: CrossChainBridgeView,
    validator: Address,
    request_id: u64,
    approved: bool,
    signature: Seq<u8>,
    now: u64,
)
    requires
        v.votes.contains_key(vote_key(request_id, validator)),
    ensures
        spec_vote_result(v, validator, request_id, approved, signature, now) is Err
            || spec_vote_result(v, validator, request_id, approved, signature, now)
            == Ok::<BridgeRequestStatus, BridgeError>(BridgeRequestStatus::Expired),
{
}

/// Completing an inbound claim never leaves the wrapped asset under-backed:
/// with non-negative totals, the minted total after the claim is covered by
/// the locked total.
pub proof fn law_inbound_completion_keeps_backing(
    v: CrossChainBridgeView,
    validator: Address,
    request_id: u64,
    approved: bool,
    signature: Seq<u8>,
    now: u64,
)
    requires
        ({
            let req = v.requests[request_key(request_id)];
            let a = v.wrapped_assets[asset_key(req.stellar_asset, req.external_chain)];
            &&& a.total_locked >= 0
            &&& a.total_minted + req.net_amount >= 0
        }),
        spec_vote_result(v, validator, request_id, approved, signature, now)
            == Ok::<BridgeRequestStatus, BridgeError>(BridgeRequestStatus::Completed),
        v.requests[request_key(request_id)].direction == BridgeDirection::InboundFromExternal,
    ensures
        ({
            let req = v.requests[request_key(request_id)];
            let a = v.wrapped_assets[asset_key(req.stellar_asset, req.external_chain)];
            a.total_locked >= a.total_minted + req.net_amount
        }),
{
    let req = v.requests[request_key(request_id)];
    let a = v.wrapped_assets[asset_key(req.stellar_asset, req.external_chain)];
    let l = a.total_locked as int;
    let m = a.total_minted + req.net_amount;
    assert(spec_backing_ok(l, m));
    if m != 0 {
        assert(twos_complement_128(l) == l);
        assert(twos_complement_128(m) == m);
        assert(l >= m) by (nonlinear_arith)
            requires
                m > 0,
                l >= 0,
                (l * 10_000) / m >= 10_000,
        {
            if l < m {
                assert(l * 10_000 < m * 10_000);
                assert((l * 10_000) / m < 10_000);
            }
        }
    }
}

/// In every state the bridge's entry points reach (each keeps `wf`, which
/// holds the tally), every stored request's approvals plus rejections equal
/// the number of validators recorded as having voted on it.
pub proof fn law_tally_matches_votes(c: CrossChainBridgeContract, id: u64)
    requires
        c.wf(),
        c@.requests.contains_key(request_key(id)),
    ensures
        voters(c@, id).finite(),
        voters(c@, id).len() == c@.requests[request_key(id)].approval_count
            + c@.requests[request_key(id)].rejection_count,
        forall|a: Address| voters(c@, id).contains(a) <==> c@.votes.contains_key(vote_key(id, a)),
{
}

/// A fresh bridge, with no requests and no votes, has a matching tally.
pub proof fn law_tally_holds_initially(v: CrossChainBridgeView)
    requires
        v.requests.is_empty(),
        v.votes.is_empty(),
    ensures
        tally_ok(v),
{
}

/// Recording a new request (id one past the counter, no votes counted, the
/// counter moved to its id, the votes untouched) keeps the tally.
pub proof fn law_new_request_keeps_tally(v: CrossChainBridgeView, req: BridgeRequestView, w: CrossChainBridgeView)
    requires
        tally_ok(v),
        req.request_id == v.request_counter + 1,
        req.approval_count == 0,
        req.rejection_count == 0,
        w.requests == v.requests.insert(request_key(req.request_id), req),
        w.votes == v.votes,
        w.request_counter == req.request_id,
    ensures
        tally_ok(w),
{
    let nid = req.request_id;
    assert(voters(w, nid) =~= Set::<Address>::empty()) by {
        assert forall|a: Address| !(#[trigger] voters(w, nid).contains(a)) by {
            if v.votes.contains_key(vote_key(nid, a)) {
                assert(v.requests.contains_key(request_key(nid)));
            }
        }
    }
    assert forall|id: u64| #[trigger] w.requests.contains_key(request_key(id)) implies {
        &&& w.requests[request_key(id)].request_id == id
        &&& voters(w, id).finite()
        &&& voters(w, id).len() == w.requests[request_key(id)].approval_count
            + w.requests[request_key(id)].rejection_count
        &&& id <= w.request_counter
    } by {
        if id != nid {
            assert(v.requests.contains_key(request_key(id)));
            assert(voters(w, id) =~= voters(v, id));
        }
    }
}

/// A new request as the bridge builds it counts no votes yet.
pub proof fn law_new_request_counts_nothing(
    v: CrossChainBridgeView,
    direction: BridgeDirection,
    initiator: Address,
    stellar_asset: Address,
    amount: i128,
    chain: ExternalChain,
    external_address: Seq<u8>,
    external_tx_hash: Seq<u8>,
    now: u64,
)
    requires
        v.request_counter < u64::MAX,
    ensures
        ({
            let r = spec_new_request(v, direction, initiator, stellar_asset, amount, chain, external_address,
                external_tx_hash, now);
            &&& r.request_id == v.request_counter + 1
            &&& r.approval_count == 0
            &&& r.rejection_count == 0
        }),
{
}

/// Replacing a stored request by one with the same id and the same counts
/// (a cancellation, an expiry), votes untouched, keeps the tally.
pub proof fn law_status_change_keeps_tally(v: CrossChainBridgeView, id: u64, r: BridgeRequestView, w: CrossChainBridgeView)
    requires
        tally_ok(v),
        v.requests.contains_key(request_key(id)),
        r.request_id == id,
        r.approval_count == v.requests[request_key(id)].approval_count,
        r.rejection_count == v.requests[request_key(id)].rejection_count,
        w.requests == v.requests.insert(request_key(id), r),
        w.votes == v.votes,
        w.request_counter == v.request_counter,
    ensures
        tally_ok(w),
{
    assert forall|j: u64| #[trigger] w.requests.contains_key(request_key(j)) implies {
        &&& w.requests[request_key(j)].request_id == j
        &&& voters(w, j).finite()
        &&& voters(w, j).len() == w.requests[request_key(j)].approval_count
            + w.requests[request_key(j)].rejection_count
        &&& j <= w.request_counter
    } by {
        assert(v.requests.contains_key(request_key(j)));
        assert(voters(w, j) =~= voters(v, j));
    }
}

/// A vote counted on a stored request, by a validator who had not voted on
/// it, adds that validator to its voters and keeps the tally.
pub proof fn lemma_counted_vote_keeps_tally(
    v: CrossChainBridgeView,
    id: u64,
    validator: Address,
    vote: ValidatorSignatureView,
    c2: BridgeRequestView,
    w: CrossChainBridgeView,
)
    requires
        tally_ok(v),
        v.requests.contains_key(request_key(id)),
        !v.votes.contains_key(vote_key(id, validator)),
        c2.request_id == id,
        c2.approval_count + c2.rejection_count == v.requests[request_key(id)].approval_count
            + v.requests[request_key(id)].rejection_count + 1,
        w.requests == v.requests.insert(request_key(id), c2),
        w.votes == v.votes.insert(vote_key(id, validator), vote),
        w.request_counter == v.request_counter,
    ensures
        tally_ok(w),
        voters(w, id) == voters(v, id).insert(validator),
{
    assert(voters(w, id) =~= voters(v, id).insert(validator)) by {
        assert forall|a: Address| #[trigger] voters(w, id).contains(a) == voters(v, id).insert(validator).contains(a) by {
            lemma_pair_key_injective(id, a, id, validator);
        }
    }
    assert forall|j: u64| #[trigger] w.requests.contains_key(request_key(j)) implies {
        &&& w.requests[request_key(j)].request_id == j
        &&& voters(w, j).finite()
        &&& voters(w, j).len() == w.requests[request_key(j)].approval_count
            + w.requests[request_key(j)].rejection_count
        &&& j <= w.request_counter
    } by {
        assert(v.requests.contains_key(request_key(j)));
        if j != id {
            assert(voters(w, j) =~= voters(v, j)) by {
                assert forall|a: Address| #[trigger] voters(w, j).contains(a) == voters(v, j).contains(a) by {
                    lemma_pair_key_injective(j, a, id, validator);
                }
            }
        }
    }
    assert forall|j: u64, a: Address| #[trigger] w.votes.contains_key(vote_key(j, a)) implies w.requests.contains_key(
        request_key(j),
    ) by {
        lemma_pair_key_injective(j, a, id, validator);
    }
}

/// Every vote keeps the tally: after any call of `submit_validator_vote`, on
/// every stored request the approvals plus the rejections equal the number
/// of validators who have voted on it. A counted vote adds its validator to
/// the voters; a refused one changes nothing; a validator who already voted
/// on a live pending request is refused with `AlreadyVoted`, and one outside
/// the set with `NotValidator` (while the bridge is not paused).
pub proof fn law_vote_keeps_tally(
    v: CrossChainBridgeView,
    validator: Address,
    request_id: u64,
    approved: bool,
    signature: Seq<u8>,
    now: u64,
)
    requires
        tally_ok(v),
        spec_vote_arith_ok(v, validator, request_id, approved),
    ensures
        ({
            let r = spec_vote_result(v, validator, request_id, approved, signature, now);
            let req = v.requests[request_key(request_id)];
            let c = counted(req, approved);
            let vote = ValidatorSignatureView { validator, request_id, approved, signed_at: now, signature };
            &&& r == Ok::<BridgeRequestStatus, BridgeError>(BridgeRequestStatus::Expired) ==> tally_ok(
                spec_expired_state(v, req),
            )
            &&& r == Ok::<BridgeRequestStatus, BridgeError>(BridgeRequestStatus::Completed) ==> tally_ok(
                spec_completed_state(v, c, vote, now),
            ) && voters(spec_completed_state(v, c, vote, now), request_id) == voters(v, request_id).insert(validator)
            &&& r == Ok::<BridgeRequestStatus, BridgeError>(BridgeRequestStatus::Rejected) ==> tally_ok(
                spec_rejected_state(v, c, vote),
            ) && voters(spec_rejected_state(v, c, vote), request_id) == voters(v, request_id).insert(validator)
            &&& r == Ok::<BridgeRequestStatus, BridgeError>(BridgeRequestStatus::Pending) ==> tally_ok(
                spec_pending_state(v, c, vote),
            ) && voters(spec_pending_state(v, c, vote), request_id) == voters(v, request_id).insert(validator)
            &&& (!v.stats.is_paused && !spec_is_validator(v, validator)) ==> r == Err::<BridgeRequestStatus, BridgeError>(
                BridgeError::NotValidator,
            )
            &&& (!v.stats.is_paused && spec_is_validator(v, validator) && v.requests.contains_key(request_key(request_id))
                && req.status == BridgeRequestStatus::Pending && now <= req.expires_at && voters(v, request_id).contains(
                validator,
            )) ==> r == Err::<BridgeRequestStatus, BridgeError>(BridgeError::AlreadyVoted)
        }),
{
    let r = spec_vote_result(v, validator, request_id, approved, signature, now);
    let k = request_key(request_id);
    let req = v.requests[k];
    let c = counted(req, approved);
    let vote = ValidatorSignatureView { validator, request_id, approved, signed_at: now, signature };
    if r is Ok {
        assert(v.requests.contains_key(k));
        assert(req.request_id == request_id);
        if r == Ok::<BridgeRequestStatus, BridgeError>(BridgeRequestStatus::Expired) {
            law_status_change_keeps_tally(v, request_id, with_status(req, BridgeRequestStatus::Expired), spec_expired_state(v, req));
        } else {
            let c2 = if r == Ok::<BridgeRequestStatus, BridgeError>(BridgeRequestStatus::Completed) {
                spec_completed_state(v, c, vote, now).requests[k]
            } else if r == Ok::<BridgeRequestStatus, BridgeError>(BridgeRequestStatus::Rejected) {
                spec_rejected_state(v, c, vote).requests[k]
            } else {
                c
            };
            let w = if r == Ok::<BridgeRequestStatus, BridgeError>(BridgeRequestStatus::Completed) {
                spec_completed_state(v, c, vote, now)
            } else if r == Ok::<BridgeRequestStatus, BridgeError>(BridgeRequestStatus::Rejected) {
                spec_rejected_state(v, c, vote)
            } else {
                spec_pending_state(v, c, vote)
            };
            lemma_counted_vote_keeps_tally(v, request_id, validator, vote, c2, w);
        }
    }
}

/// The daily window is a rolling 24 hours: within 86 400 seconds of the
/// window's start the configuration is left exactly as it is; from then on
/// the window restarts at `now` with no volume, everything else kept.
pub proof fn law_daily_window_lasts_a_day(config: ChainConfig, now: u64)
    ensures
        now < config.window_start + 86_400 ==> spec_refresh_daily_window(config, now) == config,
        now >= config.window_start + 86_400 ==> ({
            let c = spec_refresh_daily_window(config, now);
            &&& c.daily_volume == 0
            &&& c.window_start == now
            &&& c.daily_limit == config.daily_limit
            &&& c.max_transfer_amount == config.max_transfer_amount
            &&& c.is_active == config.is_active
            &&& c.fee_bps == config.fee_bps
            &&& c.chain == config.chain
        }),
{
}

/// Within 24 hours of its window's start, a request that would take the
/// chain's volume past its daily limit is refused, inbound or outbound.
pub proof fn law_daily_limit_holds_within_a_day(
    v: CrossChainBridgeView,
    stellar_asset: Address,
    amount: i128,
    chain: ExternalChain,
    now: u64,
)
    requires
        v.chain_configs.contains_key(chain_key(chain)),
        now < v.chain_configs[chain_key(chain)].window_start + 86_400,
        v.chain_configs[chain_key(chain)].daily_volume + amount > v.chain_configs[chain_key(chain)].daily_limit,
    ensures
        spec_transfer_checks(v, stellar_asset, amount, chain, now) is Err,
{
    law_daily_window_lasts_a_day(v.chain_configs[chain_key(chain)], now);
}

} // verus!
