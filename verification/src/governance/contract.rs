//! The governance contract. Calls the host would abort (a second
//! initialization, voting twice or outside the voting window, queueing an
//! unsuccessful proposal, executing early or late) are excluded by each
//! function's precondition.

use vstd::prelude::*;
use crate::common::{Address, addr_key, pair_key, spec_addr_key, spec_pair_key};
use crate::store::Store;
use crate::bridge::security::trunc_div;

verus! {

/// Ledgers after the execution time during which a queued proposal may
/// still be executed.
pub const EXECUTION_GRACE_LEDGERS: u64 = 100_800;

#[derive(Clone, Copy, Debug, PartialEq, Eq, Structural)]
pub struct GovernanceConfig {
    pub voting_delay: u64,
    pub voting_period: u64,
    pub timelock_delay: u64,
    pub quorum_bps: u32,
    pub threshold_bps: u32,
    pub proposal_threshold: i128,
}

#[derive(Clone, Copy, Debug, PartialEq, Eq, Structural)]
pub enum ProposalState {
    Pending,
    Active,
    Succeeded,
    Defeated,
    Queued,
    Executed,
    Cancelled,
    Expired,
}

#[derive(Debug)]
pub struct Proposal {
    pub id: u64,
    pub proposer: Address,
    pub title: String,
    pub description: String,
    pub calldata: Vec<String>,
    pub start_ledger: u64,
    pub end_ledger: u64,
    pub eta_ledger: u64,
    pub for_votes: i128,
    pub against_votes: i128,
    pub abstain_votes: i128,
    pub state: ProposalState,
    pub cancelled: bool,
    pub executed: bool,
}

pub struct ProposalView {
    pub id: u64,
    pub proposer: Address,
    pub title: Seq<char>,
    pub description: Seq<char>,
    pub calldata: Seq<Seq<char>>,
    pub start_ledger: u64,
    pub end_ledger: u64,
    pub eta_ledger: u64,
    pub for_votes: i128,
    pub against_votes: i128,
    pub abstain_votes: i128,
    pub state: ProposalState,
    pub cancelled: bool,
    pub executed: bool,
}

impl View for Proposal {
    type V = ProposalView;

    open spec fn view(&self) -> ProposalView {
        ProposalView {
            id: self.id,
            proposer: self.proposer,
            title: self.title@,
            description: self.description@,
            calldata: self.calldata@.map_values(|s: String| s@),
            start_ledger: self.start_ledger,
            end_ledger: self.end_ledger,
            eta_ledger: self.eta_ledger,
            for_votes: self.for_votes,
            against_votes: self.against_votes,
            abstain_votes: self.abstain_votes,
            state: self.state,
            cancelled: self.cancelled,
            executed: self.executed,
        }
    }
}

fn copy_strings(v: &Vec<String>) -> (r: Vec<String>)
    ensures
        r@.map_values(|s: String| s@) == v@.map_values(|s: String| s@),
{
    let mut r: Vec<String> = Vec::new();
    let mut i: usize = 0;
    while i < v.len()
        invariant
            0 <= i <= v@.len(),
            r@.map_values(|s: String| s@) == v@.subrange(0, i as int).map_values(|s: String| s@),
        decreases v@.len() - i,
    {
        let ghost before = r@;
        r.push(v[i].clone());
        assert(r@.map_values(|s: String| s@) =~= before.map_values(|s: String| s@).push(v@[i as int]@));
        assert(v@.subrange(0, i + 1).map_values(|s: String| s@) =~= v@.subrange(0, i as int).map_values(|s: String| s@).push(
            v@[i as int]@,
        ));
        i = i + 1;
    }
    assert(v@.subrange(0, v@.len() as int) =~= v@);
    r
}

pub fn copy_proposal(p: &Proposal) -> (c: Proposal)
    ensures
        c@ == p@,
{
    Proposal {
        id: p.id,
        proposer: p.proposer,
        title: p.title.clone(),
        description: p.description.clone(),
        calldata: copy_strings(&p.calldata),
        start_ledger: p.start_ledger,
        end_ledger: p.end_ledger,
        eta_ledger: p.eta_ledger,
        for_votes: p.for_votes,
        against_votes: p.against_votes,
        abstain_votes: p.abstain_votes,
        state: p.state,
        cancelled: p.cancelled,
        executed: p.executed,
    }
}

/// Whether and how an account voted: `support` is 0 against, 1 for, 2
/// abstain.
#[derive(Clone, Copy, Debug, PartialEq, Eq, Structural)]
pub struct VoteReceipt {
    pub has_voted: bool,
    pub support: u8,
    pub votes: i128,
}

#[derive(Clone, Copy, Debug, PartialEq, Eq, Structural)]
pub enum DataKey {
    Proposal(u64),
    VoteReceipt(u64, Address),
    Delegate(Address),
    VotingPower(Address),
    TotalSupply,
}

/// Contract storage and ledger of the governance contract.
pub struct GovEnv {
    /// Ledger sequence number.
    pub ledger: u32,
    pub admin: Option<Address>,
    pub config: Option<GovernanceConfig>,
    pub prop_count: Option<u64>,
    pub total_supply: Option<i128>,
    pub proposals: Store<Proposal>,
    /// Receipts by `(proposal id, voter)`.
    pub receipts: Store<VoteReceipt>,
    pub delegates: Store<Address>,
    pub voting_power: Store<i128>,
}

#[verifier::ext_equal]
pub struct GovView {
    pub ledger: u32,
    pub admin: Option<Address>,
    pub config: Option<GovernanceConfig>,
    pub prop_count: Option<u64>,
    pub total_supply: Option<i128>,
    pub proposals: Map<u128, ProposalView>,
    pub receipts: Map<u128, VoteReceipt>,
    pub delegates: Map<u128, Address>,
    pub voting_power: Map<u128, i128>,
}

impl View for GovEnv {
    type V = GovView;

    open spec fn view(&self) -> GovView {
        GovView {
            ledger: self.ledger,
            admin: self.admin,
            config: self.config,
            prop_count: self.prop_count,
            total_supply: self.total_supply,
            proposals: self.proposals@.map_values(|p: Proposal| p@),
            receipts: self.receipts@,
            delegates: self.delegates@,
            voting_power: self.voting_power@,
        }
    }
}

impl GovEnv {
    pub open spec fn wf(&self) -> bool {
        &&& self.proposals.wf()
        &&& self.receipts.wf()
        &&& self.delegates.wf()
        &&& self.voting_power.wf()
    }

    pub fn new(ledger: u32) -> (e: Self)
        ensures
            e.wf(),
            e@ == (GovView {
                ledger,
                admin: None,
                config: None,
                prop_count: None,
                total_supply: None,
                proposals: Map::empty(),
                receipts: Map::empty(),
                delegates: Map::empty(),
                voting_power: Map::empty(),
            }),
    {
        let e = GovEnv {
            ledger,
            admin: None,
            config: None,
            prop_count: None,
            total_supply: None,
            proposals: Store::new(),
            receipts: Store::new(),
            delegates: Store::new(),
            voting_power: Store::new(),
        };
        assert(e@ =~= GovView {
            ledger,
            admin: None,
            config: None,
            prop_count: None,
            total_supply: None,
            proposals: Map::empty(),
            receipts: Map::empty(),
            delegates: Map::empty(),
            voting_power: Map::empty(),
        });
        e
    }
}

/// The account whose voting power `account` uses.
pub open spec fn spec_delegate_of(v: GovView, account: Address) -> Address {
    if v.delegates.contains_key(spec_addr_key(account)) {
        v.delegates[spec_addr_key(account)]
    } else {
        account
    }
}

/// Voting power of `account`, through its delegate.
pub open spec fn spec_votes(v: GovView, account: Address) -> i128 {
    let d = spec_delegate_of(v, account);
    if v.voting_power.contains_key(spec_addr_key(d)) {
        v.voting_power[spec_addr_key(d)]
    } else {
        0
    }
}

/// Storage key of `voter`'s receipt on proposal `id`.
pub open spec fn receipt_key(id: u64, voter: Address) -> u128 {
    spec_pair_key(id, voter)
}

pub open spec fn spec_receipt(v: GovView, id: u64, voter: Address) -> VoteReceipt {
    if v.receipts.contains_key(receipt_key(id, voter)) {
        v.receipts[receipt_key(id, voter)]
    } else {
        VoteReceipt { has_voted: false, support: 0, votes: 0 }
    }
}

pub open spec fn supply_or_one(v: GovView) -> i128 {
    match v.total_supply {
        Some(s) => s,
        None => 1,
    }
}

/// Integer division rounding toward zero.
pub open spec fn tdiv(a: int, b: int) -> int {
    let q = (if a >= 0 { a } else { -a }) / (if b >= 0 { b } else { -b });
    if (a >= 0) == (b > 0) || a == 0 {
        q
    } else {
        -q
    }
}

pub fn div_toward_zero(a: i128, b: i128) -> (q: i128)
    requires
        b != 0,
        !(a == i128::MIN && b == -1),
    ensures
        q == tdiv(a as int, b as int),
{
    if b > 0 {
        a / b
    } else if b == i128::MIN {
        if a == i128::MIN {
            1
        } else {
            0
        }
    } else {
        let q = a / (-b);
        assert(q != i128::MIN) by {
            if a >= 0 {
                assert(q >= 0);
            } else {
                let m: int = -(a as int);
                let d: int = (-b) as int;
                assert(q == -(m / d));
                assert(m / d <= m) by (nonlinear_arith)
                    requires
                        m > 0,
                        d >= 1,
                ;
                if a == i128::MIN {
                    assert(d >= 2);
                    assert(m / d <= m / 2) by (nonlinear_arith)
                        requires
                            m > 0,
                            d >= 2,
                    ;
                }
            }
        }
        -q
    }
}

/// Total votes cast on `p`.
pub open spec fn total_votes(p: ProposalView) -> int {
    p.for_votes + p.against_votes + p.abstain_votes
}

/// State of `p` at the current ledger: cancelled and executed first, then
/// pending before and active during voting; after voting, defeated without
/// quorum or without a majority at the threshold, else succeeded (or still
/// queued once queued).
pub open spec fn spec_state(v: GovView, p: ProposalView) -> ProposalState {
    let c = v.config.unwrap();
    let now = v.ledger as u64;
    if p.cancelled {
        ProposalState::Cancelled
    } else if p.executed {
        ProposalState::Executed
    } else if now < p.start_ledger {
        ProposalState::Pending
    } else if now <= p.end_ledger {
        ProposalState::Active
    } else if total_votes(p) < trunc_div(supply_or_one(v) * c.quorum_bps, 10_000) {
        ProposalState::Defeated
    } else if p.for_votes + p.against_votes == 0 {
        ProposalState::Defeated
    } else if tdiv(p.for_votes * 10_000, p.for_votes + p.against_votes) >= c.threshold_bps {
        if p.state == ProposalState::Queued {
            ProposalState::Queued
        } else {
            ProposalState::Succeeded
        }
    } else {
        ProposalState::Defeated
    }
}

/// The state computation of `p` does not overflow.
pub open spec fn state_ok(v: GovView, p: ProposalView) -> bool {
    (!p.cancelled && !p.executed && v.ledger as u64 > p.end_ledger) ==> {
        let c = v.config.unwrap();
        &&& i128::MIN <= p.for_votes + p.against_votes <= i128::MAX
        &&& i128::MIN <= total_votes(p) <= i128::MAX
        &&& i128::MIN <= supply_or_one(v) * c.quorum_bps <= i128::MAX
        &&& i128::MIN <= p.for_votes * 10_000 <= i128::MAX
        &&& !(p.for_votes * 10_000 == i128::MIN && p.for_votes + p.against_votes == -1)
    }
}

pub open spec fn has_proposal(v: GovView, id: u64) -> bool {
    v.proposals.contains_key(id as u128)
}

pub open spec fn proposal_of(v: GovView, id: u64) -> ProposalView {
    v.proposals[id as u128]
}

/// The proposal after a vote of `votes` with `support`.
pub open spec fn with_vote(p: ProposalView, support: u8, votes: i128) -> ProposalView {
    if support == 0 {
        ProposalView { against_votes: (p.against_votes + votes) as i128, ..p }
    } else if support == 1 {
        ProposalView { for_votes: (p.for_votes + votes) as i128, ..p }
    } else {
        ProposalView { abstain_votes: (p.abstain_votes + votes) as i128, ..p }
    }
}

/// Conditions under which a vote is accepted.
pub open spec fn vote_ok(v: GovView, voter: Address, proposal_id: u64, support: u8) -> bool {
    let p = proposal_of(v, proposal_id);
    let votes = spec_votes(v, voter);
    &&& !spec_receipt(v, proposal_id, voter).has_voted
    &&& has_proposal(v, proposal_id)
    &&& v.config is Some
    &&& state_ok(v, p)
    &&& spec_state(v, p) == ProposalState::Active
    &&& support <= 2
    &&& votes != 0
    &&& (support == 0 ==> i128::MIN <= p.against_votes + votes <= i128::MAX)
    &&& (support == 1 ==> i128::MIN <= p.for_votes + votes <= i128::MAX)
    &&& (support == 2 ==> i128::MIN <= p.abstain_votes + votes <= i128::MAX)
}

/// State after an accepted vote.
pub open spec fn spec_voted(v: GovView, voter: Address, proposal_id: u64, support: u8) -> GovView {
    let votes = spec_votes(v, voter);
    GovView {
        proposals: v.proposals.insert(proposal_id as u128, with_vote(proposal_of(v, proposal_id), support, votes)),
        receipts: v.receipts.insert(receipt_key(proposal_id, voter), VoteReceipt { has_voted: true, support, votes }),
        ..v
    }
}

pub struct GovernanceContract;

impl GovernanceContract {
    /// Set admin, configuration and total supply; no proposals yet.
    pub fn initialize(env: &mut GovEnv, admin: Address, config: GovernanceConfig, initial_supply: i128)
        requires
            old(env).wf(),
            old(env)@.admin is None,
        ensures
            final(env).wf(),
            final(env)@ == (GovView {
                admin: Some(admin),
                config: Some(config),
                prop_count: Some(0),
                total_supply: Some(initial_supply),
                ..old(env)@
            }),
    {
        env.admin = Some(admin);
        env.config = Some(config);
        env.prop_count = Some(0);
        env.total_supply = Some(initial_supply);
    }

    fn only_admin(env: &GovEnv)
        requires
            env@.admin is Some,
    {
    }

    fn require_admin(env: &GovEnv)
        requires
            env@.admin is Some,
    {
    }

    /// Replace the configuration (admin only).
    pub fn update_config(env: &mut GovEnv, new_config: GovernanceConfig)
        requires
            old(env).wf(),
            old(env)@.admin is Some,
        ensures
            final(env).wf(),
            final(env)@ == (GovView { config: Some(new_config), ..old(env)@ }),
    {
        Self::only_admin(env);
        env.config = Some(new_config);
    }

    pub fn get_config(env: &GovEnv) -> (c: GovernanceConfig)
        requires
            env@.config is Some,
        ensures
            env@.config == Some(c),
    {
        match env.config {
            Some(c) => c,
            None => GovernanceConfig {
                voting_delay: 0,
                voting_period: 0,
                timelock_delay: 0,
                quorum_bps: 0,
                threshold_bps: 0,
                proposal_threshold: 0,
            },
        }
    }

    /// Set `account`'s voting power (admin only).
    pub fn set_voting_power(env: &mut GovEnv, account: Address, amount: i128)
        requires
            old(env).wf(),
            old(env)@.admin is Some,
        ensures
            final(env).wf(),
            final(env)@ == (GovView { voting_power: old(env)@.voting_power.insert(spec_addr_key(account), amount), ..old(env)@ }),
    {
        Self::only_admin(env);
        env.voting_power.set(addr_key(account), amount);
        assert(env@ =~= GovView { voting_power: old(env)@.voting_power.insert(spec_addr_key(account), amount), ..old(env)@ });
    }

    /// `delegator` votes with `delegatee`'s power from now on.
    pub fn delegate(env: &mut GovEnv, delegator: Address, delegatee: Address)
        requires
            old(env).wf(),
        ensures
            final(env).wf(),
            final(env)@ == (GovView { delegates: old(env)@.delegates.insert(spec_addr_key(delegator), delegatee), ..old(env)@ }),
    {
        env.delegates.set(addr_key(delegator), delegatee);
        assert(env@ =~= GovView { delegates: old(env)@.delegates.insert(spec_addr_key(delegator), delegatee), ..old(env)@ });
    }

    fn resolve_delegate(env: &GovEnv, account: Address) -> (d: Address)
        requires
            env.wf(),
        ensures
            d == spec_delegate_of(env@, account),
    {
        match env.delegates.get(addr_key(account)) {
            Some(d) => *d,
            None => account,
        }
    }

    /// The account whose power `account` votes with (itself unless it
    /// delegated).
    pub fn get_delegate(env: &GovEnv, account: Address) -> (d: Address)
        requires
            env.wf(),
        ensures
            d == spec_delegate_of(env@, account),
    {
        Self::resolve_delegate(env, account)
    }

    /// Voting power of `account` through its delegate.
    pub fn get_votes(env: &GovEnv, account: Address) -> (n: i128)
        requires
            env.wf(),
        ensures
            n == spec_votes(env@, account),
    {
        let effective = Self::resolve_delegate(env, account);
        match env.voting_power.get(addr_key(effective)) {
            Some(n) => *n,
            None => 0,
        }
    }

    /// Open a proposal; the proposer needs the proposal threshold of voting
    /// power. Voting starts after the voting delay and lasts the voting
    /// period. Returns the new proposal's id.
    pub fn propose(
        env: &mut GovEnv,
        proposer: Address,
        title: String,
        description: String,
        calldata: Vec<String>,
    ) -> (id: u64)
        requires
            old(env).wf(),
            old(env)@.config is Some,
            old(env)@.prop_count is Some,
            spec_votes(old(env)@, proposer) >= old(env)@.config.unwrap().proposal_threshold,
            old(env).ledger + old(env)@.config.unwrap().voting_delay + old(env)@.config.unwrap().voting_period <= u64::MAX,
            old(env)@.prop_count.unwrap() < u64::MAX,
        ensures
            final(env).wf(),
            ({
                let v = old(env)@;
                let c = v.config.unwrap();
                let start = (v.ledger + c.voting_delay) as u64;
                &&& id == v.prop_count.unwrap() + 1
                &&& final(env)@ == (GovView {
                    proposals: v.proposals.insert(id as u128, ProposalView {
                        id,
                        proposer,
                        title: title@,
                        description: description@,
                        calldata: calldata@.map_values(|s: String| s@),
                        start_ledger: start,
                        end_ledger: (start + c.voting_period) as u64,
                        eta_ledger: 0,
                        for_votes: 0,
                        against_votes: 0,
                        abstain_votes: 0,
                        state: ProposalState::Pending,
                        cancelled: false,
                        executed: false,
                    }),
                    prop_count: Some(id),
                    ..v
                })
            }),
    {
        let config = Self::get_config(env);
        let _votes = Self::get_votes(env, proposer);
        let current = env.ledger as u64;
        let start = current + config.voting_delay;
        let end = start + config.voting_period;
        let count = match env.prop_count {
            Some(c) => c + 1,
            None => 1,
        };
        let proposal = Proposal {
            id: count,
            proposer,
            title,
            description,
            calldata,
            start_ledger: start,
            end_ledger: end,
            eta_ledger: 0,
            for_votes: 0,
            against_votes: 0,
            abstain_votes: 0,
            state: ProposalState::Pending,
            cancelled: false,
            executed: false,
        };
        let ghost pv = proposal@;
        let ghost v = env@;
        env.proposals.set(count as u128, proposal);
        env.prop_count = Some(count);
        assert(env@.proposals =~= v.proposals.insert(count as u128, pv));
        assert(env@ =~= GovView { proposals: v.proposals.insert(count as u128, pv), prop_count: Some(count), ..v });
        count
    }

    fn load_proposal(env: &GovEnv, id: u64) -> (p: Proposal)
        requires
            env.wf(),
            has_proposal(env@, id),
        ensures
            p@ == proposal_of(env@, id),
    {
        match env.proposals.get(id as u128) {
            Some(p) => copy_proposal(p),
            None => Proposal {
                id: 0,
                proposer: Address(0),
                title: String::new(),
                description: String::new(),
                calldata: Vec::new(),
                start_ledger: 0,
                end_ledger: 0,
                eta_ledger: 0,
                for_votes: 0,
                against_votes: 0,
                abstain_votes: 0,
                state: ProposalState::Pending,
                cancelled: false,
                executed: false,
            },
        }
    }

    fn store_proposal(env: &mut GovEnv, id: u64, p: Proposal)
        requires
            old(env).wf(),
        ensures
            final(env).wf(),
            final(env)@ == (GovView { proposals: old(env)@.proposals.insert(id as u128, p@), ..old(env)@ }),
    {
        let ghost pv = p@;
        env.proposals.set(id as u128, p);
        assert(env@.proposals =~= old(env)@.proposals.insert(id as u128, pv));
        assert(env@ =~= GovView { proposals: old(env)@.proposals.insert(id as u128, pv), ..old(env)@ });
    }

    /// Cancel an unexecuted proposal (its proposer, or with the admin's
    /// authorization).
    pub fn cancel_proposal(env: &mut GovEnv, caller: Address, proposal_id: u64)
        requires
            old(env).wf(),
            has_proposal(old(env)@, proposal_id),
            proposal_of(old(env)@, proposal_id).proposer != caller ==> old(env)@.admin is Some,
            !proposal_of(old(env)@, proposal_id).executed,
        ensures
            final(env).wf(),
            final(env)@ == (GovView {
                proposals: old(env)@.proposals.insert(
                    proposal_id as u128,
                    ProposalView { cancelled: true, state: ProposalState::Cancelled, ..proposal_of(old(env)@, proposal_id) },
                ),
                ..old(env)@
            }),
    {
        let mut proposal = Self::load_proposal(env, proposal_id);
        if proposal.proposer != caller {
            Self::require_admin(env);
        }
        proposal.cancelled = true;
        proposal.state = ProposalState::Cancelled;
        Self::store_proposal(env, proposal_id, proposal);
    }

    fn compute_state(env: &GovEnv, proposal: &Proposal) -> (s: ProposalState)
        requires
            env@.config is Some,
            state_ok(env@, proposal@),
        ensures
            s == spec_state(env@, proposal@),
    {
        if proposal.cancelled {
            return ProposalState::Cancelled;
        }
        if proposal.executed {
            return ProposalState::Executed;
        }
        let config = Self::get_config(env);
        let current = env.ledger as u64;
        let total_supply: i128 = match env.total_supply {
            Some(s) => s,
            None => 1,
        };
        if current < proposal.start_ledger {
            return ProposalState::Pending;
        }
        if current <= proposal.end_ledger {
            return ProposalState::Active;
        }
        let total = proposal.for_votes + proposal.against_votes + proposal.abstain_votes;
        let quorum_needed = (total_supply * config.quorum_bps as i128) / 10_000;
        if total < quorum_needed {
            return ProposalState::Defeated;
        }
        let decisive = proposal.for_votes + proposal.against_votes;
        if decisive == 0 {
            return ProposalState::Defeated;
        }
        let for_bps = div_toward_zero(proposal.for_votes * 10_000, decisive);
        if for_bps >= config.threshold_bps as i128 {
            if proposal.state == ProposalState::Queued {
                return ProposalState::Queued;
            }
            return ProposalState::Succeeded;
        }
        ProposalState::Defeated
    }

    /// The proposal with its state as of now.
    pub fn get_proposal(env: &GovEnv, proposal_id: u64) -> (p: Proposal)
        requires
            env.wf(),
            env@.config is Some,
            has_proposal(env@, proposal_id),
            state_ok(env@, proposal_of(env@, proposal_id)),
        ensures
            p@ == (ProposalView {
                state: spec_state(env@, proposal_of(env@, proposal_id)),
                ..proposal_of(env@, proposal_id)
            }),
    {
        let mut proposal = Self::load_proposal(env, proposal_id);
        proposal.state = Self::compute_state(env, &proposal);
        proposal
    }

    /// The proposal's state as of now.
    pub fn get_proposal_state(env: &GovEnv, proposal_id: u64) -> (s: ProposalState)
        requires
            env.wf(),
            env@.config is Some,
            has_proposal(env@, proposal_id),
            state_ok(env@, proposal_of(env@, proposal_id)),
        ensures
            s == spec_state(env@, proposal_of(env@, proposal_id)),
    {
        let proposal = Self::load_proposal(env, proposal_id);
        Self::compute_state(env, &proposal)
    }

    fn cast(env: &mut GovEnv, voter: Address, proposal_id: u64, support: u8)
        requires
            old(env).wf(),
            vote_ok(old(env)@, voter, proposal_id, support),
        ensures
            final(env).wf(),
            final(env)@ == spec_voted(old(env)@, voter, proposal_id, support),
    {
        let ghost v = env@;
        let mut proposal = Self::load_proposal(env, proposal_id);
        let _state = Self::compute_state(env, &proposal);
        let votes = Self::get_votes(env, voter);
        if support == 0 {
            proposal.against_votes = proposal.against_votes + votes;
        } else if support == 1 {
            proposal.for_votes = proposal.for_votes + votes;
        } else {
            proposal.abstain_votes = proposal.abstain_votes + votes;
        }
        Self::store_proposal(env, proposal_id, proposal);
        env.receipts.set(pair_key(proposal_id, voter), VoteReceipt { has_voted: true, support, votes });
        assert(env@ =~= spec_voted(v, voter, proposal_id, support));
    }

    /// Vote on an active proposal: 0 against, 1 for, 2 abstain, with the
    /// voter's delegated power; each account votes once.
    pub fn cast_vote(env: &mut GovEnv, voter: Address, proposal_id: u64, support: u8)
        requires
            old(env).wf(),
            vote_ok(old(env)@, voter, proposal_id, support),
        ensures
            final(env).wf(),
            final(env)@ == spec_voted(old(env)@, voter, proposal_id, support),
    {
        Self::cast(env, voter, proposal_id, support);
    }

    /// As `cast_vote`; the reason is not stored.
    pub fn cast_vote_with_reason(env: &mut GovEnv, voter: Address, proposal_id: u64, support: u8, reason: String)
        requires
            old(env).wf(),
            vote_ok(old(env)@, voter, proposal_id, support),
        ensures
            final(env).wf(),
            final(env)@ == spec_voted(old(env)@, voter, proposal_id, support),
    {
        Self::cast(env, voter, proposal_id, support);
    }

    /// `voter`'s receipt on the proposal (an empty one if it did not vote).
    pub fn get_vote_receipt(env: &GovEnv, proposal_id: u64, voter: Address) -> (r: VoteReceipt)
        requires
            env.wf(),
        ensures
            r == spec_receipt(env@, proposal_id, voter),
    {
        match env.receipts.get(pair_key(proposal_id, voter)) {
            Some(r) => *r,
            None => VoteReceipt { has_voted: false, support: 0, votes: 0 },
        }
    }

    /// Queue a succeeded proposal: it becomes executable after the timelock.
    pub fn queue(env: &mut GovEnv, caller: Address, proposal_id: u64)
        requires
            old(env).wf(),
            old(env)@.config is Some,
            has_proposal(old(env)@, proposal_id),
            state_ok(old(env)@, proposal_of(old(env)@, proposal_id)),
            spec_state(old(env)@, proposal_of(old(env)@, proposal_id)) == ProposalState::Succeeded,
            old(env).ledger + old(env)@.config.unwrap().timelock_delay <= u64::MAX,
        ensures
            final(env).wf(),
            final(env)@ == (GovView {
                proposals: old(env)@.proposals.insert(
                    proposal_id as u128,
                    ProposalView {
                        eta_ledger: (old(env).ledger + old(env)@.config.unwrap().timelock_delay) as u64,
                        state: ProposalState::Queued,
                        ..proposal_of(old(env)@, proposal_id)
                    },
                ),
                ..old(env)@
            }),
    {
        let config = Self::get_config(env);
        let mut proposal = Self::load_proposal(env, proposal_id);
        let _state = Self::compute_state(env, &proposal);
        let current = env.ledger as u64;
        proposal.eta_ledger = current + config.timelock_delay;
        proposal.state = ProposalState::Queued;
        Self::store_proposal(env, proposal_id, proposal);
    }

    /// Execute a queued proposal once its timelock has passed and before the
    /// grace period ends.
    pub fn execute(env: &mut GovEnv, caller: Address, proposal_id: u64)
        requires
            old(env).wf(),
            has_proposal(old(env)@, proposal_id),
            ({
                let p = proposal_of(old(env)@, proposal_id);
                &&& p.state == ProposalState::Queued
                &&& p.eta_ledger != 0
                &&& p.eta_ledger <= old(env).ledger as u64
                &&& p.eta_ledger + EXECUTION_GRACE_LEDGERS <= u64::MAX
                &&& old(env).ledger as u64 <= p.eta_ledger + EXECUTION_GRACE_LEDGERS
            }),
        ensures
            final(env).wf(),
            final(env)@ == (GovView {
                proposals: old(env)@.proposals.insert(
                    proposal_id as u128,
                    ProposalView { executed: true, state: ProposalState::Executed, ..proposal_of(old(env)@, proposal_id) },
                ),
                ..old(env)@
            }),
    {
        let mut proposal = Self::load_proposal(env, proposal_id);
        proposal.executed = true;
        proposal.state = ProposalState::Executed;
        Self::store_proposal(env, proposal_id, proposal);
    }

    /// Hand the admin role to `new_admin` (admin only).
    pub fn transfer_admin(env: &mut GovEnv, new_admin: Address)
        requires
            old(env).wf(),
            old(env)@.admin is Some,
        ensures
            final(env).wf(),
            final(env)@ == (GovView { admin: Some(new_admin), ..old(env)@ }),
    {
        Self::only_admin(env);
        env.admin = Some(new_admin);
    }

    pub fn get_admin(env: &GovEnv) -> (a: Address)
        requires
            env@.admin is Some,
        ensures
            env@.admin == Some(a),
    {
        match env.admin {
            Some(a) => a,
            None => Address(0),
        }
    }

    /// Number of proposals made (0 before set-up).
    pub fn proposal_count(env: &GovEnv) -> (n: u64)
        ensures
            n == (match env@.prop_count {
                Some(n) => n,
                None => 0,
            }),
    {
        match env.prop_count {
            Some(n) => n,
            None => 0,
        }
    }
}

/// A proposal only succeeds with a quorum of votes and a majority at the
/// threshold among for and against votes.
pub proof fn law_success_needs_quorum_and_majority(v: GovView, p: ProposalView)
    requires
        v.config is Some,
        spec_state(v, p) == ProposalState::Succeeded || spec_state(v, p) == ProposalState::Queued,
        !p.cancelled && !p.executed,
    ensures
        v.ledger as u64 > p.end_ledger,
        total_votes(p) >= trunc_div(supply_or_one(v) * v.config.unwrap().quorum_bps, 10_000),
        p.for_votes + p.against_votes != 0,
        tdiv(p.for_votes * 10_000, p.for_votes + p.against_votes) >= v.config.unwrap().threshold_bps,
{
}

/// After its voting period, a live proposal succeeds whenever all its votes
/// (for, against and abstaining together) reach the quorum share of the
/// supply and the for votes make at least the threshold share of the
/// decisive ones: it is then succeeded, or queued once queued.
pub proof fn law_quorum_and_majority_succeed(v: GovView, p: ProposalView)
    requires
        v.config is Some,
        !p.cancelled,
        !p.executed,
        v.ledger as u64 > p.end_ledger,
        v.ledger as u64 >= p.start_ledger,
        p.for_votes + p.against_votes + p.abstain_votes >= trunc_div(
            supply_or_one(v) * v.config.unwrap().quorum_bps,
            10_000,
        ),
        p.for_votes + p.against_votes != 0,
        tdiv(p.for_votes * 10_000, p.for_votes + p.against_votes) >= v.config.unwrap().threshold_bps,
    ensures
        p.state == ProposalState::Queued ==> spec_state(v, p) == ProposalState::Queued,
        p.state != ProposalState::Queued ==> spec_state(v, p) == ProposalState::Succeeded,
{
}

/// An account votes once on a proposal: after its vote is counted, its
/// receipt says so, and every further vote by it is refused.
pub proof fn law_vote_once(v: GovView, voter: Address, proposal_id: u64, support: u8, again: u8)
    ensures
        spec_receipt(spec_voted(v, voter, proposal_id, support), proposal_id, voter).has_voted,
        !vote_ok(spec_voted(v, voter, proposal_id, support), voter, proposal_id, again),
{
}

/// A cancelled or executed proposal stays so whatever the ledger.
pub proof fn law_final_states_stick(v: GovView, w: GovView, p: ProposalView)
    requires
        v.config is Some,
        w.config is Some,
        p.cancelled || p.executed,
    ensures
        spec_state(v, p) == spec_state(w, p),
{
}

} // verus!
